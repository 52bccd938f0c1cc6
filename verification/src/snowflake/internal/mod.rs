//! State and calculations shared by every Snowflake-family generator.

pub mod expiration_time;
pub mod clock_observation;
pub mod restart_fence;
pub mod time_slice;
pub mod generation_state;
pub mod snowflake_layout_spec;
pub mod snowflake_core;
