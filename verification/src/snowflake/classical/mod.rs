//! Classical 41/10/12 Snowflake layout.

pub mod classical_snowflake_layout;
pub mod classical_snowflake_parts;
