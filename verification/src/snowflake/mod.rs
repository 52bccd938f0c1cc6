//! Snowflake-family layouts, the shared allocation state machine, and the
//! decimal-string adapter.

pub mod bit_reversal;
pub mod classical;
pub mod constants;
pub mod internal;
pub mod qubit;
pub mod qubit_bits;
pub mod qubit_snowflake_builder;
pub mod qubit_snowflake_layout;
pub mod qubit_snowflake_parts;
pub mod snowflake_string_generator;

pub use classical::classical_snowflake_layout::ClassicalSnowflakeLayout;
pub use classical::classical_snowflake_parts::ClassicalSnowflakeParts;
pub use constants::{DEFAULT_MAX_CLOCK_SKEW, HOST_BITS, HOST_MAX, HOST_MIN, PRECISION_BITS};
pub use internal::snowflake_core::SnowflakeCore;
pub use qubit::snowflake_layout::SnowflakeLayout;
pub use qubit_snowflake_builder::QubitSnowflakeBuilder;
pub use qubit_snowflake_layout::QubitSnowflakeLayout;
pub use qubit_snowflake_parts::QubitSnowflakeParts;
pub use qubit_snowflake_parts::QubitSnowflakeParts as SnowflakeParts;
pub use snowflake_string_generator::SnowflakeStringGenerator;
