//! Identifier generation for services that need a numeric ID boundary: the
//! Qubit and classic Snowflake bit layouts, the allocation state machine
//! shared by every Snowflake generator, and the domain values those
//! generators produce.
//!
//! Wall times are nanoseconds since the Unix epoch and durations are
//! nanoseconds (see [`wall_time`]). An allocation core never reads a clock
//! or waits: each attempt is handed the observed wall time and answers with
//! an ID, a retry delay, or an error.

pub mod decimal;
pub mod generation_attempt;
pub mod generation_outcome;
pub mod id;
pub mod id_error;
pub mod id_generation_error;
pub mod id_generator;
pub mod id_mode;
pub mod qubit_snowflake_generator;
mod outside;
pub mod restart_policy;
pub mod snowflake;
pub mod timestamp_precision;
pub mod wall_time;

pub use generation_attempt::GenerationAttempt;
pub use generation_outcome::GenerationOutcome;
pub use id::Id;
pub use id_error::IdError;
pub use id_generation_error::IdGenerationError;
pub use id_generator::IdGenerator;
pub use id_mode::IdMode;
pub use restart_policy::RestartPolicy;
pub use snowflake::{
    ClassicalSnowflakeLayout, ClassicalSnowflakeParts, QubitSnowflakeBuilder,
    QubitSnowflakeLayout, QubitSnowflakeParts, SnowflakeCore, SnowflakeLayout, SnowflakeParts,
    SnowflakeStringGenerator, DEFAULT_MAX_CLOCK_SKEW, HOST_BITS, HOST_MAX, HOST_MIN,
    PRECISION_BITS,
};
pub use timestamp_precision::TimestampPrecision;
