//! Qubit Snowflake layout.

pub mod snowflake_layout;
