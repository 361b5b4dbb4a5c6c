pub mod document;
pub mod hashing;
pub mod snowflake;
