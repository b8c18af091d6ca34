pub mod config;
pub mod datepart;
pub mod datetime;
pub mod expression;
pub mod field;
pub mod job;
pub mod laws;
pub mod operations;
pub mod parsing;
pub mod scheduler;
pub mod text;
pub mod value;
