pub mod error;
pub mod handlers;
pub mod link;
pub mod parser;
