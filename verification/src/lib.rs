//! Cron expressions (parsing and matching), the job configuration built on
//! them, the routing decisions of a small web server, and the code
//! generation of the whey mocking helpers.

pub mod cron;
pub mod web;
pub mod whey;
