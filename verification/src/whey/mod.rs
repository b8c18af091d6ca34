pub mod attributes;
pub mod collection;
pub mod context;
pub mod mock_core;
pub mod expectation;
pub mod fields;
pub mod impls;
pub mod laws;
pub mod mock;
pub mod model;
pub mod names;
pub mod types;
