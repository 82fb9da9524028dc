//! A typed client for a source-hosting service's HTTP API: request building,
//! response interpretation, credential handling and the JSON wire model.
pub mod error;
pub mod json;
pub mod laws;
pub mod model;
pub mod store;
pub mod cli;
pub mod client;
pub mod text;
