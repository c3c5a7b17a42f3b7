//! The HTTP API: its request and response bodies and what its handlers
//! compute from them.
pub mod handlers;
pub mod models;
