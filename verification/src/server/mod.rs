//! The local OpenAI-compatible gateway: reading requests, checking origin
//! and key, routing, and the answers of each endpoint.
pub mod http;
pub mod types;
pub mod manager;
pub mod routes;
pub mod handlers;
pub mod reading;
