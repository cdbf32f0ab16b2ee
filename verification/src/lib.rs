//! The logic of the SelfAPI desktop agent: API keys and their snippets, the
//! local model catalog and its hardware-aware recommendations, the local HTTP
//! gateway's request handling, and the small state machines behind the
//! fallback router, tunnel client and marketplace host.
pub mod text;
pub mod order;
pub mod hardware;
pub mod models;
pub mod api_keys;
pub mod fallback;
pub mod tunnel;
pub mod marketplace;
pub mod json;
pub mod server;
pub mod runtime;
