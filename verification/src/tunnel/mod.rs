//! The outbound tunnel that gives the agent a public URL.
pub mod client;
