//! GPU and system description, and the decisions made over it.
pub mod types;
pub mod detect;
pub mod platform;
