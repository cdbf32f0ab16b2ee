//! Routing to a cloud model when the local one is offline or slow.
pub mod router;
