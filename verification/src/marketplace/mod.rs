//! Sharing spare GPU capacity on the marketplace.
pub mod host;
