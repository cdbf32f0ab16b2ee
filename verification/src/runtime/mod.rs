//! Running an installed model: the runner's settings and the record of the
//! model in use.
pub mod executor;
pub mod hotswap;
