//! The curated model catalog and hardware-aware recommendations.
pub mod types;
pub mod catalog;
pub mod recommend;
pub mod storage;
pub mod scan;
pub mod download;
