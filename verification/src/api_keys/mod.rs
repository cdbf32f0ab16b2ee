//! API keys: generation, code snippets, the key store and access preparation.
pub mod generate;
pub mod snippets;
pub mod types;
pub mod storage;
pub mod prepare;
