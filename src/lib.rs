//! Persistence and indexing layer for a cross-chain message relay agent:
//! a typed, namespaced key-value store with idempotent event ingestion.
pub mod codec;
pub mod hash;
pub mod keys;
pub mod kv;
pub mod lemmas;
pub mod model;
pub mod settings;
pub mod store;
pub mod types;
pub mod uint;
pub mod utils;
