//! Verified core of an SQLite-backed storage provider for MLS state:
//! storage-key derivation, the JSON list encoding of appendable entries,
//! the table configuration and the provider's error type.

pub mod entity;
pub mod error;
pub mod json;
pub mod keys;
pub mod stored_list;
pub mod tables;

pub use error::SqliteStorageError;
pub use keys::{build_key_from_vec, epoch_key_pairs_id, Label};
pub use tables::Tables;
