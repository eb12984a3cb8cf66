//! Errors reported by the key store.
use vstd::prelude::*;

verus! {

/// The error type of `serde_json`, carried through opaquely.
#[verifier::external_type_specification]
#[verifier::external_body]
pub struct ExJsonError(serde_json::Error);

/// Errors thrown by the key store.
#[derive(Debug, Clone, PartialEq, Eq)]
pub enum SqliteStorageError {
    /// A configuration value was rejected.
    InvalidArgument(String),
    /// The key store does not allow storing serialized values.
    UnsupportedValueTypeBytes,
    /// Updating is not supported by this key store.
    UnsupportedMethod,
    /// A value could not be serialized or deserialized.
    SerializationError,
    /// The requested value does not exist.
    NotFound,
}

/// Every JSON failure is reported as a serialization error.
impl From<serde_json::Error> for SqliteStorageError {
    fn from(_e: serde_json::Error) -> (r: Self) {
        SqliteStorageError::SerializationError
    }
}

impl vstd::std_specs::convert::FromSpecImpl<serde_json::Error> for SqliteStorageError {
    open spec fn obeys_from_spec() -> bool {
        true
    }

    open spec fn from_spec(e: serde_json::Error) -> Self {
        SqliteStorageError::SerializationError
    }
}

} // verus!
