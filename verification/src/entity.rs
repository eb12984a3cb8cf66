//! What a read reports once the stored text has been decoded into an entity.
//!
//! Entities are decoded by their own `serde` implementations, outside this
//! library; these functions take the outcome of that decoding.
use vstd::prelude::*;

use crate::error::SqliteStorageError;

verus! {

/// The outcome of reading one entity, given the outcome of decoding its
/// stored text (`None` where no entry is stored): nothing for an absent
/// entry, the entity where it decoded, and a serialization error where it
/// did not.
pub fn read_entity<V>(decoded: Option<Result<V, serde_json::Error>>) -> (r: Result<
    Option<V>,
    SqliteStorageError,
>)
    ensures
        match decoded {
            None => r == Ok::<Option<V>, SqliteStorageError>(None),
            Some(Ok(value)) => r == Ok::<Option<V>, SqliteStorageError>(Some(value)),
            Some(Err(_)) => r == Err::<Option<V>, SqliteStorageError>(
                SqliteStorageError::SerializationError,
            ),
        },
{
    match decoded {
        None => Ok(None),
        Some(Ok(value)) => Ok(Some(value)),
        Some(Err(_)) => Err(SqliteStorageError::SerializationError),
    }
}

/// The outcome of reading a list of entities, given the outcome of decoding
/// each item: all the entities in order where every item decoded, and a
/// serialization error where one did not.
pub fn collect_entities<V>(decoded: Vec<Result<V, serde_json::Error>>) -> (r: Result<
    Vec<V>,
    SqliteStorageError,
>)
    ensures
        match r {
            Ok(values) => {
                &&& values@.len() == decoded@.len()
                &&& forall|i: int|
                    0 <= i < decoded@.len() ==> #[trigger] decoded@[i] == Ok::<
                        V,
                        serde_json::Error,
                    >(values@[i])
            },
            Err(e) => {
                &&& e == SqliteStorageError::SerializationError
                &&& exists|i: int| 0 <= i < decoded@.len() && #[trigger] decoded@[i] is Err
            },
        },
{
    let ghost all = decoded@;
    let mut values: Vec<V> = Vec::new();
    for item in it: decoded
        invariant
            it.seq() == all,
            values@.len() == it.index(),
            forall|i: int| 0 <= i < it.index() ==> #[trigger] all[i] == Ok::<V, serde_json::Error>(values@[i]),
    {
        match item {
            Ok(value) => values.push(value),
            Err(_) => {
                assert(all[it.index() as int] is Err);
                return Err(SqliteStorageError::SerializationError);
            },
        }
    }
    Ok(values)
}

/// The stored text of the encryption key pairs of an epoch, where there is
/// one; their absence is reported as an error.
pub fn epoch_key_pairs_text(stored: Option<Vec<u8>>) -> (r: Result<Vec<u8>, SqliteStorageError>)
    ensures
        match stored {
            Some(text) => r == Ok::<Vec<u8>, SqliteStorageError>(text),
            None => r == Err::<Vec<u8>, SqliteStorageError>(SqliteStorageError::NotFound),
        },
{
    match stored {
        Some(text) => Ok(text),
        None => Err(SqliteStorageError::NotFound),
    }
}

} // verus!
