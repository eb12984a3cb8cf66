use sqlite_storage::entity::{collect_entities, epoch_key_pairs_text, read_entity};
use sqlite_storage::SqliteStorageError;

fn json_error() -> serde_json::Error {
    serde_json::from_slice::<u8>(b"[").unwrap_err()
}

#[test]
fn read_entity_outcomes() {
    assert_eq!(read_entity::<u8>(None).unwrap(), None);
    assert_eq!(read_entity(Some(Ok(5u8))).unwrap(), Some(5));
    assert_eq!(
        read_entity::<u8>(Some(Err(json_error()))).unwrap_err(),
        SqliteStorageError::SerializationError
    );
}

#[test]
fn read_entity_decodes_stored_text() {
    let stored = serde_json::to_vec(&vec![1u32, 2]).unwrap();
    let decoded = Some(serde_json::from_slice::<Vec<u32>>(&stored));
    assert_eq!(read_entity(decoded).unwrap(), Some(vec![1, 2]));
    let decoded = Some(serde_json::from_slice::<Vec<u32>>(b"{}"));
    assert_eq!(
        read_entity(decoded).unwrap_err(),
        SqliteStorageError::SerializationError
    );
}

#[test]
fn collect_entities_outcomes() {
    assert_eq!(collect_entities::<u8>(Vec::new()).unwrap(), Vec::<u8>::new());
    assert_eq!(
        collect_entities(vec![Ok(1u8), Ok(2), Ok(3)]).unwrap(),
        vec![1, 2, 3]
    );
    assert_eq!(
        collect_entities(vec![Ok(1u8), Err(json_error()), Ok(3)]).unwrap_err(),
        SqliteStorageError::SerializationError
    );
}

#[test]
fn epoch_key_pairs_text_outcomes() {
    assert_eq!(epoch_key_pairs_text(Some(b"[]".to_vec())), Ok(b"[]".to_vec()));
    assert_eq!(epoch_key_pairs_text(None), Err(SqliteStorageError::NotFound));
}
