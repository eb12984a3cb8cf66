use sqlite_storage::keys::{build_key_from_vec, epoch_key_pairs_id, Label};
use sqlite_storage::stored_list::{append, read_list, remove_first, remove_item, same_bytes};
use sqlite_storage::{SqliteStorageError, Tables};

const ALL_LABELS: [Label; 18] = [
    Label::KeyPackage,
    Label::Psk,
    Label::EncryptionKeyPair,
    Label::SignatureKeyPair,
    Label::EpochKeyPairs,
    Label::Tree,
    Label::GroupContext,
    Label::InterimTranscriptHash,
    Label::ConfirmationTag,
    Label::OwnLeafNodeIndex,
    Label::EpochSecrets,
    Label::ResumptionPsk,
    Label::MessageSecrets,
    Label::JoinConfig,
    Label::OwnLeafNodes,
    Label::GroupState,
    Label::QueuedProposal,
    Label::ProposalQueueRefs,
];

#[test]
fn label_texts() {
    assert_eq!(Label::KeyPackage.text(), "KeyPackage");
    assert_eq!(Label::JoinConfig.text(), "MlsGroupJoinConfig");
    assert_eq!(Label::ProposalQueueRefs.text(), "ProposalQueueRefs");
    assert_eq!(Label::Tree.bytes(), b"Tree".to_vec());
    for label in ALL_LABELS {
        assert_eq!(label.bytes(), label.text().as_bytes().to_vec());
    }
}

#[test]
fn storage_key_is_label_key_version() {
    let key = build_key_from_vec::<1>(b"Tree", b"\"g\"".to_vec());
    assert_eq!(key, b"Tree\"g\"\x00\x01".to_vec());
    let key = build_key_from_vec::<0x1234>(b"", Vec::new());
    assert_eq!(key, vec![0x12, 0x34]);
    let key = build_key_from_vec::<1>(b"Psk", vec![7]);
    assert_eq!(key, vec![b'P', b's', b'k', 7, 0, 1]);
}

#[test]
fn storage_key_matches_big_endian_version() {
    for version_key in [b"[1,2]".to_vec(), b"{}".to_vec()] {
        let mut expected = b"GroupState".to_vec();
        expected.extend_from_slice(&version_key);
        expected.extend_from_slice(&u16::to_be_bytes(513));
        assert_eq!(
            build_key_from_vec::<513>(&Label::GroupState.bytes(), version_key),
            expected
        );
    }
}

#[test]
fn storage_keys_of_different_labels_differ() {
    let keys = [b"".to_vec(), b"1".to_vec(), b"\"Index\"".to_vec(), b"s".to_vec()];
    for (i, a) in ALL_LABELS.iter().enumerate() {
        for (j, b) in ALL_LABELS.iter().enumerate() {
            for ka in keys.iter() {
                for kb in keys.iter() {
                    let x = build_key_from_vec::<1>(&a.bytes(), ka.clone());
                    let y = build_key_from_vec::<1>(&b.bytes(), kb.clone());
                    assert_eq!(x == y, i == j && ka == kb);
                }
            }
        }
    }
}

#[test]
fn epoch_key_pairs_id_concatenates() {
    let key = epoch_key_pairs_id(b"[1,2]", b"7", 42).unwrap();
    assert_eq!(key, b"[1,2]742".to_vec());
    let key = epoch_key_pairs_id(b"", b"", 0).unwrap();
    assert_eq!(key, b"0".to_vec());
    let key = epoch_key_pairs_id(b"\"g\"", b"[]", u32::MAX).unwrap();
    assert_eq!(key, b"\"g\"[]4294967295".to_vec());
    let mut expected = serde_json::to_vec(&"g").unwrap();
    expected.extend_from_slice(&serde_json::to_vec(&3u64).unwrap());
    expected.extend_from_slice(&serde_json::to_vec(&19u32).unwrap());
    assert_eq!(epoch_key_pairs_id(b"\"g\"", b"3", 19).unwrap(), expected);
}

#[test]
fn append_to_absent_entry() {
    let text = append(None, b"ab".to_vec()).unwrap();
    assert_eq!(text, b"[[97,98]]".to_vec());
    assert_eq!(text, serde_json::to_vec(&vec![b"ab".to_vec()]).unwrap());
}

#[test]
fn append_to_present_entry() {
    let text = append(Some(b"[[1]]".to_vec()), vec![2, 3]).unwrap();
    assert_eq!(text, b"[[1],[2,3]]".to_vec());
    let text = append(Some(b" [ ] ".to_vec()), vec![]).unwrap();
    assert_eq!(text, b"[[]]".to_vec());
    let text = append(Some(b"[[5]]".to_vec()), vec![5]).unwrap();
    assert_eq!(text, b"[[5],[5]]".to_vec());
}

#[test]
fn append_to_unreadable_entry() {
    assert_eq!(
        append(Some(b"not json".to_vec()), vec![1]),
        Err(SqliteStorageError::SerializationError)
    );
    assert_eq!(
        append(Some(b"[1,2]".to_vec()), vec![1]),
        Err(SqliteStorageError::SerializationError)
    );
    assert_eq!(
        append(Some(Vec::new()), vec![1]),
        Err(SqliteStorageError::SerializationError)
    );
}

#[test]
fn read_list_after_append() {
    let mut stored: Option<Vec<u8>> = None;
    for item in [vec![1u8], vec![], vec![255, 0]] {
        stored = Some(append(stored, item).unwrap());
    }
    assert_eq!(read_list(stored), Some(vec![vec![1u8], vec![], vec![255, 0]]));
}

#[test]
fn read_list_of_entries() {
    assert_eq!(read_list(None), Some(Vec::new()));
    assert_eq!(
        read_list(Some(b"[[1,2],[3]]".to_vec())),
        Some(vec![vec![1, 2], vec![3]])
    );
    assert_eq!(read_list(Some(b"[]".to_vec())), Some(Vec::new()));
    assert_eq!(read_list(Some(b"{".to_vec())), None);
    assert_eq!(read_list(Some(b"[[256]]".to_vec())), None);
}

#[test]
fn remove_item_removes_first_occurrence() {
    let text = remove_item(Some(b"[[1],[2],[1]]".to_vec()), vec![1]).unwrap();
    assert_eq!(text, b"[[2],[1]]".to_vec());
    let text = remove_item(Some(b"[[1],[2],[1]]".to_vec()), vec![2]).unwrap();
    assert_eq!(text, b"[[1],[1]]".to_vec());
}

#[test]
fn remove_item_absent_value() {
    let text = remove_item(Some(b"[[1], [2]]".to_vec()), vec![3]).unwrap();
    assert_eq!(text, b"[[1],[2]]".to_vec());
    let text = remove_item(None, vec![3]).unwrap();
    assert_eq!(text, b"[]".to_vec());
    assert_eq!(
        remove_item(Some(b"[".to_vec()), vec![3]),
        Err(SqliteStorageError::SerializationError)
    );
}

#[test]
fn remove_undoes_append_of_new_item() {
    let start = b"[[1],[2]]".to_vec();
    let appended = append(Some(start.clone()), vec![9, 9]).unwrap();
    let removed = remove_item(Some(appended), vec![9, 9]).unwrap();
    assert_eq!(removed, start);
}

#[test]
fn remove_first_on_vectors() {
    let mut list = vec![vec![1u8, 2], vec![3], vec![1, 2]];
    remove_first(&mut list, &[1, 2]);
    assert_eq!(list, vec![vec![3u8], vec![1, 2]]);
    remove_first(&mut list, &[4]);
    assert_eq!(list, vec![vec![3u8], vec![1, 2]]);
    let mut empty: Vec<Vec<u8>> = Vec::new();
    remove_first(&mut empty, &[]);
    assert!(empty.is_empty());
}

#[test]
fn same_bytes_compares() {
    assert!(same_bytes(b"abc", b"abc"));
    assert!(same_bytes(b"", b""));
    assert!(!same_bytes(b"abc", b"abd"));
    assert!(!same_bytes(b"ab", b"abc"));
}

#[test]
fn default_tables() {
    let tables = Tables::default();
    assert_eq!(tables.identity(), "identity");
    assert_eq!(tables.check(), Ok(()));
}

#[test]
fn json_errors_become_serialization_errors() {
    let err = serde_json::from_slice::<Vec<u8>>(b"x").unwrap_err();
    assert_eq!(SqliteStorageError::from(err), SqliteStorageError::SerializationError);
}

#[test]
fn remove_undoes_append_on_absent_entry() {
    let appended = append(None, vec![4]).unwrap();
    let removed = remove_item(Some(appended), vec![4]).unwrap();
    assert_eq!(removed, b"[]".to_vec());
}

#[test]
fn remove_undoes_append_to_reformatted_text() {
    let appended = append(Some(b" [ [1] , [2] ] ".to_vec()), vec![3]).unwrap();
    let removed = remove_item(Some(appended), vec![3]).unwrap();
    assert_eq!(removed, serde_json::to_vec(&vec![vec![1u8], vec![2u8]]).unwrap());
}
