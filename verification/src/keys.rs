//! Storage keys.
//!
//! Every entity is stored under the key `label ++ key ++ version`, where
//! `label` names the kind of entity, `key` is the serialized identifier of
//! the entity, and `version` is the two-byte big-endian storage version.
use vstd::prelude::*;

use crate::error::SqliteStorageError;
use crate::json::{decimal_text, encode_u32};

verus! {

/// The kinds of entity that the store keeps, each under a label of its own.
#[derive(Debug, Clone, Copy, PartialEq, Eq)]
pub enum Label {
    KeyPackage,
    Psk,
    EncryptionKeyPair,
    SignatureKeyPair,
    EpochKeyPairs,
    Tree,
    GroupContext,
    InterimTranscriptHash,
    ConfirmationTag,
    OwnLeafNodeIndex,
    EpochSecrets,
    ResumptionPsk,
    MessageSecrets,
    JoinConfig,
    OwnLeafNodes,
    GroupState,
    QueuedProposal,
    ProposalQueueRefs,
}

impl Label {
    /// The text of the label.
    pub open spec fn spec_text(self) -> Seq<char> {
        match self {
            Label::KeyPackage => "KeyPackage"@,
            Label::Psk => "Psk"@,
            Label::EncryptionKeyPair => "EncryptionKeyPair"@,
            Label::SignatureKeyPair => "SignatureKeyPair"@,
            Label::EpochKeyPairs => "EpochKeyPairs"@,
            Label::Tree => "Tree"@,
            Label::GroupContext => "GroupContext"@,
            Label::InterimTranscriptHash => "InterimTranscriptHash"@,
            Label::ConfirmationTag => "ConfirmationTag"@,
            Label::OwnLeafNodeIndex => "OwnLeafNodeIndex"@,
            Label::EpochSecrets => "EpochSecrets"@,
            Label::ResumptionPsk => "ResumptionPsk"@,
            Label::MessageSecrets => "MessageSecrets"@,
            Label::JoinConfig => "MlsGroupJoinConfig"@,
            Label::OwnLeafNodes => "OwnLeafNodes"@,
            Label::GroupState => "GroupState"@,
            Label::QueuedProposal => "QueuedProposal"@,
            Label::ProposalQueueRefs => "ProposalQueueRefs"@,
        }
    }

    /// The bytes of the label: its text, which is ASCII, one byte per
    /// character.
    pub open spec fn spec_bytes(self) -> Seq<u8> {
        self.spec_text().map_values(|c: char| c as u8)
    }

    /// The text of the label.
    pub fn text(&self) -> (r: &'static str)
        ensures
            r@ == self.spec_text(),
            vstd::string::is_ascii(r),
    {
        match self {
            Label::KeyPackage => {
                proof { reveal_strlit("KeyPackage"); }
                "KeyPackage"
            },
            Label::Psk => {
                proof { reveal_strlit("Psk"); }
                "Psk"
            },
            Label::EncryptionKeyPair => {
                proof { reveal_strlit("EncryptionKeyPair"); }
                "EncryptionKeyPair"
            },
            Label::SignatureKeyPair => {
                proof { reveal_strlit("SignatureKeyPair"); }
                "SignatureKeyPair"
            },
            Label::EpochKeyPairs => {
                proof { reveal_strlit("EpochKeyPairs"); }
                "EpochKeyPairs"
            },
            Label::Tree => {
                proof { reveal_strlit("Tree"); }
                "Tree"
            },
            Label::GroupContext => {
                proof { reveal_strlit("GroupContext"); }
                "GroupContext"
            },
            Label::InterimTranscriptHash => {
                proof { reveal_strlit("InterimTranscriptHash"); }
                "InterimTranscriptHash"
            },
            Label::ConfirmationTag => {
                proof { reveal_strlit("ConfirmationTag"); }
                "ConfirmationTag"
            },
            Label::OwnLeafNodeIndex => {
                proof { reveal_strlit("OwnLeafNodeIndex"); }
                "OwnLeafNodeIndex"
            },
            Label::EpochSecrets => {
                proof { reveal_strlit("EpochSecrets"); }
                "EpochSecrets"
            },
            Label::ResumptionPsk => {
                proof { reveal_strlit("ResumptionPsk"); }
                "ResumptionPsk"
            },
            Label::MessageSecrets => {
                proof { reveal_strlit("MessageSecrets"); }
                "MessageSecrets"
            },
            Label::JoinConfig => {
                proof { reveal_strlit("MlsGroupJoinConfig"); }
                "MlsGroupJoinConfig"
            },
            Label::OwnLeafNodes => {
                proof { reveal_strlit("OwnLeafNodes"); }
                "OwnLeafNodes"
            },
            Label::GroupState => {
                proof { reveal_strlit("GroupState"); }
                "GroupState"
            },
            Label::QueuedProposal => {
                proof { reveal_strlit("QueuedProposal"); }
                "QueuedProposal"
            },
            Label::ProposalQueueRefs => {
                proof { reveal_strlit("ProposalQueueRefs"); }
                "ProposalQueueRefs"
            },
        }
    }

    /// The bytes of the label.
    pub fn bytes(&self) -> (r: Vec<u8>)
        ensures
            r@ == self.spec_bytes(),
    {
        let text = self.text();
        let r = text.as_bytes_vec();
        proof {
            broadcast use vstd::string::group_string_axioms;

            assert(r@ =~= self.spec_bytes());
        }
        r
    }
}

/// The two bytes of `version`, most significant first.
pub open spec fn version_bytes(version: u16) -> Seq<u8> {
    seq![(version / 256) as u8, (version % 256) as u8]
}

/// The key under which an entity is stored: the label, then the entity's
/// own key, then the storage version.
pub open spec fn storage_key(label: Seq<u8>, key: Seq<u8>, version: u16) -> Seq<u8> {
    label + key + version_bytes(version)
}

/// Builds the storage key of the entity with key `key` under `label`, for
/// storage version `V`.
pub fn build_key_from_vec<const V: u16>(label: &[u8], key: Vec<u8>) -> (r: Vec<u8>)
    ensures
        r@ == storage_key(label@, key@, V),
        r@ == label@ + key@ + seq![(V / 256) as u8, (V % 256) as u8],
        r@.len() == label@.len() + key@.len() + 2,
        r@.subrange(0, label@.len() as int) == label@,
        r@.subrange(label@.len() as int, (label@.len() + key@.len()) as int) == key@,
        r@[r@.len() - 2] as int * 256 + r@[r@.len() - 1] as int == V as int,
{
    let mut key_out: Vec<u8> = Vec::new();
    let mut i: usize = 0;
    while i < label.len()
        invariant
            i <= label@.len(),
            key_out@ == label@.take(i as int),
        decreases label@.len() - i,
    {
        key_out.push(label[i]);
        i += 1;
        assert(key_out@ =~= label@.take(i as int));
    }
    let mut j: usize = 0;
    while j < key.len()
        invariant
            j <= key@.len(),
            key_out@ == label@ + key@.take(j as int),
        decreases key@.len() - j,
    {
        key_out.push(key[j]);
        j += 1;
        assert(key_out@ =~= label@ + key@.take(j as int));
    }
    let high: u8 = (V / 256) as u8;
    let low: u8 = (V % 256) as u8;
    key_out.push(high);
    key_out.push(low);
    assert(label@.take(label@.len() as int) =~= label@);
    assert(key@.take(key@.len() as int) =~= key@);
    assert(key_out@ =~= storage_key(label@, key@, V));
    assert(key_out@.subrange(0, label@.len() as int) =~= label@);
    assert(key_out@.subrange(label@.len() as int, (label@.len() + key@.len()) as int) =~= key@);
    key_out
}

/// The key of the encryption key pairs of a group for an epoch and a leaf:
/// the serialized group id, then the serialized epoch, then the leaf index
/// serialized as JSON.
pub fn epoch_key_pairs_id(group_id: &[u8], epoch: &[u8], leaf_index: u32) -> (r: Result<
    Vec<u8>,
    SqliteStorageError,
>)
    ensures
        r matches Ok(key) && key@ == group_id@ + epoch@ + decimal_text(leaf_index as nat),
{
    let index_text = match encode_u32(leaf_index) {
        Ok(text) => text,
        Err(e) => return Err(SqliteStorageError::from(e)),
    };
    let mut key: Vec<u8> = Vec::new();
    key.extend_from_slice(group_id);
    key.extend_from_slice(epoch);
    key.extend_from_slice(index_text.as_slice());
    assert(key@ =~= group_id@ + epoch@ + index_text@);
    Ok(key)
}

/// A position at which the texts of two different labels differ.
spec fn split_index(l1: Label, l2: Label) -> int {
    let (t1, t2) = (l1.spec_text(), l2.spec_text());
    if t1[0] != t2[0] {
        0
    } else if t1[1] != t2[1] {
        1
    } else if t1[5] != t2[5] {
        5
    } else {
        11
    }
}

proof fn lemma_label_not_prefix(l1: Label, l2: Label)
    requires
        l1 != l2,
        l1.spec_bytes().len() <= l2.spec_bytes().len(),
    ensures
        l2.spec_bytes().take(l1.spec_bytes().len() as int) != l1.spec_bytes(),
{
    reveal_strlit("KeyPackage");
    reveal_strlit("Psk");
    reveal_strlit("EncryptionKeyPair");
    reveal_strlit("SignatureKeyPair");
    reveal_strlit("EpochKeyPairs");
    reveal_strlit("Tree");
    reveal_strlit("GroupContext");
    reveal_strlit("InterimTranscriptHash");
    reveal_strlit("ConfirmationTag");
    reveal_strlit("OwnLeafNodeIndex");
    reveal_strlit("EpochSecrets");
    reveal_strlit("ResumptionPsk");
    reveal_strlit("MessageSecrets");
    reveal_strlit("MlsGroupJoinConfig");
    reveal_strlit("OwnLeafNodes");
    reveal_strlit("GroupState");
    reveal_strlit("QueuedProposal");
    reveal_strlit("ProposalQueueRefs");
    let i = split_index(l1, l2);
    assert(0 <= i < l1.spec_text().len());
    assert(l1.spec_text()[i] != l2.spec_text()[i]);
    assert(l1.spec_bytes()[i] != l2.spec_bytes()[i]);
}

/// Storage keys are unambiguous: two entities get the same storage key
/// exactly when they are of the same kind and have the same key. Entities
/// of different kinds never overwrite each other.
pub proof fn lemma_storage_key_unambiguous(
    l1: Label,
    k1: Seq<u8>,
    l2: Label,
    k2: Seq<u8>,
    version: u16,
)
    ensures
        (storage_key(l1.spec_bytes(), k1, version) == storage_key(l2.spec_bytes(), k2, version))
            <==> (l1 == l2 && k1 == k2),
{
    let b1 = l1.spec_bytes();
    let b2 = l2.spec_bytes();
    let s1 = storage_key(b1, k1, version);
    let s2 = storage_key(b2, k2, version);
    if s1 == s2 {
        assert(s1.take(b1.len() as int) =~= b1);
        assert(s2.take(b2.len() as int) =~= b2);
        if l1 != l2 {
            if b1.len() <= b2.len() {
                lemma_label_not_prefix(l1, l2);
                assert(s2.take(b1.len() as int) =~= b2.take(b1.len() as int));
            } else {
                lemma_label_not_prefix(l2, l1);
                assert(s1.take(b2.len() as int) =~= b1.take(b2.len() as int));
            }
        }
        assert(k1 =~= s1.subrange(b1.len() as int, s1.len() - 2));
        assert(k2 =~= s2.subrange(b2.len() as int, s2.len() - 2));
    }
}

/// The label of each kind of entity is the name of that kind: key packages
/// are stored under `KeyPackage`, signature key pairs under
/// `SignatureKeyPair`, encryption key pairs under `EncryptionKeyPair`, join
/// configurations under `MlsGroupJoinConfig`, and so on for every kind.
pub proof fn lemma_label_texts()
    ensures
        Label::KeyPackage.spec_text() == "KeyPackage"@,
        Label::Psk.spec_text() == "Psk"@,
        Label::EncryptionKeyPair.spec_text() == "EncryptionKeyPair"@,
        Label::SignatureKeyPair.spec_text() == "SignatureKeyPair"@,
        Label::EpochKeyPairs.spec_text() == "EpochKeyPairs"@,
        Label::Tree.spec_text() == "Tree"@,
        Label::GroupContext.spec_text() == "GroupContext"@,
        Label::InterimTranscriptHash.spec_text() == "InterimTranscriptHash"@,
        Label::ConfirmationTag.spec_text() == "ConfirmationTag"@,
        Label::OwnLeafNodeIndex.spec_text() == "OwnLeafNodeIndex"@,
        Label::EpochSecrets.spec_text() == "EpochSecrets"@,
        Label::ResumptionPsk.spec_text() == "ResumptionPsk"@,
        Label::MessageSecrets.spec_text() == "MessageSecrets"@,
        Label::JoinConfig.spec_text() == "MlsGroupJoinConfig"@,
        Label::OwnLeafNodes.spec_text() == "OwnLeafNodes"@,
        Label::GroupState.spec_text() == "GroupState"@,
        Label::QueuedProposal.spec_text() == "QueuedProposal"@,
        Label::ProposalQueueRefs.spec_text() == "ProposalQueueRefs"@,
{
}

/// A storage key is the label, then the entity's key, then the version as
/// two bytes, most significant first, whatever the lengths of label and key:
/// the version reads back from the last two bytes.
pub proof fn lemma_storage_key_layout(label: Seq<u8>, key: Seq<u8>, version: u16)
    ensures
        storage_key(label, key, version) == label + key + seq![
            (version / 256) as u8,
            (version % 256) as u8,
        ],
        storage_key(label, key, version).len() == label.len() + key.len() + 2,
        storage_key(label, key, version).subrange(0, label.len() as int) == label,
        storage_key(label, key, version).subrange(label.len() as int, (label.len() + key.len()) as int)
            == key,
        ({
            let s = storage_key(label, key, version);
            s[s.len() - 2] as int * 256 + s[s.len() - 1] as int == version as int
        }),
{
    let s = storage_key(label, key, version);
    assert(s =~= label + key + seq![(version / 256) as u8, (version % 256) as u8]);
    assert(s.subrange(0, label.len() as int) =~= label);
    assert(s.subrange(label.len() as int, (label.len() + key.len()) as int) =~= key);
}

} // verus!
