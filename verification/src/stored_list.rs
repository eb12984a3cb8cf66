//! Entries that hold a list of byte strings.
//!
//! Such an entry is kept as the JSON text of an array of byte arrays.
//! Appending to an entry, or removing an item from it, reads the list out of
//! the stored text, changes it, and writes the list back as JSON; an entry
//! that was never written counts as the empty list.
use vstd::prelude::*;

use crate::error::SqliteStorageError;
use crate::json::{
    byte_lists, decode_byte_lists, empty_array_text, encode_byte_lists, json_byte_lists_decode,
    json_byte_lists_text,
};

verus! {

/// The bytes of an entry as the store returned them, if it holds one.
pub open spec fn stored_bytes(stored: Option<Vec<u8>>) -> Option<Seq<u8>> {
    match stored {
        Some(text) => Some(text@),
        None => None,
    }
}

/// The items that an entry holds: none for an absent entry, and for a
/// present one the list that its text decodes to (`None` where it does not
/// decode).
pub open spec fn list_items(stored: Option<Seq<u8>>) -> Option<Seq<Seq<u8>>> {
    match stored {
        Some(text) => json_byte_lists_decode(text),
        None => Some(Seq::empty()),
    }
}

/// Whether two byte strings are equal.
pub fn same_bytes(a: &[u8], b: &[u8]) -> (r: bool)
    ensures
        r == (a@ == b@),
{
    if a.len() != b.len() {
        return false;
    }
    let mut i: usize = 0;
    while i < a.len()
        invariant
            a@.len() == b@.len(),
            i <= a@.len(),
            forall|j: int| 0 <= j < i ==> a@[j] == b@[j],
        decreases a@.len() - i,
    {
        if a[i] != b[i] {
            return false;
        }
        i += 1;
    }
    assert(a@ =~= b@);
    true
}

/// Removes the first item of `list` that equals `value`; the list is left
/// as it is where no item does.
pub fn remove_first(list: &mut Vec<Vec<u8>>, value: &[u8])
    ensures
        byte_lists(final(list)@) == byte_lists(old(list)@).remove_value(value@),
{
    let ghost items = byte_lists(list@);
    let n = list.len();
    let mut i: usize = 0;
    while i < n
        invariant
            n == list@.len(),
            i <= n,
            list@ == old(list)@,
            items == byte_lists(list@),
            forall|j: int| 0 <= j < i ==> items[j] != value@,
        decreases n - i,
    {
        if same_bytes(list[i].as_slice(), value) {
            proof {
                assert(items[i as int] == value@);
                items.index_of_first_ensures(value@);
                let k = items.index_of_first(value@).unwrap();
                assert(k == i) by {
                    if k < i {
                        assert(items[k] != value@);
                    }
                    if k > i {
                        assert(items[i as int] != value@);
                    }
                }
            }
            list.remove(i);
            proof {
                assert(byte_lists(list@) =~= items.remove(i as int));
            }
            return;
        }
        i += 1;
    }
    proof {
        items.index_of_first_ensures(value@);
        assert(!items.contains(value@)) by {
            if items.contains(value@) {
                let j = choose|j: int| 0 <= j < items.len() && items[j] == value@;
                assert(items[j] != value@);
            }
        }
    }
}

/// Reads the items that an entry holds: `Some` of its list, where the
/// entry is absent or its text decodes, `None` where it does not decode.
pub fn read_list(stored: Option<Vec<u8>>) -> (r: Option<Vec<Vec<u8>>>)
    ensures
        match list_items(stored_bytes(stored)) {
            Some(items) => r matches Some(list) && byte_lists(list@) == items,
            None => r is None,
        },
{
    match stored {
        Some(text) => match decode_byte_lists(text.as_slice()) {
            Ok(list) => Some(list),
            Err(_) => None,
        },
        None => {
            let list: Vec<Vec<u8>> = Vec::new();
            assert(byte_lists(list@) =~= Seq::<Seq<u8>>::empty());
            Some(list)
        },
    }
}

/// Reads the list that an entry holds, where an absent entry holds the
/// empty list; fails with a serialization error where the text does not
/// decode.
fn stored_list(stored: &Option<Vec<u8>>) -> (r: Result<Vec<Vec<u8>>, SqliteStorageError>)
    ensures
        match list_items(stored_bytes(*stored)) {
            Some(items) => r matches Ok(list) && byte_lists(list@) == items,
            None => r == Err::<Vec<Vec<u8>>, SqliteStorageError>(
                SqliteStorageError::SerializationError,
            ),
        },
{
    let decoded = match stored {
        Some(text) => decode_byte_lists(text.as_slice()),
        None => {
            let empty = vec![0x5bu8, 0x5du8];
            assert(empty@ =~= empty_array_text());
            let decoded = decode_byte_lists(empty.as_slice());
            assert(decoded matches Ok(list) && byte_lists(list@) =~= Seq::<Seq<u8>>::empty());
            decoded
        },
    };
    match decoded {
        Ok(list) => Ok(list),
        Err(e) => Err(SqliteStorageError::from(e)),
    }
}

/// The text written for a list: the JSON text that serde_json writes for
/// it, which for the empty list is `[]`.
pub open spec fn list_text(items: Seq<Seq<u8>>) -> Seq<u8> {
    if items.len() == 0 {
        empty_array_text()
    } else {
        json_byte_lists_text(items)
    }
}

/// The text that `remove_item` writes for an entry, given the entry's
/// current text: the list it holds without the first item equal to `value`
/// (`None` where the text does not decode).
pub open spec fn text_after_removal(stored: Option<Seq<u8>>, value: Seq<u8>) -> Option<Seq<u8>> {
    match list_items(stored) {
        Some(items) => Some(list_text(items.remove_value(value))),
        None => None,
    }
}

/// Writes `list` back as the text of an entry.
fn store_list(list: &Vec<Vec<u8>>) -> (r: Result<Vec<u8>, SqliteStorageError>)
    ensures
        r matches Ok(t) && t@ == list_text(byte_lists(list@)) && json_byte_lists_decode(t@)
            == Some(byte_lists(list@)),
{
    match encode_byte_lists(list) {
        Ok(text) => Ok(text),
        Err(e) => Err(SqliteStorageError::from(e)),
    }
}

/// The new text of an entry after `value` is appended to the list that it
/// holds, given the entry's current text (`None` where it is absent).
///
/// Reading the new text back gives the old list with `value` at its end;
/// where the old list did not hold `value`, removing it again from the new
/// text writes the text of the old list (`[]` for an entry that was absent).
pub fn append(stored: Option<Vec<u8>>, value: Vec<u8>) -> (r: Result<Vec<u8>, SqliteStorageError>)
    ensures
        match list_items(stored_bytes(stored)) {
            None => r == Err::<Vec<u8>, SqliteStorageError>(SqliteStorageError::SerializationError),
            Some(items) => r matches Ok(t) && {
                &&& t@ == list_text(items.push(value@))
                &&& list_items(Some(t@)) == Some(items.push(value@))
                &&& !items.contains(value@) ==> text_after_removal(Some(t@), value@) == Some(
                    list_text(items),
                )
            },
        },
{
    let mut list = stored_list(&stored)?;
    let ghost items = byte_lists(list@);
    list.push(value);
    assert(byte_lists(list@) =~= items.push(value@));
    proof {
        if !items.contains(value@) {
            lemma_remove_undoes_append(items, value@);
        }
    }
    store_list(&list)
}

/// The new text of an entry after the first item equal to `value` is
/// removed from the list that it holds, given the entry's current text
/// (`None` where it is absent). Where no item equals `value`, the list is
/// written back unchanged.
pub fn remove_item(stored: Option<Vec<u8>>, value: Vec<u8>) -> (r: Result<
    Vec<u8>,
    SqliteStorageError,
>)
    ensures
        match list_items(stored_bytes(stored)) {
            None => r == Err::<Vec<u8>, SqliteStorageError>(SqliteStorageError::SerializationError),
            Some(items) => r matches Ok(t) && {
                &&& Some(t@) == text_after_removal(stored_bytes(stored), value@)
                &&& t@ == list_text(items.remove_value(value@))
                &&& list_items(Some(t@)) == Some(items.remove_value(value@))
            },
        },
{
    let mut list = stored_list(&stored)?;
    remove_first(&mut list, value.as_slice());
    store_list(&list)
}

/// Removing an item just appended to a list that did not hold it gives the
/// list back as it was: `remove_item` undoes `append` of a new item.
pub proof fn lemma_remove_undoes_append(items: Seq<Seq<u8>>, value: Seq<u8>)
    requires
        !items.contains(value),
    ensures
        items.push(value).remove_value(value) == items,
{
    let grown = items.push(value);
    grown.index_of_first_ensures(value);
    assert(grown[items.len() as int] == value);
    let k = grown.index_of_first(value).unwrap();
    assert(k == items.len()) by {
        if k < items.len() {
            assert(items[k] == value);
        }
    }
    assert(grown.remove(k) =~= items);
}

/// Removing an item takes out exactly one copy of it where the list holds
/// it, and leaves the list as it is where the list does not hold it.
pub proof fn lemma_remove_takes_one_copy(items: Seq<Seq<u8>>, value: Seq<u8>)
    ensures
        items.contains(value) ==> {
            &&& items.remove_value(value).len() == items.len() - 1
            &&& items.remove_value(value).to_multiset() == items.to_multiset().remove(value)
        },
        !items.contains(value) ==> items.remove_value(value) == items,
{
    items.index_of_first_ensures(value);
    if items.contains(value) {
        let i = items.index_of_first(value).unwrap();
        vstd::seq_lib::to_multiset_remove(items, i);
        items.remove_ensures(i);
    }
}

} // verus!
