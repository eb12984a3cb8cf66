//! The JSON encodings that the store relies on, obtained from `serde_json`.
//!
//! What `serde_json` produces for a list of byte strings is not written out
//! here: it is named, and only the short facts that callers need are stated
//! beside the names.
use vstd::prelude::*;

verus! {

/// The plain view of a list of byte vectors.
pub open spec fn byte_lists(items: Seq<Vec<u8>>) -> Seq<Seq<u8>> {
    items.map_values(|item: Vec<u8>| item@)
}

/// The list of byte strings that `serde_json::from_slice::<Vec<Vec<u8>>>`
/// reads from `text`, or `None` where it reports an error.
pub uninterp spec fn json_byte_lists_decode(text: Seq<u8>) -> Option<Seq<Seq<u8>>>;

/// The text that `serde_json::to_vec::<Vec<Vec<u8>>>` writes for `items`.
pub uninterp spec fn json_byte_lists_text(items: Seq<Seq<u8>>) -> Seq<u8>;

/// The JSON array with no elements, `[]`.
pub open spec fn empty_array_text() -> Seq<u8> {
    seq![0x5bu8, 0x5du8]
}

/// The decimal digits of `n` in ASCII, most significant first, with no
/// leading zero (a single `0` for zero).
pub open spec fn decimal_text(n: nat) -> Seq<u8>
    decreases n,
{
    if n < 10 {
        seq![(0x30 + n) as u8]
    } else {
        decimal_text(n / 10).push((0x30 + n % 10) as u8)
    }
}

/// Calls `serde_json::from_slice::<Vec<Vec<u8>>>`.
///
/// Claimed: the result is the one named by `json_byte_lists_decode`, and the
/// text `[]` reads as the empty list.
#[verifier::external_body]
pub(crate) fn decode_byte_lists(text: &[u8]) -> (r: Result<Vec<Vec<u8>>, serde_json::Error>)
    ensures
        match r {
            Ok(items) => {
                &&& json_byte_lists_decode(text@) == Some(byte_lists(items@))
                &&& text@ == empty_array_text() ==> items@.len() == 0
            },
            Err(_) => {
                &&& json_byte_lists_decode(text@) is None
                &&& text@ != empty_array_text()
            },
        },
{
    serde_json::from_slice(text)
}

/// Calls `serde_json::to_vec::<Vec<Vec<u8>>>`.
///
/// Claimed: the call succeeds (serde_json fails to serialize only where a
/// `Serialize` impl fails or a map has keys that are not strings, and a list
/// of byte lists has neither); the text is the one named by
/// `json_byte_lists_text`; the empty list is written as `[]`; and reading the
/// text back with `serde_json::from_slice` gives the same list.
#[verifier::external_body]
pub(crate) fn encode_byte_lists(items: &Vec<Vec<u8>>) -> (r: Result<Vec<u8>, serde_json::Error>)
    ensures
        r is Ok,
        match r {
            Ok(text) => {
                &&& text@ == json_byte_lists_text(byte_lists(items@))
                &&& json_byte_lists_decode(text@) == Some(byte_lists(items@))
                &&& items@.len() == 0 ==> text@ == empty_array_text()
            },
            Err(_) => true,
        },
{
    serde_json::to_vec(items)
}

/// Calls `serde_json::to_vec::<u32>`.
///
/// Claimed: the call succeeds (a number always serializes) and writes the
/// decimal notation of the number.
#[verifier::external_body]
pub(crate) fn encode_u32(value: u32) -> (r: Result<Vec<u8>, serde_json::Error>)
    ensures
        r is Ok,
        match r {
            Ok(text) => text@ == decimal_text(value as nat),
            Err(_) => true,
        },
{
    serde_json::to_vec(&value)
}

} // verus!
