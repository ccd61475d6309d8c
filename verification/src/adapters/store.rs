//! The keyed store: one entry per schema identifier, its key derived from
//! the identifier, its value the subject's name as UTF-8.

use crate::text::{decimal, decimal_text};
use vstd::prelude::*;
use vstd::string::*;
use vstd::utf8::*;

verus! {

/// The key under which the subject of `schema_id` is stored.
pub open spec fn store_key(schema_id: u32) -> Seq<char> {
    "subject_name_"@ + decimal(schema_id as nat)
}

/// Builds the key under which the subject of `schema_id` is stored.
pub fn subject_key(schema_id: u32) -> (out: String)
    ensures
        out@ == store_key(schema_id),
{
    let mut out = String::from_str("subject_name_");
    out.append(decimal_text(schema_id).as_str());
    out
}

/// The text that a stored value holds, or none where it is not UTF-8.
pub open spec fn stored_text(value: Seq<u8>) -> Option<Seq<char>> {
    if valid_utf8(value) {
        Some(decode_utf8(value))
    } else {
        None
    }
}

/// Calls `String::from_utf8`, which gives the text that the bytes encode
/// where they are valid UTF-8 and an error where they are not.
#[verifier::external_body]
pub(crate) fn text_of_bytes(value: Vec<u8>) -> (out: Option<String>)
    ensures
        crate::text::opt_text(out) == stored_text(value@),
{
    String::from_utf8(value).ok()
}

/// The bytes stored for a subject.
pub fn bytes_of_text(text: &str) -> (out: Vec<u8>)
    ensures
        out@ == encode_utf8(text@),
{
    text.as_bytes_vec()
}

/// A stored subject reads back as it was written.
pub proof fn lemma_stored_text_reads_back(text: Seq<char>)
    ensures
        stored_text(encode_utf8(text)) == Some(text),
{
    encode_utf8_valid_utf8(text);
    encode_utf8_decode_utf8(text);
}

} // verus!
