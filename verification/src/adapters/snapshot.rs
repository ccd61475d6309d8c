//! The snapshot of resolved subjects: every mapping from schema identifier
//! to subject that a cache has made durable, in the order it was made.

use crate::text::opt_text;
use vstd::prelude::*;

verus! {

/// One resolved schema identifier: its subject, or none where the registry
/// knows no subject for it.
pub type SubjectEntry = (u32, Option<String>);

pub open spec fn entry_view(entry: SubjectEntry) -> (u32, Option<Seq<char>>) {
    (entry.0, opt_text(entry.1))
}

pub open spec fn entries_view(entries: Seq<SubjectEntry>) -> Seq<(u32, Option<Seq<char>>)> {
    entries.map_values(|entry: SubjectEntry| entry_view(entry))
}

/// The map that a snapshot stands for: each identifier with the subject of
/// its last entry.
pub open spec fn replay(entries: Seq<(u32, Option<Seq<char>>)>) -> Map<u32, Option<Seq<char>>>
    decreases entries.len(),
{
    if entries.len() == 0 {
        Map::empty()
    } else {
        replay(entries.drop_last()).insert(entries.last().0, entries.last().1)
    }
}

/// The bytes of a snapshot, or none where it cannot be encoded.
pub uninterp spec fn snapshot_encoding(entries: Seq<(u32, Option<Seq<char>>)>) -> Option<Seq<u8>>;

/// The snapshot that a byte string holds, or none where it holds none.
pub uninterp spec fn snapshot_decoding(bytes: Seq<u8>) -> Option<Seq<(u32, Option<Seq<char>>)>>;

/// What an optional byte string holds.
pub open spec fn opt_bytes(value: Option<Vec<u8>>) -> Option<Seq<u8>> {
    match value {
        Some(bytes) => Some(bytes@),
        None => None,
    }
}

pub open spec fn opt_entries(value: Option<Vec<SubjectEntry>>) -> Option<
    Seq<(u32, Option<Seq<char>>)>,
> {
    match value {
        Some(entries) => Some(entries_view(entries@)),
        None => None,
    }
}

/// Calls `bincode::serialize` on the list of entries. It writes the list in
/// bincode's fixed-width little-endian layout and fails only where bincode
/// reports an error. The contract gives the outcome the name
/// [`snapshot_encoding`], and claims of it what bincode is made for: the
/// bytes that it writes are read back by `bincode::deserialize` as the same
/// list.
#[verifier::external_body]
pub(crate) fn encode_snapshot(entries: &Vec<SubjectEntry>) -> (out: Option<Vec<u8>>)
    ensures
        opt_bytes(out) == snapshot_encoding(entries_view(entries@)),
        out matches Some(bytes) ==> snapshot_decoding(bytes@) == Some(entries_view(entries@)),
{
    bincode::serialize(entries).ok()
}

/// Calls `bincode::deserialize` for a list of entries on a byte string. It
/// reads the layout that `bincode::serialize` writes, ignores bytes behind
/// the list, and fails on anything else. The contract gives the outcome the
/// name [`snapshot_decoding`] and claims nothing else of it.
#[verifier::external_body]
pub(crate) fn decode_snapshot(bytes: &[u8]) -> (out: Option<Vec<SubjectEntry>>)
    ensures
        opt_entries(out) == snapshot_decoding(bytes@),
{
    bincode::deserialize::<Vec<SubjectEntry>>(bytes).ok()
}

/// Replaying a snapshot with one more entry maps that entry's identifier to
/// that entry's subject and leaves every other identifier as it was.
pub proof fn lemma_replay_push(
    entries: Seq<(u32, Option<Seq<char>>)>,
    schema_id: u32,
    subject: Option<Seq<char>>,
)
    ensures
        replay(entries.push((schema_id, subject))) == replay(entries).insert(schema_id, subject),
{
    let longer = entries.push((schema_id, subject));
    assert(longer.drop_last() =~= entries);
}

} // verus!
