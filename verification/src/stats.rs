//! Heap-statistics marshaling.
//!
//! The engine collaborator reports heap statistics as a mapping from text
//! keys to non-negative integers.  The boundary serializes that mapping
//! to JSON — serialization is supplied externally, by `serde_json` — and
//! returns it as an owned buffer.
use vstd::prelude::*;

use crate::buffer::make_buffer;
use crate::buffer::OwnedBuf;

verus! {

/// The JSON text `serde_json` produces for a mapping of text keys to
/// integers.  The serializer orders the keys, so the text is a function
/// of the mapping alone; what it looks like stays with the serializer.
pub uninterp spec fn json_of_stats(stats: Map<Seq<char>, u64>) -> Seq<char>;

/// The mapping a sequence of key-value entries builds up, a later entry
/// overriding an earlier one with the same key.
pub open spec fn entries_model(entries: Seq<(String, u64)>) -> Map<Seq<char>, u64>
    decreases entries.len(),
{
    if entries.len() == 0 {
        Map::empty()
    } else {
        entries_model(entries.drop_last()).insert(entries.last().0@, entries.last().1)
    }
}

/// Relies on `serde_json::to_string` applied to a `serde_json::Map`
/// holding the entries.  The map keeps its keys ordered, so the JSON
/// text depends on the key-value mapping alone; serializing string keys
/// and integer values into an in-memory buffer cannot fail; and the
/// serializer escapes every control character, so the text never
/// carries a raw NUL, whatever the keys hold.
#[verifier::external_body]
fn stats_to_json(entries: &Vec<(String, u64)>) -> (r: Option<String>)
    ensures
        r is Some,
        r matches Some(s) ==> s@ == json_of_stats(entries_model(entries@)) && !s@.contains('\0'),
{
    let mut map = serde_json::Map::new();
    for (key, value) in entries.iter() {
        map.insert(key.clone(), serde_json::Value::from(*value));
    }
    serde_json::to_string(&map).ok()
}

/// Completes the heap-statistics operation once the engine has answered.
/// An engine failure collapses to the null sentinel; reported statistics
/// always come back as an owned buffer holding exactly their JSON
/// serialization — the serializer never fails on this input and its
/// escaping keeps the text free of interior NUL, so nothing stops the
/// buffer.
pub fn heap_statistics_finish(stats: Option<Vec<(String, u64)>>) -> (r: Option<OwnedBuf>)
    ensures
        r is Some <==> stats is Some,
        r matches Some(b) ==> (stats matches Some(entries) && b@ == json_of_stats(
            entries_model(entries@),
        ) && b.wf()),
{
    match stats {
        None => None,
        Some(entries) => {
            match stats_to_json(&entries) {
                None => None,
                Some(json) => make_buffer(json),
            }
        },
    }
}

} // verus!
