//! The store's byte form of a session: a JSON object of string values.
use vstd::prelude::*;

use crate::state::{keys_unique, map_of, SessionState};

verus! {

/// The bytes that serde_json writes for a string-to-string map, or `None`
/// where it reports an error.
pub uninterp spec fn json_encoded(m: Map<Seq<char>, Seq<char>>) -> Option<Seq<u8>>;

/// The string-to-string map that serde_json reads from `b`, or `None` where
/// `b` is not a JSON object of strings.
pub uninterp spec fn json_decoded(b: Seq<u8>) -> Option<Map<Seq<char>, Seq<char>>>;

/// Relies on serde_json::to_vec over a map ordered by key: the output depends on
/// the map alone, and serde_json::from_slice reads it back as the same map.
#[verifier::external_body]
fn to_json(entries: &Vec<(String, String)>) -> (r: Option<Vec<u8>>)
    requires
        keys_unique(entries@),
    ensures
        match r {
            Some(b) => json_encoded(map_of(entries@)) == Some(b@)
                && json_decoded(b@) == Some(map_of(entries@)),
            None => json_encoded(map_of(entries@)) is None,
        },
{
    let map: std::collections::BTreeMap<&String, &String> = entries.iter().map(|e| (&e.0, &e.1)).collect();
    serde_json::to_vec(&map).ok()
}

/// Relies on serde_json::from_slice into a map: each key of the object once,
/// with its string value.
#[verifier::external_body]
fn from_json(bytes: &[u8]) -> (r: Option<Vec<(String, String)>>)
    ensures
        match r {
            Some(e) => keys_unique(e@) && json_decoded(bytes@) == Some(map_of(e@)),
            None => json_decoded(bytes@) is None,
        },
{
    serde_json::from_slice::<std::collections::HashMap<String, String>>(bytes).ok().map(|m| m.into_iter().collect())
}

/// Serializes a session for the store. Whatever bytes come out decode back to
/// the same map.
pub fn encode_state(state: &SessionState) -> (r: Option<Vec<u8>>)
    requires
        state.wf(),
    ensures
        match r {
            Some(b) => json_encoded(state@) == Some(b@) && json_decoded(b@) == Some(state@),
            None => json_encoded(state@) is None,
        },
{
    to_json(state.entries())
}

/// Reads a session from the store's bytes; `None` where they are malformed.
pub fn decode_state(bytes: &[u8]) -> (r: Option<SessionState>)
    ensures
        match r {
            Some(s) => s.wf() && json_decoded(bytes@) == Some(s@),
            None => json_decoded(bytes@) is None,
        },
{
    match from_json(bytes) {
        Some(entries) => Some(SessionState::from_unique_entries(entries)),
        None => None,
    }
}

} // verus!
