//! Reading the lyrics field out of a lookup response body.

use vstd::prelude::*;

verus! {

/// What the lyrics extraction yields for a response body: the text of the
/// body's `lyrics` string field, absent when the body is not well-formed
/// JSON or carries no such field. JSON parsing is deterministic, so this
/// is a function of the body characters alone.
pub uninterp spec fn lyrics_of(s: Seq<char>) -> Option<Seq<char>>;

/// Relies on `serde_json::from_str::<Value>` with `Value::get` and
/// `Value::as_str`: parses the body and reads the `lyrics` field, which
/// succeeds exactly when the body is well-formed JSON whose `lyrics`
/// field is a string; the outcome depends on the body text alone.
#[verifier::external_body]
fn extract_lyrics_field(body: &str) -> (r: Option<String>)
    ensures
        r.deep_view() == lyrics_of(body@),
{
    match serde_json::from_str::<serde_json::Value>(body) {
        Ok(v) => match v.get("lyrics") {
            Some(l) => match l.as_str() {
                Some(s) => Some(s.to_string()),
                None => None,
            },
            None => None,
        },
        Err(_) => None,
    }
}

/// The lyrics text carried in a lookup response body, if any: a lookup
/// attempt counts as a success exactly when this is present.
pub fn lyrics_from_body(body: &str) -> (r: Option<String>)
    ensures
        r.deep_view() == lyrics_of(body@),
{
    extract_lyrics_field(body)
}

} // verus!
