//! Single values read out of JSON texts.

use serde_json::Value;
use vstd::prelude::*;

verus! {

/// A value found in a JSON text. `S` holds text.
#[derive(Debug, PartialEq, Eq)]
pub enum JsonLeaf<S> {
    /// A string.
    Text(S),
    /// A whole number that is not negative and fits.
    Unsigned(u64),
    /// Anything else.
    Other,
}

pub open spec fn leaf_view(leaf: Option<JsonLeaf<String>>) -> Option<JsonLeaf<Seq<char>>> {
    match leaf {
        Some(JsonLeaf::Text(s)) => Some(JsonLeaf::Text(s@)),
        Some(JsonLeaf::Unsigned(n)) => Some(JsonLeaf::Unsigned(n)),
        Some(JsonLeaf::Other) => Some(JsonLeaf::Other),
        None => None,
    }
}

/// What a JSON text holds at a pointer such as `/audio/sample_rate`; nothing
/// where it holds nothing there or is no JSON at all.
pub uninterp spec fn json_at(text: Seq<char>, pointer: Seq<char>) -> Option<JsonLeaf<Seq<char>>>;

/// `serde_json::from_str` and, on the value it gives, `serde_json::Value::pointer`.
/// The result depends on the text and the pointer alone; what JSON is, and how a
/// pointer is followed, is not stated, only named.
#[verifier::external_body]
pub(crate) fn read_json(text: &str, pointer: &str) -> (leaf: Option<JsonLeaf<String>>)
    ensures
        leaf_view(leaf) == json_at(text@, pointer@),
{
    let value: Value = serde_json::from_str(text).ok()?;
    match value.pointer(pointer)? {
        Value::String(s) => Some(JsonLeaf::Text(s.clone())),
        Value::Number(n) => n.as_u64().map(JsonLeaf::Unsigned).or(Some(JsonLeaf::Other)),
        _ => Some(JsonLeaf::Other),
    }
}

} // verus!
