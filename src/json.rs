//! The two places where JSON text is produced or read, both done by
//! serde_json.
use vstd::prelude::*;

verus! {

/// The JSON string literal that serde_json writes for a string: quotes and
/// escapes included.
pub uninterp spec fn json_quoted(s: Seq<char>) -> Seq<char>;

/// The string that a JSON Pointer (RFC 6901) addresses in a JSON document:
/// `None` when the text is not a JSON document, `Some(None)` when nothing, or
/// something other than a string, stands at the pointer.
pub uninterp spec fn json_string_at(doc: Seq<char>, pointer: Seq<char>) -> Option<Option<Seq<char>>>;

/// The result of looking a string up in a JSON text.
#[derive(Debug, Clone, PartialEq, Eq)]
pub enum JsonLookup {
    /// The text is not a JSON document.
    NotJson,
    /// The document holds no string at the pointer.
    Absent,
    /// The string found.
    Found(String),
}

impl View for JsonLookup {
    type V = Option<Option<Seq<char>>>;

    open spec fn view(&self) -> Option<Option<Seq<char>>> {
        match self {
            JsonLookup::NotJson => None,
            JsonLookup::Absent => Some(None),
            JsonLookup::Found(s) => Some(Some(s@)),
        }
    }
}

/// Relies on serde_json::to_string on a `str`, which writes it as a JSON
/// string literal and cannot fail for a string.
#[verifier::external_body]
pub(crate) fn quote(s: &str) -> (r: String)
    ensures
        r@ == json_quoted(s@),
{
    serde_json::to_string(s).unwrap_or_default()
}

/// Relies on serde_json::from_str into a `serde_json::Value`, on
/// `Value::pointer` to follow the pointer, and on `Value::as_str` to read a
/// string there.
#[verifier::external_body]
pub(crate) fn string_at(doc: &str, pointer: &str) -> (r: JsonLookup)
    ensures
        r@ == json_string_at(doc@, pointer@),
{
    match serde_json::from_str::<serde_json::Value>(doc) {
        Err(_) => JsonLookup::NotJson,
        Ok(v) => match v.pointer(pointer).and_then(serde_json::Value::as_str) {
            Some(s) => JsonLookup::Found(s.to_string()),
            None => JsonLookup::Absent,
        },
    }
}

} // verus!
