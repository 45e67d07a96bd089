use vstd::prelude::*;

verus! {

/// What serde_json finds under `key` in the JSON text `doc`: `None` when the
/// text does not parse, `Some(None)` when the value is not an object holding a
/// string there, `Some(Some(t))` with that string otherwise.
pub uninterp spec fn json_str_field(doc: Seq<char>, key: Seq<char>) -> Option<Option<Seq<char>>>;

/// A decoded field with its text as characters.
pub open spec fn view_decoded(d: Option<Option<String>>) -> Option<Option<Seq<char>>> {
    match d {
        None => None,
        Some(None) => Some(None),
        Some(Some(t)) => Some(Some(t@)),
    }
}

/// Relies on serde_json::from_str into a `Value`, then `Value::get` and
/// `Value::as_str`, to read one string field of a JSON document.
#[verifier::external_body]
fn str_field(doc: &str, key: &str) -> (r: Option<Option<String>>)
    ensures
        view_decoded(r) == json_str_field(doc@, key@),
{
    match serde_json::from_str::<serde_json::Value>(doc) {
        Ok(v) => Some(v.get(key).and_then(serde_json::Value::as_str).map(String::from)),
        Err(_) => None,
    }
}

/// The text that a chat stream item carries under its "message" field.
pub fn message_text(payload: &str) -> (r: Option<Option<String>>)
    ensures
        view_decoded(r) == json_str_field(payload@, "message"@),
{
    str_field(payload, "message")
}

} // verus!
