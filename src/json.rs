use vstd::prelude::*;

verus! {

/// What a reply from the service says of one string member: `None` when the
/// text is not JSON, `Some(None)` when the member is absent or not a string,
/// `Some(Some(s))` when it holds the string `s`.
pub uninterp spec fn json_str_field_of(text: Seq<char>, key: Seq<char>) -> Option<Option<Seq<char>>>;

/// One string member read from a JSON reply.
pub enum Field {
    /// The reply is not valid JSON.
    Malformed,
    /// The reply is JSON, but the member is absent or not a string.
    Missing,
    /// The member holds this string.
    Text(String),
}

/// The mathematical value of a [`Field`].
pub open spec fn field_view(f: Field) -> Option<Option<Seq<char>>> {
    match f {
        Field::Malformed => None,
        Field::Missing => Some(None),
        Field::Text(s) => Some(Some(s@)),
    }
}

/// Relies on serde_json (re-exported by ureq): `from_str` decodes `text` into
/// a `Value`, `Value::get` finds the object member `key`, and `Value::as_str`
/// keeps it only if it is a string. The outcome depends on the two strings alone.
#[verifier::external_body]
pub(crate) fn read_str_field(text: &str, key: &str) -> (r: Field)
    ensures
        field_view(r) == json_str_field_of(text@, key@),
{
    match ureq::serde_json::from_str::<ureq::serde_json::Value>(text) {
        Ok(v) => match v.get(key).and_then(ureq::serde_json::Value::as_str) {
            Some(s) => Field::Text(s.to_string()),
            None => Field::Missing,
        },
        Err(_) => Field::Malformed,
    }
}

} // verus!
