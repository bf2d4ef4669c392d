use vstd::prelude::*;

verus! {

/// A JSON document as this library reads and writes it.
pub enum JsonValue {
    Null,
    Bool(bool),
    /// A number that is an unsigned 64-bit integer.
    Number(u64),
    /// Any other number (negative or fractional); its value plays no part here.
    OtherNumber,
    Text(String),
    Array(Vec<JsonValue>),
    /// The members of an object, in document order.
    Object(Vec<(String, JsonValue)>),
}

/// The document that the JSON text `text` parses to, if it is JSON at all.
pub uninterp spec fn document_of(text: Seq<char>) -> Option<JsonValue>;

/// The pretty-printed JSON text of a document.
pub uninterp spec fn pretty_text_of(doc: JsonValue) -> Seq<char>;

/// Relies on `serde_json::from_str` into `serde_json::Value`: parsing depends on
/// the text alone, and gives an error, not a panic, on text it cannot read (text
/// that is not one JSON document, or one nested past the parser's depth limit).
#[verifier::external_body]
pub(crate) fn parse_document(text: &str) -> (r: Option<JsonValue>)
    ensures
        r == document_of(text@),
{
    serde_json::from_str::<serde_json::Value>(text).ok().map(|v| from_outside(&v))
}

/// Relies on the shape of `serde_json::Value`: each variant becomes the
/// matching variant here, members keep their order.
#[verifier::external_body]
fn from_outside(v: &serde_json::Value) -> JsonValue {
    match v {
        serde_json::Value::Null => JsonValue::Null,
        serde_json::Value::Bool(b) => JsonValue::Bool(*b),
        serde_json::Value::Number(n) => n.as_u64().map_or(JsonValue::OtherNumber, JsonValue::Number),
        serde_json::Value::String(s) => JsonValue::Text(s.clone()),
        serde_json::Value::Array(a) => JsonValue::Array(a.iter().map(from_outside).collect()),
        serde_json::Value::Object(m) => JsonValue::Object(
            m.iter().map(|(k, x)| (k.clone(), from_outside(x))).collect(),
        ),
    }
}

/// Relies on `serde_json::to_string_pretty` of a `serde_json::Value`: the text
/// depends on the document alone, and writing it cannot fail, since a `Value`
/// has only string keys and the text is written into memory.
#[verifier::external_body]
pub(crate) fn render_document(doc: &JsonValue) -> (r: Option<String>)
    ensures
        r is Some,
        r matches Some(s) ==> s@ == pretty_text_of(*doc),
{
    serde_json::to_string_pretty(&to_outside(doc)).ok()
}

/// Relies on the shape of `serde_json::Value`: each variant here becomes the
/// matching variant there, members keep their order.
#[verifier::external_body]
fn to_outside(doc: &JsonValue) -> serde_json::Value {
    match doc {
        JsonValue::Null | JsonValue::OtherNumber => serde_json::Value::Null,
        JsonValue::Bool(b) => serde_json::Value::Bool(*b),
        JsonValue::Number(n) => serde_json::Value::from(*n),
        JsonValue::Text(s) => serde_json::Value::String(s.clone()),
        JsonValue::Array(a) => serde_json::Value::Array(a.iter().map(to_outside).collect()),
        JsonValue::Object(m) => serde_json::Value::Object(
            m.iter().map(|(k, x)| (k.clone(), to_outside(x))).collect(),
        ),
    }
}

#[verifier::external_type_specification]
#[verifier::external_body]
pub struct ExValue(serde_json::Value);

/// The value of the first member named `key` at index `i` or later.
pub open spec fn member_from(entries: Seq<(String, JsonValue)>, key: Seq<char>, i: int) -> Option<
    JsonValue,
>
    decreases entries.len() - i,
{
    if i < 0 || i >= entries.len() {
        None
    } else if entries[i].0@ == key {
        Some(entries[i].1)
    } else {
        member_from(entries, key, i + 1)
    }
}

/// The value of the first member named `key`.
pub open spec fn member(entries: Seq<(String, JsonValue)>, key: Seq<char>) -> Option<JsonValue> {
    member_from(entries, key, 0)
}

/// The member `key` of `doc`, where `doc` is an object.
pub open spec fn field(doc: JsonValue, key: Seq<char>) -> Option<JsonValue> {
    match doc {
        JsonValue::Object(entries) => member(entries@, key),
        _ => None,
    }
}

/// Looks up the first member named `key` of an object.
pub fn find_member<'a>(entries: &'a Vec<(String, JsonValue)>, key: &String) -> (r: Option<
    &'a JsonValue,
>)
    ensures
        r matches Some(x) ==> member(entries@, key@) == Some(*x),
        r is None ==> member(entries@, key@) is None,
{
    let mut i: usize = 0;
    while i < entries.len()
        invariant
            i <= entries@.len(),
            member(entries@, key@) == member_from(entries@, key@, i as int),
        decreases entries@.len() - i,
    {
        if entries[i].0 == *key {
            return Some(&entries[i].1);
        }
        i = i + 1;
    }
    None
}

/// Looks up the member `key` of `doc`, where `doc` is an object.
pub fn get_field<'a>(doc: &'a JsonValue, key: &String) -> (r: Option<&'a JsonValue>)
    ensures
        r matches Some(x) ==> field(*doc, key@) == Some(*x),
        r is None ==> field(*doc, key@) is None,
{
    match doc {
        JsonValue::Object(entries) => find_member(entries, key),
        _ => None,
    }
}

} // verus!
