//! The JSON document model: an opaque parsed value, described by the
//! string members that can be reached in it along a path of object keys.

use vstd::prelude::*;

verus! {

/// `serde_json::Value`, a parsed JSON value. Nothing of its inside is
/// visible to proofs; `json_strings` says what it holds.
#[verifier::external_type_specification]
#[verifier::external_body]
pub struct ExValue(serde_json::Value);

/// `serde_json::Error`, the parser's error. It is only carried through
/// and rendered.
#[verifier::external_type_specification]
#[verifier::external_body]
pub struct ExError(serde_json::Error);

/// A path of object keys, outermost first.
pub type Path = Seq<Seq<char>>;

/// The strings held in a JSON value: `p` maps to `s` exactly when following
/// the object keys of `p` from the value, one after another, ends at the
/// JSON string `s`. The empty path stands for the value itself.
pub uninterp spec fn json_strings(v: serde_json::Value) -> Map<Seq<Seq<char>>, Seq<char>>;

/// The strings of the document that a byte sequence parses to, or `None`
/// where the bytes are not one well-formed JSON text.
pub uninterp spec fn json_document(bytes: Seq<u8>) -> Option<Map<Seq<Seq<char>>, Seq<char>>>;

/// The part of `m` that lies below the object key `key`.
pub open spec fn strings_under(m: Map<Path, Seq<char>>, key: Seq<char>) -> Map<Path, Seq<char>> {
    Map::new(|p: Path| m.contains_key(seq![key] + p), |p: Path| m[seq![key] + p])
}

/// The strings of an object whose one member, `key`, is the string `value`.
pub open spec fn single_string(key: Seq<char>, value: Seq<char>) -> Map<Path, Seq<char>> {
    Map::<Path, Seq<char>>::empty().insert(seq![key], value)
}

/// The string found in `m` at `path`, if there is one.
pub open spec fn text_in(m: Map<Path, Seq<char>>, path: Path) -> Option<Seq<char>> {
    if m.contains_key(path) {
        Some(m[path])
    } else {
        None
    }
}

/// Calls `serde_json::from_slice` for a `Value`. Parsing depends on the
/// bytes alone: it fails exactly on the byte sequences that `json_document`
/// maps to `None`, and otherwise yields a value holding the document's
/// strings.
#[verifier::external_body]
pub(crate) fn parse_json(bytes: &[u8]) -> (r: Result<serde_json::Value, serde_json::Error>)
    ensures
        match r {
            Ok(v) => json_document(bytes@) == Some(json_strings(v)),
            Err(_) => json_document(bytes@) is None,
        },
{
    serde_json::from_slice::<serde_json::Value>(bytes)
}

/// Indexes a `Value` by an object key (`Index<&str>`). The result is the
/// member stored under `key`, or JSON null where the value is no object or
/// has no such member; nothing is reachable from null. So the strings of
/// the result are those that the value holds below `key`.
#[verifier::external_body]
pub(crate) fn member<'a>(v: &'a serde_json::Value, key: &str) -> (r: &'a serde_json::Value)
    ensures
        json_strings(*r) == strings_under(json_strings(*v), key@),
{
    &v[key]
}

/// Calls `Value::as_str`: the text of a JSON string, `None` for any other
/// kind of value.
#[verifier::external_body]
pub(crate) fn as_text<'a>(v: &'a serde_json::Value) -> (r: Option<&'a str>)
    ensures
        match r {
            Some(s) => text_in(json_strings(*v), Seq::empty()) == Some(s@),
            None => text_in(json_strings(*v), Seq::empty()) is None,
        },
{
    v.as_str()
}

/// Collects one key-value pair into a `Value` (`FromIterator<(K, V)>` for
/// `Value`): the result is the JSON object with the one member `key`, a
/// JSON string with the text `value`. The only string to be reached in it
/// is `value`, under `key`.
#[verifier::external_body]
pub(crate) fn string_object(key: &str, value: &str) -> (r: serde_json::Value)
    ensures
        json_strings(r) == single_string(key@, value@),
{
    [(key, value)].into_iter().collect::<serde_json::Value>()
}

/// Renders a `serde_json::Error` with its `Display` impl. Nothing is
/// claimed of the text.
#[verifier::external_body]
pub(crate) fn error_text(e: &serde_json::Error) -> (r: String)
{
    format!("{}", e)
}

} // verus!
