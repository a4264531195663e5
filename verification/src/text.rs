//! What the standard library and the JSON parser compute for the library:
//! calls whose contracts are taken on trust.

use vstd::prelude::*;

verus! {

/// The text that lossy UTF-8 decoding makes of a byte sequence.
pub uninterp spec fn utf8_lossy(bytes: Seq<u8>) -> Seq<char>;

/// The text without its leading and trailing white space.
pub uninterp spec fn trimmed(text: Seq<char>) -> Seq<char>;

/// Calls `String::from_utf8_lossy`. Trusted: the result is the lossy
/// decoding of exactly the given bytes, and depends on nothing else.
#[verifier::external_body]
pub(crate) fn decode_lossy(bytes: &[u8]) -> (text: String)
    ensures
        text@ == utf8_lossy(bytes@),
{
    String::from_utf8_lossy(bytes).into_owned()
}

/// Calls `str::trim`. Trusted: the result is the trimmed form of exactly
/// the given text, and depends on nothing else.
#[verifier::external_body]
pub(crate) fn trim(text: &str) -> (r: &str)
    ensures
        r@ == trimmed(text@),
{
    text.trim()
}

/// The error type of the JSON parser.
#[verifier::external_type_specification]
#[verifier::external_body]
pub struct ExJsonError(serde_json::Error);

/// What a JSON text holds under a key. Nothing where the text is no JSON
/// document; else the string that the document, as an object, has under
/// the key, if it is an object and has a string there.
pub uninterp spec fn json_string_member(record: Seq<char>, key: Seq<char>) -> Option<
    Option<Seq<char>>,
>;

/// Parses the text with `serde_json::from_str` into a `serde_json::Value`,
/// indexes the value by the key and reads the member with `Value::as_str`.
/// Trusted: the result is a function of text and key alone. The parser's
/// error comes back as it is; indexing a value that is no object, or that
/// lacks the key, yields null, and null is no string.
#[verifier::external_body]
pub(crate) fn string_member(record: &str, key: &str) -> (member: Result<
    Option<String>,
    serde_json::Error,
>)
    ensures
        json_string_member(record@, key@) == match member {
            Ok(Some(text)) => Some(Some(text@)),
            Ok(None) => Some(None),
            Err(_) => None,
        },
{
    match serde_json::from_str::<serde_json::Value>(record) {
        Ok(value) => match value[key].as_str() {
            Some(text) => Ok(Some(text.to_string())),
            None => Ok(None),
        },
        Err(e) => Err(e),
    }
}

/// Calls `std::path::Path::file_name` on the path and hands the name back as
/// text. Nothing is claimed of the result: what counts as the last component
/// of a path is the platform's business.
#[verifier::external_body]
pub(crate) fn path_file_name(path: &str) -> (name: Option<String>) {
    match std::path::Path::new(path).file_name() {
        Some(name) => match name.to_str() {
            Some(text) => Some(text.to_string()),
            None => None,
        },
        None => None,
    }
}

} // verus!
