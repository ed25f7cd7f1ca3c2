//! Reading a string out of a JSON response by its JSON pointer.

use crate::session::ClientError;
use vstd::prelude::*;
use vstd::string::*;

verus! {

/// `serde_json::Value`: a JSON value of any kind. Nothing of its inside is
/// known here.
#[verifier::external_type_specification]
#[verifier::external_body]
pub struct ExValue(serde_json::Value);

/// `serde_json::Error`: why bytes could not be read as JSON.
#[verifier::external_type_specification]
#[verifier::external_body]
pub struct ExJsonError(serde_json::Error);

/// The strings that a JSON value holds, by where they stand in it: the map
/// that takes each JSON pointer at which `Value::pointer` finds a string to
/// that string. The empty pointer stands for the value itself.
pub uninterp spec fn json_strings(value: serde_json::Value) -> Map<Seq<char>, Seq<char>>;

/// What `serde_json::from_slice` makes of the bytes: the strings of the
/// JSON value that they spell, by their JSON pointers, or `None` where it
/// reports an error.
pub uninterp spec fn json_document(body: Seq<u8>) -> Option<Map<Seq<char>, Seq<char>>>;

/// `serde_json::from_slice` for a `Value`: the value that the bytes spell,
/// or the error that says why they spell none. The same bytes give the
/// same outcome.
#[verifier::external_body]
fn parse(body: &[u8]) -> (r: Result<serde_json::Value, serde_json::Error>)
    ensures
        match r {
            Ok(value) => json_document(body@) == Some(json_strings(value)),
            Err(_) => json_document(body@) is None,
        },
{
    serde_json::from_slice::<serde_json::Value>(body)
}

/// The text of a `serde_json::Error`, as its `Display` writes it. Nothing
/// is claimed of the text.
#[verifier::external_body]
fn error_text(error: &serde_json::Error) -> String {
    format!("{}", error)
}

/// `Value::pointer` returns the value that the JSON pointer leads to within
/// `value`, if there is one. The value it returns holds a string exactly
/// when `value` holds one at that pointer, and then the same one.
pub assume_specification<'a>[ serde_json::Value::pointer ](
    value: &'a serde_json::Value,
    pointer: &str,
) -> (r: Option<&'a serde_json::Value>)
    ensures
        match r {
            Some(found) => json_strings(*value).contains_key(pointer@) == json_strings(
                *found,
            ).contains_key(Seq::empty()) && (json_strings(*value).contains_key(pointer@)
                ==> json_strings(*value)[pointer@] == json_strings(*found)[Seq::empty()]),
            None => !json_strings(*value).contains_key(pointer@),
        },
;

/// `Value::as_str` returns the string if the value is one, else nothing.
pub assume_specification<'a>[ serde_json::Value::as_str ](value: &'a serde_json::Value) -> (r:
    Option<&'a str>)
    ensures
        match r {
            Some(text) => json_strings(*value).contains_key(Seq::empty()) && json_strings(
                *value,
            )[Seq::empty()] == text@,
            None => !json_strings(*value).contains_key(Seq::empty()),
        },
;

/// The string at `pointer` in a map of strings by pointer, if there is one.
pub open spec fn string_at(strings: Map<Seq<char>, Seq<char>>, pointer: Seq<char>) -> Option<
    Seq<char>,
> {
    if strings.contains_key(pointer) {
        Some(strings[pointer])
    } else {
        None
    }
}

/// A string or none, as the characters it holds.
pub open spec fn text_view(text: Option<String>) -> Option<Seq<char>> {
    match text {
        Some(s) => Some(s@),
        None => None,
    }
}

/// The string that the JSON document `body` holds at `pointer`.
///
/// Fails with a decode error exactly when `body` is not a JSON document.
/// Gives `None` where the document has no value at `pointer`, or one that
/// is not a string.
pub fn text_at(body: &[u8], pointer: &str) -> (r: Result<Option<String>, ClientError>)
    ensures
        match json_document(body@) {
            Some(strings) => r matches Ok(text) && text_view(text) == string_at(strings, pointer@),
            None => r matches Err(e) && e is Decode,
        },
{
    match parse(body) {
        Err(error) => Err(ClientError::Decode(error_text(&error))),
        Ok(document) => {
            match document.pointer(pointer) {
                None => Ok(None),
                Some(found) => {
                    match found.as_str() {
                        None => Ok(None),
                        Some(text) => Ok(Some(text.to_owned())),
                    }
                },
            }
        },
    }
}

} // verus!
