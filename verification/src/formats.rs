//! Reading one string field out of a JSON or YAML document, with `serde_json`
//! and `serde_yaml`.
use vstd::prelude::*;

verus! {

/// Why a document gave no string under a key.
#[derive(Debug, Clone, Copy, PartialEq, Eq, Structural)]
pub enum FieldError {
    /// The text is no document of the format.
    InvalidDocument,
    /// The document is no mapping (object) at its top.
    NotAMapping,
    /// The mapping has no such key.
    MissingField,
    /// The value under the key is no string.
    NotAString,
}

/// What `serde_json` reads from `text` under `key` of its top-level object.
pub uninterp spec fn json_string_field(text: Seq<char>, key: Seq<char>) -> Result<
    Seq<char>,
    FieldError,
>;

/// What `serde_yaml` reads from `text` under `key` of its top-level mapping
/// of string keys.
pub uninterp spec fn yaml_string_field(text: Seq<char>, key: Seq<char>) -> Result<
    Seq<char>,
    FieldError,
>;

/// The text of a read result.
pub open spec fn field_view(r: Result<String, FieldError>) -> Result<Seq<char>, FieldError> {
    match r {
        Ok(s) => Ok(s@),
        Err(e) => Err(e),
    }
}

/// Parses `text` with `serde_json::from_str` into a `serde_json::Value` and
/// reads the string under `key` of its top-level object. The result is named
/// by `json_string_field`; nothing more of JSON is stated.
#[verifier::external_body]
pub(crate) fn read_json_string_field(text: &str, key: &str) -> (r: Result<String, FieldError>)
    ensures
        field_view(r) == json_string_field(text@, key@),
{
    match serde_json::from_str::<serde_json::Value>(text) {
        Err(_) => Err(FieldError::InvalidDocument),
        Ok(serde_json::Value::Object(map)) => match map.get(key) {
            None => Err(FieldError::MissingField),
            Some(serde_json::Value::String(s)) => Ok(s.clone()),
            Some(_) => Err(FieldError::NotAString),
        },
        Ok(_) => Err(FieldError::NotAMapping),
    }
}

/// Parses `text` with `serde_yaml::from_str` into a map from strings to
/// `serde_yaml::Value` and reads the string under `key`. A document that is
/// no such map counts as invalid. The result is named by `yaml_string_field`;
/// nothing more of YAML is stated.
#[verifier::external_body]
pub(crate) fn read_yaml_string_field(text: &str, key: &str) -> (r: Result<String, FieldError>)
    ensures
        field_view(r) == yaml_string_field(text@, key@),
{
    match serde_yaml::from_str::<std::collections::HashMap<String, serde_yaml::Value>>(text) {
        Err(_) => Err(FieldError::InvalidDocument),
        Ok(map) => match map.get(key) {
            None => Err(FieldError::MissingField),
            Some(serde_yaml::Value::String(s)) => Ok(s.clone()),
            Some(_) => Err(FieldError::NotAString),
        },
    }
}

} // verus!
