//! The calls into the `serde_yaml` crate, each behind a contract that is
//! taken on trust.

use vstd::prelude::*;
use serde_yaml::Value;

verus! {

/// `serde_yaml::Value`: any YAML value.
#[verifier::external_type_specification]
#[verifier::external_body]
pub struct ExYamlValue(serde_yaml::Value);

/// What `serde_yaml::from_str::<Value>` makes of a text: the value that it
/// reads, or, where it refuses the text, the words of its error.
pub uninterp spec fn parsed_yaml(text: Seq<char>) -> Result<Value, Seq<char>>;

/// What a YAML value holds under a key given as text: the value beside that
/// key where the value is a mapping with such a key, else nothing.
pub uninterp spec fn yaml_entry(value: Value, key: Seq<char>) -> Option<Value>;

/// `serde_yaml::from_str::<Value>`: reads a YAML value from text. On refusal
/// the error's text comes back, as its `Display` prints it.
#[verifier::external_body]
pub(crate) fn yaml_from_str(text: &str) -> (value: Result<Value, String>)
    ensures
        match value {
            Ok(read) => parsed_yaml(text@) == Ok::<Value, Seq<char>>(read),
            Err(detail) => parsed_yaml(text@) == Err::<Value, Seq<char>>(detail@),
        },
{
    serde_yaml::from_str::<Value>(text).map_err(|error| error.to_string())
}

/// `Value::get` with a key given as text: what the value holds under the key.
#[verifier::external_body]
pub(crate) fn yaml_child<'a>(value: &'a Value, key: &str) -> (child: Option<&'a Value>)
    ensures
        match child {
            Some(found) => yaml_entry(*value, key@) == Some(*found),
            None => yaml_entry(*value, key@) is None,
        },
{
    value.get(key)
}

} // verus!
