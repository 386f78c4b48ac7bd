//! Reads a configuration from the text of a YAML file.

use vstd::prelude::*;
use serde_yaml::Value;
use crate::config::yaml::parsed_yaml;
use crate::config::yaml::yaml_from_str;
use crate::error::Error;
use crate::error_kind::SERIALIZATION_FAILURE;

verus! {

/// How an operation on a file failed: the kind of the failure and its words.
#[derive(Debug, Clone)]
pub struct IoFailure {
    pub kind: String,
    pub detail: String,
}

#[derive(Default)]
pub struct ConfigReader {
}

impl ConfigReader {
    /// The configuration in the content of a file, where `content` is what
    /// reading the file gave. A file that could not be read fails with the
    /// kind and the words of its failure; a content that is no YAML fails as
    /// `serialization_failure`, with the words of the reader of YAML.
    pub fn read(&self, content: Result<String, IoFailure>) -> (configuration: Result<Value, Error>)
        ensures
            match content {
                Err(failure) => configuration matches Err(error) && error@.kind == failure.kind@
                    && error@.message == failure.detail@,
                Ok(text) => match parsed_yaml(text@) {
                    Ok(value) => configuration == Ok::<Value, Error>(value),
                    Err(detail) => configuration matches Err(error) && error@.kind
                        == SERIALIZATION_FAILURE@ && error@.message == detail,
                },
            },
    {
        match content {
            Err(failure) => Err(Error::new(failure.kind.as_str(), failure.detail.as_str())),
            Ok(text) => match yaml_from_str(text.as_str()) {
                Ok(value) => Ok(value),
                Err(detail) => Err(Error::new(SERIALIZATION_FAILURE, detail.as_str())),
            },
        }
    }
}

} // verus!
