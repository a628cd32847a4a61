//! The form in which the configuration is written to its file.

use vstd::prelude::*;

use crate::config::data::ConfigData;

verus! {

/// An error of the YAML reader or writer. Its inside is not looked at.
#[verifier::external_type_specification]
#[verifier::external_body]
pub struct ExYamlError(serde_yaml::Error);

/// Writes the configuration as text and reads it from text.
///
/// Beside each request stands a predicate that says which outcomes the
/// serializer may have for it; it holds of every outcome.
pub trait Serializer {
    /// Whether `text` may come back when `data` is written.
    open spec fn writes(&self, data: &ConfigData, text: Result<String, serde_yaml::Error>) -> bool {
        true
    }

    /// Whether `data` may come back when `content` is read.
    open spec fn reads(&self, content: Seq<char>, data: Result<ConfigData, serde_yaml::Error>) -> bool {
        true
    }

    fn serialize(&self, data: &ConfigData) -> (text: Result<String, serde_yaml::Error>)
        ensures
            self.writes(data, text),
    ;

    fn deserialize(&self, content: &str) -> (data: Result<ConfigData, serde_yaml::Error>)
        ensures
            self.reads(content@, data),
    ;
}

} // verus!
