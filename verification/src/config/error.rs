//! The ways in which handling the configuration fails.

use vstd::prelude::*;
use vstd::string::*;

verus! {

/// The kind of an I/O error, as std reports it. Its inside is not looked at.
#[verifier::external_type_specification]
#[verifier::external_body]
pub struct ExErrorKind(std::io::ErrorKind);

/// The description that std gives of a kind of I/O error.
pub uninterp spec fn kind_description(kind: std::io::ErrorKind) -> Seq<char>;

/// `Display` of `std::io::ErrorKind`: the description depends on the kind alone.
#[verifier::external_body]
fn describe_kind(kind: &std::io::ErrorKind) -> (text: String)
    ensures
        text@ == kind_description(*kind),
{
    kind.to_string()
}

/// What handling the configuration fails with.
#[derive(Debug, PartialEq)]
pub enum ConfigError {
    /// A branch name that is empty was given.
    EmptyBranchName,
    /// The field of this name is not set.
    MissingField(String),
    /// The configuration file is not the YAML that is expected.
    Yaml(String),
    /// Reading or writing the configuration file failed.
    IoKind(std::io::ErrorKind),
}

/// The kind of an I/O error.
pub uninterp spec fn error_kind(err: std::io::Error) -> std::io::ErrorKind;

/// `io::Error::kind` of std: the kind depends on the error alone.
#[verifier::external_body]
fn kind_of(err: &std::io::Error) -> (kind: std::io::ErrorKind)
    ensures
        kind == error_kind(*err),
{
    err.kind()
}

/// `Display` of `serde_yaml::Error`. Nothing is claimed of the text: where
/// the error holds a failure of the operating system, the description of
/// that failure is the system's.
#[verifier::external_body]
fn yaml_text(err: &serde_yaml::Error) -> (text: String) {
    err.to_string()
}

impl ConfigError {
    /// The error that a failure of the file system is reported as: it keeps
    /// the kind of the failure.
    pub fn from_io(err: std::io::Error) -> (error: Self)
        ensures
            error == ConfigError::IoKind(error_kind(err)),
    {
        ConfigError::IoKind(kind_of(&err))
    }

    /// The error that a failure to read or write YAML is reported as: it
    /// keeps the description of the failure.
    pub fn from_yaml(err: serde_yaml::Error) -> (error: Self)
        ensures
            error is Yaml,
    {
        ConfigError::Yaml(yaml_text(&err))
    }

    /// The message of the error.
    pub open spec fn message(self) -> Seq<char> {
        match self {
            ConfigError::EmptyBranchName => "ブランチ名が空です"@,
            ConfigError::MissingField(field) => field@ + " フィールドが入力されていません"@,
            ConfigError::Yaml(err) => "YAML エラー: "@ + err@,
            ConfigError::IoKind(kind) => "IO エラー: "@ + kind_description(kind),
        }
    }

    /// The message of the error, as the tool shows it.
    pub fn to_string(&self) -> (text: String)
        ensures
            text@ == self.message(),
    {
        match self {
            ConfigError::EmptyBranchName => "ブランチ名が空です".to_string(),
            ConfigError::MissingField(field) => {
                let mut text = field.clone();
                text.append(" フィールドが入力されていません");
                text
            },
            ConfigError::Yaml(err) => {
                let mut text = "YAML エラー: ".to_string();
                text.append(err.as_str());
                text
            },
            ConfigError::IoKind(kind) => {
                let mut text = "IO エラー: ".to_string();
                let description = describe_kind(kind);
                text.append(description.as_str());
                text
            },
        }
    }
}

impl From<serde_yaml::Error> for ConfigError {
    fn from(err: serde_yaml::Error) -> (error: Self) {
        ConfigError::from_yaml(err)
    }
}

/// Nothing is claimed of `from` here: what it returns is stated on
/// `ConfigError::from_yaml`, which it calls.
impl vstd::std_specs::convert::FromSpecImpl<serde_yaml::Error> for ConfigError {
    open spec fn obeys_from_spec() -> bool {
        false
    }

    open spec fn from_spec(err: serde_yaml::Error) -> Self {
        ConfigError::EmptyBranchName
    }
}

impl From<std::io::Error> for ConfigError {
    fn from(err: std::io::Error) -> (error: Self) {
        ConfigError::from_io(err)
    }
}

/// Nothing is claimed of `from` here: what it returns is stated on
/// `ConfigError::from_io`, which it calls.
impl vstd::std_specs::convert::FromSpecImpl<std::io::Error> for ConfigError {
    open spec fn obeys_from_spec() -> bool {
        false
    }

    open spec fn from_spec(err: std::io::Error) -> Self {
        ConfigError::EmptyBranchName
    }
}

} // verus!
