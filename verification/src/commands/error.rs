//! The errors that the commands report.

use vstd::prelude::*;
use vstd::string::*;

use crate::config::error::ConfigError;
use crate::git::error::GitError;

verus! {

/// What went wrong while the scope of a comparison was worked out.
#[derive(Debug, Clone, Copy, PartialEq, Eq, Structural)]
pub enum ScopeErrorKind {
    /// What the user gave cannot be used.
    InvalidInput,
    /// The repository or the configuration did not answer.
    Other,
}

/// An error of the scope command: its kind and its message.
#[derive(Debug, PartialEq, Eq)]
pub struct ScopeError {
    kind: ScopeErrorKind,
    message: String,
}

impl ScopeError {
    /// The kind of the error.
    pub closed spec fn spec_kind(&self) -> ScopeErrorKind {
        self.kind
    }

    /// The string that holds the message of the error.
    pub closed spec fn text(&self) -> String {
        self.message
    }

    /// The message of the error.
    pub open spec fn message(&self) -> Seq<char> {
        self.text()@
    }

    /// Whether the error is of the kind and has the message.
    pub open spec fn is(&self, kind: ScopeErrorKind, message: Seq<char>) -> bool {
        self.spec_kind() == kind && self.message() == message
    }

    pub fn new(kind: ScopeErrorKind, message: &str) -> (error: Self)
        ensures
            error.is(kind, message@),
    {
        ScopeError { kind, message: message.to_string() }
    }

    pub fn kind(&self) -> (kind: ScopeErrorKind)
        ensures
            kind == self.spec_kind(),
    {
        self.kind
    }

    /// The message of the error, as the tool shows it.
    pub fn to_string(&self) -> (text: String)
        ensures
            text@ == self.message(),
    {
        self.message.clone()
    }
}

/// The text of a string as `Debug` of std writes it: in double quotes, with
/// what cannot be shown as it is written as an escape.
pub uninterp spec fn quoted(text: Seq<char>) -> Seq<char>;

/// `Debug` of `str`: the text written depends on the string alone.
#[verifier::external_body]
fn quote(text: &str) -> (written: String)
    ensures
        written@ == quoted(text@),
{
    format!("{:?}", text)
}

/// What a command fails with.
#[derive(Debug, PartialEq)]
pub enum CommandError {
    Git(GitError),
    Config(ConfigError),
    IO(String),
    ArgParse(String),
    WebServerError(String),
    InvalidInput(String),
    InternalError(String),
}

impl CommandError {
    /// The message of the error.
    pub open spec fn message(self) -> Seq<char> {
        match self {
            CommandError::Git(err) => "Git エラー: "@ + err.message(),
            CommandError::Config(err) => "Config エラー: "@ + err.message(),
            CommandError::IO(err) => "IO エラー: "@ + quoted(err@),
            CommandError::ArgParse(err) => "引数解析エラー: "@ + err@,
            CommandError::InvalidInput(err) => err@,
            CommandError::WebServerError(err) => "Web サーバーエラー: "@ + err@,
            CommandError::InternalError(err) => "内部エラー: "@ + err@,
        }
    }

    /// The message of the error, as the tool shows it.
    pub fn to_string(&self) -> (text: String)
        ensures
            text@ == self.message(),
    {
        match self {
            CommandError::Git(err) => {
                let mut text = "Git エラー: ".to_string();
                text.append(err.to_string().as_str());
                text
            },
            CommandError::Config(err) => {
                let mut text = "Config エラー: ".to_string();
                text.append(err.to_string().as_str());
                text
            },
            CommandError::IO(err) => {
                let mut text = "IO エラー: ".to_string();
                text.append(quote(err.as_str()).as_str());
                text
            },
            CommandError::ArgParse(err) => {
                let mut text = "引数解析エラー: ".to_string();
                text.append(err.as_str());
                text
            },
            CommandError::InvalidInput(err) => err.clone(),
            CommandError::WebServerError(err) => {
                let mut text = "Web サーバーエラー: ".to_string();
                text.append(err.as_str());
                text
            },
            CommandError::InternalError(err) => {
                let mut text = "内部エラー: ".to_string();
                text.append(err.as_str());
                text
            },
        }
    }
}

impl From<GitError> for CommandError {
    fn from(err: GitError) -> (error: Self) {
        CommandError::Git(err)
    }
}

impl vstd::std_specs::convert::FromSpecImpl<GitError> for CommandError {
    open spec fn obeys_from_spec() -> bool {
        true
    }

    open spec fn from_spec(err: GitError) -> Self {
        CommandError::Git(err)
    }
}

impl From<ConfigError> for CommandError {
    fn from(err: ConfigError) -> (error: Self) {
        CommandError::Config(err)
    }
}

impl vstd::std_specs::convert::FromSpecImpl<ConfigError> for CommandError {
    open spec fn obeys_from_spec() -> bool {
        true
    }

    open spec fn from_spec(err: ConfigError) -> Self {
        CommandError::Config(err)
    }
}

impl From<ScopeError> for CommandError {
    fn from(err: ScopeError) -> (error: Self) {
        CommandError::IO(err.message)
    }
}

impl vstd::std_specs::convert::FromSpecImpl<ScopeError> for CommandError {
    open spec fn obeys_from_spec() -> bool {
        true
    }

    open spec fn from_spec(err: ScopeError) -> Self {
        CommandError::IO(err.text())
    }
}

/// Whether a result is the error of this kind and with this message.
pub open spec fn fails<T>(
    result: Result<T, ScopeError>,
    kind: ScopeErrorKind,
    message: Seq<char>,
) -> bool {
    result matches Err(error) && error.is(kind, message)
}

} // verus!
