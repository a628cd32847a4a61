//! The granularity at which a diff is rendered.

use vstd::prelude::*;
use vstd::string::*;

verus! {

/// The granularity at which a diff is rendered.
#[derive(Clone, Copy, Debug, PartialEq, Eq, Structural)]
pub enum DiffMode {
    Slice,
    Words,
    Lines,
    Chars,
}

impl DiffMode {
    /// The name of the mode.
    pub open spec fn name(self) -> Seq<char> {
        match self {
            DiffMode::Slice => "slice"@,
            DiffMode::Words => "words"@,
            DiffMode::Lines => "lines"@,
            DiffMode::Chars => "chars"@,
        }
    }

    /// The name of the mode in capital letters.
    pub open spec fn title(self) -> Seq<char> {
        match self {
            DiffMode::Slice => "SLICE"@,
            DiffMode::Words => "WORDS"@,
            DiffMode::Lines => "LINES"@,
            DiffMode::Chars => "CHARS"@,
        }
    }

    /// The name of the mode, as the tool shows it.
    pub fn to_string(&self) -> (text: String)
        ensures
            text@ == self.name(),
    {
        match self {
            DiffMode::Slice => "slice".to_string(),
            DiffMode::Words => "words".to_string(),
            DiffMode::Lines => "lines".to_string(),
            DiffMode::Chars => "chars".to_string(),
        }
    }

    /// The name of the mode in capital letters, as it heads a diff.
    pub fn to_title(&self) -> (text: String)
        ensures
            text@ == self.title(),
    {
        match self {
            DiffMode::Slice => "SLICE".to_string(),
            DiffMode::Words => "WORDS".to_string(),
            DiffMode::Lines => "LINES".to_string(),
            DiffMode::Chars => "CHARS".to_string(),
        }
    }
}

} // verus!
