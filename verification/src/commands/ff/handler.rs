//! The diff command at work: it checks the source, cuts the two line ranges
//! out of the files and renders their difference.

use vstd::prelude::*;
use vstd::string::*;

use crate::commands::error::CommandError;
use crate::commands::ff::mode::DiffMode;
use crate::commands::ff::range::{range_error, read_range, Range, RangeReading};
use crate::commands::ff::FFCommand;
use crate::config::data::ValidatedConfigData;
use crate::diff::engine::{chars_report, lines_report, slice_report, words_report};
use crate::diff::{shown_report, Diff, DiffProvider};
use crate::git::error::GitError;
use crate::git::provider::{GitProvider, SourceKind};
use crate::text::joined;

verus! {

/// Compares the two line ranges of a diff command, with the repository
/// that is asked and the configuration that was loaded.
pub struct DiffHandler<'a, G: GitProvider + ?Sized> {
    cmd: FFCommand,
    git: &'a G,
    data: ValidatedConfigData,
}

/// The message that refuses a comparison of the working tree while another
/// branch than the configured one is checked out.
pub open spec fn source_mismatch(configured: Seq<char>, checked_out: Seq<char>) -> Seq<char> {
    "比較するブランチが現在のブランチと異なる場合、--source=worktree を指定することはできません。現在のブランチ: "@
        + configured + ", 指定されたブランチ: "@ + checked_out
}

/// Whether `result` is what checking the source against the branches gives:
/// the working tree can be compared only while the configured branch is the
/// one checked out.
pub open spec fn source_checked(
    source: SourceKind,
    configured: Seq<char>,
    checked_out: Seq<char>,
    result: Result<(), CommandError>,
) -> bool {
    if source == SourceKind::Worktree && configured != checked_out {
        result matches Err(CommandError::InvalidInput(message)) && message@ == source_mismatch(
            configured,
            checked_out,
        )
    } else {
        result is Ok
    }
}

/// Whether `result` is what is made of the answer of the repository to the
/// question for the branch checked out: a failure is handed on, and a branch
/// is checked against the source.
pub open spec fn source_outcome(
    source: SourceKind,
    configured: Seq<char>,
    name: Result<String, GitError>,
    result: Result<(), CommandError>,
) -> bool {
    match name {
        Ok(checked_out) => source_checked(source, configured, checked_out@, result),
        Err(error) => result matches Err(CommandError::Git(cause)) && cause == error,
    }
}

/// Whether `result` hands on what the repository found: the lines, or its
/// error.
pub open spec fn hands_on(
    found: Result<Vec<String>, GitError>,
    result: Result<Vec<String>, CommandError>,
) -> bool {
    match found {
        Ok(lines) => result matches Ok(same) && same == lines,
        Err(error) => result matches Err(CommandError::Git(cause)) && cause == error,
    }
}

/// Whether `result` is what cutting a range out of a file gives, where
/// `asked` says what the repository may answer when it is asked for the
/// lines between two numbers: a range that cannot be read is reported, and
/// for one that can the answer of the repository is handed on.
pub open spec fn lines_outcome(
    range: Seq<char>,
    asked: spec_fn(usize, usize, Result<Vec<String>, GitError>) -> bool,
    result: Result<Vec<String>, CommandError>,
) -> bool {
    match read_range(range, usize::MAX as nat) {
        RangeReading::Valid(start, end) => exists|found: Result<Vec<String>, GitError>|
            #![trigger hands_on(found, result)]
            asked(start as usize, end as usize, found) && hands_on(found, result),
        _ => result matches Err(error) && range_error(range, error),
    }
}

/// Checks the source against the branches: the working tree can be compared
/// only while the configured branch is the one checked out.
pub fn check_source(source: SourceKind, configured: &String, checked_out: &String) -> (result:
    Result<(), CommandError>)
    ensures
        source_checked(source, configured@, checked_out@, result),
{
    let worktree = match source {
        SourceKind::Worktree => true,
        SourceKind::Commit => false,
    };
    if worktree && !(*configured == *checked_out) {
        let mut message =
            "比較するブランチが現在のブランチと異なる場合、--source=worktree を指定することはできません。現在のブランチ: ".to_string();
        message.append(configured.as_str());
        message.append(", 指定されたブランチ: ");
        message.append(checked_out.as_str());
        return Err(CommandError::InvalidInput(message));
    }
    Ok(())
}

/// The difference of two sequences of lines, rendered in a mode.
pub open spec fn rendered(mode: DiffMode, old: Seq<Seq<char>>, new: Seq<Seq<char>>) -> Seq<char> {
    let old_text = joined(old, seq!['\n']);
    let new_text = joined(new, seq!['\n']);
    match mode {
        DiffMode::Slice => shown_report(slice_report(old, new)),
        DiffMode::Words => words_report(old_text, new_text),
        DiffMode::Lines => lines_report(old_text, new_text),
        DiffMode::Chars => chars_report(old_text, new_text),
    }
}

/// A rendered difference between its heading, which names the mode, and its
/// closing line, as it is shown on a terminal.
pub open spec fn shown(mode: DiffMode, body: Seq<char>) -> Seq<char> {
    "\x1b[1;34m=== Diff Mode: "@ + mode.title() + " ===\x1b[0m\n"@ + body
        + "\n\x1b[1;34m==============================\x1b[0m\n\n"@
}

/// Whether a text is some rendered difference as it is shown in this mode.
pub open spec fn is_shown(mode: DiffMode, text: Seq<char>) -> bool {
    exists|body: Seq<char>| text == #[trigger] shown(mode, body)
}

/// Whether `error` is a failure that the comparison may end with: the
/// repository fails, the working tree is compared on another branch than
/// the configured one, or a range cannot be read.
pub open spec fn exec_fails(cmd: FFCommand, error: CommandError) -> bool {
    ||| error is Git
    ||| cmd.source == SourceKind::Worktree && error is InvalidInput
    ||| range_error(cmd.old_range@, error)
    ||| range_error(cmd.new_range@, error)
}

/// Renders the difference of two sequences of lines in a mode.
pub fn render(mode: DiffMode, old_lines: Vec<String>, new_lines: Vec<String>) -> (text: String)
    ensures
        text@ == rendered(mode, old_lines.deep_view(), new_lines.deep_view()),
{
    let diff = Diff::new(old_lines, new_lines);
    match mode {
        DiffMode::Slice => diff.slice(),
        DiffMode::Words => diff.words(),
        DiffMode::Lines => diff.lines(),
        DiffMode::Chars => diff.chars(),
    }
}

/// Puts the heading and the closing line around a rendered difference.
pub fn frame(mode: DiffMode, diff_result: &str) -> (text: String)
    ensures
        text@ == shown(mode, diff_result@),
{
    let mut text = "\x1b[1;34m=== Diff Mode: ".to_string();
    text.append(mode.to_title().as_str());
    text.append(" ===\x1b[0m\n");
    text.append(diff_result);
    text.append("\n\x1b[1;34m==============================\x1b[0m\n\n");
    text
}

impl<'a, G: GitProvider + ?Sized> DiffHandler<'a, G> {
    /// The options of the command.
    pub closed spec fn command(&self) -> FFCommand {
        self.cmd
    }

    /// The configuration of the command.
    pub closed spec fn config(&self) -> ValidatedConfigData {
        self.data
    }

    /// The repository that is asked.
    pub closed spec fn provider(&self) -> &'a G {
        self.git
    }

    /// Whether `result` is what checking the source gives: the repository is
    /// asked for the branch that is checked out, and its answer is checked
    /// against the source and the configured branch.
    pub open spec fn validates(&self, result: Result<(), CommandError>) -> bool {
        exists|name: Result<String, GitError>|
            #![trigger self.provider().names_current_branch(name)]
            self.provider().names_current_branch(name) && source_outcome(
                self.command().source,
                self.config().values().current_branch->0,
                name,
                result,
            )
    }

    /// Whether `result` is what the comparison gives once both sides are
    /// read: the difference of the lines, rendered in the mode of the
    /// command and framed.
    pub open spec fn shows(
        &self,
        old_lines: Vec<String>,
        new_lines: Vec<String>,
        result: Result<String, CommandError>,
    ) -> bool {
        result matches Ok(text) && text@ == shown(
            self.command().mode,
            rendered(self.command().mode, old_lines.deep_view(), new_lines.deep_view()),
        )
    }

    /// Whether `result` is what the comparison gives once the old lines are
    /// read: the new lines are cut out, and a failure to do so ends the
    /// comparison.
    pub open spec fn compares_from_new(
        &self,
        old_lines: Vec<String>,
        result: Result<String, CommandError>,
    ) -> bool {
        exists|new: Result<Vec<String>, CommandError>|
            #![trigger lines_outcome(self.command().new_range@, self.asks_new(), new)]
            lines_outcome(self.command().new_range@, self.asks_new(), new) && (match new {
                Ok(new_lines) => self.shows(old_lines, new_lines, result),
                Err(error) => result matches Err(same) && same == error,
            })
    }

    /// Whether `result` is what the comparison gives once the source is
    /// checked: the old lines are cut out, and a failure to do so ends the
    /// comparison.
    pub open spec fn compares_from_old(&self, result: Result<String, CommandError>) -> bool {
        exists|old: Result<Vec<String>, CommandError>|
            #![trigger lines_outcome(self.command().old_range@, self.asks_old(), old)]
            lines_outcome(self.command().old_range@, self.asks_old(), old) && (match old {
                Ok(old_lines) => self.compares_from_new(old_lines, result),
                Err(error) => result matches Err(same) && same == error,
            })
    }

    /// Whether `result` is what the comparison gives: the source is checked,
    /// the old lines and then the new lines are cut out, and their
    /// difference is rendered and framed. The first step that fails ends the
    /// comparison with its error, and the steps behind it are not taken.
    pub open spec fn compares(&self, result: Result<String, CommandError>) -> bool {
        exists|checked: Result<(), CommandError>|
            #![trigger self.validates(checked)]
            self.validates(checked) && (match checked {
                Ok(_) => self.compares_from_old(result),
                Err(error) => result matches Err(same) && same == error,
            })
    }

    /// What the repository may answer when it is asked for lines of the old
    /// file at the base branch.
    pub open spec fn asks_old(&self) -> spec_fn(usize, usize, Result<Vec<String>, GitError>) -> bool {
        |start: usize, end: usize, found: Result<Vec<String>, GitError>|
            self.provider().extracts(
                self.config().values().base_branch->0,
                self.config().values().old_file_path->0,
                start,
                end,
                Some(self.command().source),
                found,
            )
    }

    /// What the repository may answer when it is asked for lines of the new
    /// file at the current branch.
    pub open spec fn asks_new(&self) -> spec_fn(usize, usize, Result<Vec<String>, GitError>) -> bool {
        |start: usize, end: usize, found: Result<Vec<String>, GitError>|
            self.provider().extracts(
                self.config().values().current_branch->0,
                self.config().values().new_file_path->0,
                start,
                end,
                Some(self.command().source),
                found,
            )
    }

    pub fn build(cmd: FFCommand, git: &'a G, data: ValidatedConfigData) -> (handler:
        Self)
        ensures
            handler.command() == cmd,
            handler.config() == data,
            handler.provider() == git,
    {
        Self { cmd, git, data }
    }

    /// Compares: the source is checked, the old lines and the new lines are
    /// cut out, and their difference is rendered and framed.
    pub fn exec(&mut self) -> (result: Result<String, CommandError>)
        ensures
            old(self).compares(result),
            result matches Ok(text) ==> is_shown(old(self).command().mode, text@),
            result is Ok ==> read_range(old(self).command().old_range@, usize::MAX as nat) is Valid
                && read_range(old(self).command().new_range@, usize::MAX as nat) is Valid,
            result matches Err(error) ==> exec_fails(old(self).command(), error),
            final(self).command() == old(self).command(),
            final(self).config() == old(self).config(),
            final(self).provider() == old(self).provider(),
    {
        let checked = self.validate_source();
        match checked {
            Ok(()) => {},
            Err(error) => {
                let result = Err(error);
                assert(self.validates(checked));
                return result;
            },
        }
        let old = self.extract_old_lines();
        let old_lines = match old {
            Ok(lines) => lines,
            Err(error) => {
                let result = Err(error);
                assert(lines_outcome(self.command().old_range@, self.asks_old(), old));
                assert(self.validates(checked));
                return result;
            },
        };
        let new = self.extract_new_lines();
        let new_lines = match new {
            Ok(lines) => lines,
            Err(error) => {
                let result = Err(error);
                assert(lines_outcome(self.command().new_range@, self.asks_new(), new));
                assert(self.compares_from_new(old_lines, result));
                assert(lines_outcome(self.command().old_range@, self.asks_old(), old));
                assert(self.validates(checked));
                return result;
            },
        };
        let diff_result = match self.generate_diff(old_lines, new_lines) {
            Ok(text) => text,
            Err(error) => {
                return Err(error);
            },
        };
        let text = self.display_diff(diff_result);
        let result = Ok(text);
        assert(self.shows(old_lines, new_lines, result));
        assert(lines_outcome(self.command().new_range@, self.asks_new(), new));
        assert(self.compares_from_new(old_lines, result));
        assert(lines_outcome(self.command().old_range@, self.asks_old(), old));
        assert(self.compares_from_old(result));
        assert(self.validates(checked));
        result
    }

    /// Asks the repository for the branch that is checked out and checks the
    /// source against it.
    pub fn validate_source(&self) -> (result: Result<(), CommandError>)
        ensures
            self.validates(result),
            result matches Err(error) ==> error is Git || (self.command().source
                == SourceKind::Worktree && error is InvalidInput),
    {
        let name = self.git.get_current_branch();
        assert(self.provider().names_current_branch(name));
        let git_branch = match name {
            Ok(branch) => branch,
            Err(error) => {
                return Err(CommandError::from(error));
            },
        };
        check_source(self.cmd.source, self.data.current_branch(), &git_branch)
    }

    /// Cuts the range of the old lines out of the old file at the base
    /// branch. A range that cannot be read is reported and the repository is
    /// not asked.
    pub fn extract_old_lines(&self) -> (result: Result<Vec<String>, CommandError>)
        ensures
            lines_outcome(self.command().old_range@, self.asks_old(), result),
    {
        let range = match Range::parse(self.cmd.old_range.as_str()) {
            Ok(range) => range,
            Err(error) => {
                return Err(error);
            },
        };
        let start = range.start();
        let end = range.end();
        let found = self.git.extract_lines(
            self.data.base_branch().as_str(),
            self.data.old_file_path().as_str(),
            start,
            end,
            Some(self.cmd.source),
        );
        let result = match found {
            Ok(lines) => Ok(lines),
            Err(error) => Err(CommandError::from(error)),
        };
        assert(self.asks_old()(start, end, found) && hands_on(found, result));
        result
    }

    /// Cuts the range of the new lines out of the new file at the current
    /// branch. A range that cannot be read is reported and the repository is
    /// not asked.
    pub fn extract_new_lines(&self) -> (result: Result<Vec<String>, CommandError>)
        ensures
            lines_outcome(self.command().new_range@, self.asks_new(), result),
    {
        let range = match Range::parse(self.cmd.new_range.as_str()) {
            Ok(range) => range,
            Err(error) => {
                return Err(error);
            },
        };
        let start = range.start();
        let end = range.end();
        let found = self.git.extract_lines(
            self.data.current_branch().as_str(),
            self.data.new_file_path().as_str(),
            start,
            end,
            Some(self.cmd.source),
        );
        let result = match found {
            Ok(lines) => Ok(lines),
            Err(error) => Err(CommandError::from(error)),
        };
        assert(self.asks_new()(start, end, found) && hands_on(found, result));
        result
    }

    /// Renders the difference of the lines in the mode of the command.
    pub fn generate_diff(&self, old_lines: Vec<String>, new_lines: Vec<String>) -> (result: Result<
        String,
        CommandError,
    >)
        ensures
            result matches Ok(text) && text@ == rendered(
                self.command().mode,
                old_lines.deep_view(),
                new_lines.deep_view(),
            ),
    {
        Ok(render(self.cmd.mode, old_lines, new_lines))
    }

    /// The rendered difference as it is shown, under the heading of the mode.
    pub fn display_diff(&self, diff_result: String) -> (text: String)
        ensures
            text@ == shown(self.command().mode, diff_result@),
    {
        frame(self.cmd.mode, diff_result.as_str())
    }
}

} // verus!
