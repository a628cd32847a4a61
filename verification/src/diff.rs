//! Line diffs: the data model, and the `Diff` of two line sequences.

pub mod engine;
pub mod laws;
pub mod model;
pub mod structured;

pub use model::{ChangeOp, ChangeRun, DiffLine, DiffType, LineDiff, LineInfo, LineRef};

use vstd::prelude::*;
use vstd::string::*;

use crate::diff::engine::{
    chars_report, diff_ops, lines_report, report_chars, report_lines, report_slice, report_words,
    slice_changes, slice_report, words_report,
};
use crate::diff::laws::{
    all_added, all_removed, lemma_count_is_length, lemma_only_new_is_all_added,
    lemma_only_old_is_all_removed, lemma_unchanged_gives_nothing,
};
use crate::diff::structured::{structured_from_ops, structured_lines};
use crate::text::{
    join, joined, push_text, split_lines, strip_trailing, text_lines, without_trailing,
};

verus! {

/// The renderings of a diff.
pub trait DiffProvider {
    fn slice(&self) -> String;

    fn chars(&self) -> String;

    fn words(&self) -> String;

    fn lines(&self) -> String;

    fn lines_structured(&self) -> Vec<LineDiff>;
}

/// Two sequences of lines to be compared.
pub struct Diff {
    old: Vec<String>,
    new: Vec<String>,
}

impl Diff {
    /// The lines of the old side.
    pub closed spec fn old_lines(&self) -> Seq<Seq<char>> {
        self.old.deep_view()
    }

    /// The lines of the new side.
    pub closed spec fn new_lines(&self) -> Seq<Seq<char>> {
        self.new.deep_view()
    }

    pub fn new(old: Vec<String>, new: Vec<String>) -> (diff: Self)
        ensures
            diff.old_lines() == old.deep_view(),
            diff.new_lines() == new.deep_view(),
    {
        Diff { old, new }
    }

    /// Each side as one text, its lines joined by line feeds.
    pub fn to_string(&self) -> (sides: (String, String))
        ensures
            sides.0@ == joined(self.old_lines(), seq!['\n']),
            sides.1@ == joined(self.new_lines(), seq!['\n']),
    {
        proof {
            reveal_strlit("\n");
            assert("\n"@ =~= seq!['\n']);
        }
        let old = join(&self.old, "\n");
        let new = join(&self.new, "\n");
        (old, new)
    }

    /// The structured diff of the two sides: the runs that the engine finds
    /// between them, numbered line by line, with `context` lines kept around
    /// each change. Two sides that are the same give no lines. Where one side
    /// is empty, every line of the other is added or removed.
    pub fn lines_structured_with_context(&self, context: usize) -> (lines: Vec<LineDiff>)
        ensures
            lines.deep_view() == structured_lines(
                slice_changes(self.old_lines(), self.new_lines()),
                context as nat,
            ),
            self.old_lines() == self.new_lines() ==> lines.len() == 0,
            self.old_lines().len() == 0 ==> lines.deep_view() == all_added(self.new_lines()),
            self.new_lines().len() == 0 ==> lines.deep_view() == all_removed(self.old_lines()),
    {
        let ops = diff_ops(&self.old, &self.new);
        proof {
            lemma_count_is_length(ops.deep_view());
            assert(self.old.deep_view().len() == self.old.len());
            assert(self.new.deep_view().len() == self.new.len());
            if self.old_lines() == self.new_lines() {
                lemma_unchanged_gives_nothing(ops.deep_view(), context as nat);
            }
            if self.old_lines().len() == 0 {
                lemma_only_new_is_all_added(ops.deep_view(), context as nat);
            }
            if self.new_lines().len() == 0 {
                lemma_only_old_is_all_removed(ops.deep_view(), context as nat);
            }
        }
        let lines = structured_from_ops(&ops, context);
        assert(lines.deep_view().len() == lines.len());
        lines
    }
}

/// The lines of a report on slices as they are shown: the lines that hold
/// nothing but one square bracket are left out, and the commas at the end of
/// each line are cut off.
pub open spec fn shown_lines(lines: Seq<Seq<char>>) -> Seq<Seq<char>>
    decreases lines.len(),
{
    if lines.len() == 0 {
        Seq::empty()
    } else {
        let before = shown_lines(lines.drop_last());
        let line = lines.last();
        if line == seq!['['] || line == seq![']'] {
            before
        } else {
            before.push(without_trailing(line, ','))
        }
    }
}

/// A report on slices as it is shown.
pub open spec fn shown_report(report: Seq<char>) -> Seq<char> {
    joined(shown_lines(text_lines(report)), seq!['\n'])
}

/// Takes the brackets and the commas out of a report on slices.
pub fn plain_report(report: &str) -> (text: String)
    ensures
        text@ == shown_report(report@),
{
    let lines = split_lines(report);
    let ghost all = lines.deep_view();
    let open = "[".to_string();
    let close = "]".to_string();
    proof {
        reveal_strlit("[");
        reveal_strlit("]");
        reveal_strlit("\n");
        assert("["@ =~= seq!['[']);
        assert("]"@ =~= seq![']']);
        assert("\n"@ =~= seq!['\n']);
    }
    let mut shown: Vec<String> = Vec::new();
    let mut i: usize = 0;
    assert(shown.deep_view() =~= shown_lines(all.take(0)));
    while i < lines.len()
        invariant
            i <= lines.len(),
            all == lines.deep_view(),
            open@ == seq!['['],
            close@ == seq![']'],
            shown.deep_view() == shown_lines(all.take(i as int)),
        decreases lines.len() - i,
    {
        proof {
            assert(all.take(i as int + 1).drop_last() =~= all.take(i as int));
            assert(all.take(i as int + 1).last() == lines[i as int]@);
        }
        if !(lines[i] == open || lines[i] == close) {
            push_text(&mut shown, strip_trailing(lines[i].as_str(), ','));
        }
        i += 1;
    }
    assert(all.take(i as int) =~= all);
    join(&shown, "\n")
}

impl DiffProvider for Diff {
    /// The engine's report on the two sequences of lines, as it is shown.
    fn slice(&self) -> (text: String)
        ensures
            text@ == shown_report(slice_report(self.old_lines(), self.new_lines())),
    {
        let report = report_slice(&self.old, &self.new);
        plain_report(report.as_str())
    }

    /// The engine's report on the two sides, character by character.
    fn chars(&self) -> (text: String)
        ensures
            text@ == chars_report(
                joined(self.old_lines(), seq!['\n']),
                joined(self.new_lines(), seq!['\n']),
            ),
    {
        let (old, new) = self.to_string();
        report_chars(old.as_str(), new.as_str())
    }

    /// The engine's report on the two sides, word by word.
    fn words(&self) -> (text: String)
        ensures
            text@ == words_report(
                joined(self.old_lines(), seq!['\n']),
                joined(self.new_lines(), seq!['\n']),
            ),
    {
        let (old, new) = self.to_string();
        report_words(old.as_str(), new.as_str())
    }

    /// The engine's report on the two sides, line by line.
    fn lines(&self) -> (text: String)
        ensures
            text@ == lines_report(
                joined(self.old_lines(), seq!['\n']),
                joined(self.new_lines(), seq!['\n']),
            ),
    {
        let (old, new) = self.to_string();
        report_lines(old.as_str(), new.as_str())
    }

    /// The structured diff with three lines of context.
    fn lines_structured(&self) -> (lines: Vec<LineDiff>)
        ensures
            lines.deep_view() == structured_lines(
                slice_changes(self.old_lines(), self.new_lines()),
                3,
            ),
    {
        self.lines_structured_with_context(3)
    }
}

/// The structured diff of two sequences of lines, with `context` lines kept
/// around each change.
pub fn structured_diff(old: Vec<String>, new: Vec<String>, context: usize) -> (lines: Vec<
    LineDiff,
>)
    ensures
        lines.deep_view() == structured_lines(
            slice_changes(old.deep_view(), new.deep_view()),
            context as nat,
        ),
        old.deep_view() == new.deep_view() ==> lines.len() == 0,
        old.len() == 0 ==> lines.deep_view() == all_added(new.deep_view()),
        new.len() == 0 ==> lines.deep_view() == all_removed(old.deep_view()),
{
    assert(old.deep_view().len() == old.len());
    assert(new.deep_view().len() == new.len());
    Diff::new(old, new).lines_structured_with_context(context)
}

} // verus!
