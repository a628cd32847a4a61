//! The diff engine: `prettydiff` computes the runs of a diff and renders the
//! coloured reports. Nothing here is proved; each contract states what is
//! taken on trust from that crate.

use prettydiff::basic::DiffOp;
use vstd::prelude::*;

use crate::diff::model::{ChangeOp, ChangeRun};

verus! {

/// The runs that the engine finds between two sequences of lines.
pub uninterp spec fn slice_changes(old: Seq<Seq<char>>, new: Seq<Seq<char>>) -> Seq<ChangeRun>;

/// The engine's report on two sequences of lines.
pub uninterp spec fn slice_report(old: Seq<Seq<char>>, new: Seq<Seq<char>>) -> Seq<char>;

/// The engine's report on two texts, character by character.
pub uninterp spec fn chars_report(old: Seq<char>, new: Seq<char>) -> Seq<char>;

/// The engine's report on two texts, word by word.
pub uninterp spec fn words_report(old: Seq<char>, new: Seq<char>) -> Seq<char>;

/// The engine's report on two texts, line by line.
pub uninterp spec fn lines_report(old: Seq<char>, new: Seq<char>) -> Seq<char>;

/// The lines of the old side that the runs cover, in order.
pub open spec fn old_lines_of(runs: Seq<ChangeRun>) -> Seq<Seq<char>>
    decreases runs.len(),
{
    if runs.len() == 0 {
        Seq::empty()
    } else {
        old_lines_of(runs.drop_last()) + runs.last().old_side()
    }
}

/// The lines of the new side that the runs cover, in order.
pub open spec fn new_lines_of(runs: Seq<ChangeRun>) -> Seq<Seq<char>>
    decreases runs.len(),
{
    if runs.len() == 0 {
        Seq::empty()
    } else {
        new_lines_of(runs.drop_last()) + runs.last().new_side()
    }
}

/// Runs that change nothing.
pub open spec fn all_equal(runs: Seq<ChangeRun>) -> bool {
    forall|k: int| 0 <= k < runs.len() ==> #[trigger] runs[k] is Equal
}

/// `prettydiff::diff_slice`, with each run copied out of the borrowed slices.
/// Taken on trust: the runs depend on the two sequences alone; the old sides
/// of the runs, one after the other, are the old sequence, and the new sides
/// the new one; and between two sequences that are the same the engine finds
/// runs of unchanged lines only, since then its longest common subsequence is
/// the whole sequence.
#[verifier::external_body]
pub(crate) fn diff_ops(old: &Vec<String>, new: &Vec<String>) -> (ops: Vec<ChangeOp>)
    ensures
        ops.deep_view() == slice_changes(old.deep_view(), new.deep_view()),
        old_lines_of(ops.deep_view()) == old.deep_view(),
        new_lines_of(ops.deep_view()) == new.deep_view(),
        old.deep_view() == new.deep_view() ==> all_equal(ops.deep_view()),
{
    prettydiff::diff_slice(old.as_slice(), new.as_slice()).diff.into_iter().map(|op| match op {
        DiffOp::Insert(a) => ChangeOp::Insert(a.to_vec()),
        DiffOp::Remove(a) => ChangeOp::Remove(a.to_vec()),
        DiffOp::Equal(a) => ChangeOp::Equal(a.to_vec()),
        DiffOp::Replace(a, b) => ChangeOp::Replace(a.to_vec(), b.to_vec()),
    }).collect()
}

/// `prettydiff::diff_slice` and the `Display` of what it returns: the report
/// depends on the two sequences alone.
#[verifier::external_body]
pub(crate) fn report_slice(old: &Vec<String>, new: &Vec<String>) -> (report: String)
    ensures
        report@ == slice_report(old.deep_view(), new.deep_view()),
{
    prettydiff::diff_slice(old.as_slice(), new.as_slice()).to_string()
}

/// `prettydiff::diff_chars`, formatted without highlighting of white space:
/// the report depends on the two texts alone.
#[verifier::external_body]
pub(crate) fn report_chars(old: &str, new: &str) -> (report: String)
    ensures
        report@ == chars_report(old@, new@),
{
    prettydiff::diff_chars(old, new).set_highlight_whitespace(false).format()
}

/// `prettydiff::diff_words`, formatted without highlighting of white space:
/// the report depends on the two texts alone.
#[verifier::external_body]
pub(crate) fn report_words(old: &str, new: &str) -> (report: String)
    ensures
        report@ == words_report(old@, new@),
{
    prettydiff::diff_words(old, new).set_highlight_whitespace(false).format()
}

/// `prettydiff::diff_lines`, formatted: the report depends on the two texts
/// alone.
#[verifier::external_body]
pub(crate) fn report_lines(old: &str, new: &str) -> (report: String)
    ensures
        report@ == lines_report(old@, new@),
{
    prettydiff::diff_lines(old, new).format()
}

} // verus!
