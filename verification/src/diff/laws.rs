//! What holds of every structured diff.
//!
//! Numbering counts each side from 1 without a gap, every line has the shape
//! of its kind, every change is kept and every line kept stands near one, and
//! sides that are the same give nothing.

use vstd::prelude::*;

use crate::diff::engine::{all_equal, new_lines_of, old_lines_of};
use crate::diff::model::{ChangeRun, DiffLine, LineRef};
use crate::diff::structured::{
    added_line, kept_of_first, near_change, new_count, numbered_lines, old_count, removed_line,
    run_lines, structured_lines,
};

verus! {

/// The counts of the runs are the lengths of the two sides that they cover.
pub proof fn lemma_count_is_length(runs: Seq<ChangeRun>)
    ensures
        old_count(runs) == old_lines_of(runs).len(),
        new_count(runs) == new_lines_of(runs).len(),
    decreases runs.len(),
{
    if runs.len() > 0 {
        lemma_count_is_length(runs.drop_last());
    }
}

/// Runs that change nothing give no changed line.
pub proof fn lemma_unchanged_runs_number_no_change(runs: Seq<ChangeRun>)
    requires
        all_equal(runs),
    ensures
        forall|i: int|
            0 <= i < numbered_lines(runs).len() ==> !(#[trigger] numbered_lines(runs)[i]).is_change(),
    decreases runs.len(),
{
    if runs.len() > 0 {
        let init = runs.drop_last();
        assert forall|k: int| 0 <= k < init.len() implies #[trigger] init[k] is Equal by {
            assert(init[k] == runs[k]);
        }
        lemma_unchanged_runs_number_no_change(init);
        assert(runs.last() == runs[runs.len() - 1]);
        assert(runs.last() is Equal);
        let head = numbered_lines(init);
        let tail = run_lines(runs.last(), old_count(init) + 1, new_count(init) + 1);
        assert forall|i: int| 0 <= i < numbered_lines(runs).len() implies !(
        #[trigger] numbered_lines(runs)[i]).is_change() by {
            if i < head.len() {
                assert(numbered_lines(runs)[i] == head[i]);
            } else {
                assert(numbered_lines(runs)[i] == tail[i - head.len()]);
            }
        }
    }
}

/// Where no line is a change, no line is kept, whatever the context.
pub proof fn lemma_no_change_keeps_nothing(lines: Seq<DiffLine>, context: nat, n: nat)
    requires
        forall|i: int| 0 <= i < lines.len() ==> !(#[trigger] lines[i]).is_change(),
    ensures
        kept_of_first(lines, context, n) == Seq::<DiffLine>::empty(),
    decreases n,
{
    if n > 0 {
        lemma_no_change_keeps_nothing(lines, context, (n - 1) as nat);
        assert(!near_change(lines, context, n - 1));
    }
}

/// The structured diff of runs that change nothing is empty for every
/// context: lines that are the same on both sides are shown only around
/// changes.
pub proof fn lemma_unchanged_gives_nothing(runs: Seq<ChangeRun>, context: nat)
    requires
        all_equal(runs),
    ensures
        structured_lines(runs, context) == Seq::<DiffLine>::empty(),
{
    lemma_unchanged_runs_number_no_change(runs);
    lemma_no_change_keeps_nothing(numbered_lines(runs), context, numbered_lines(runs).len());
}

/// Every line that numbering gives has the shape of its kind: an added line
/// has a new side only, a removed line an old side only, a replaced line has
/// both, and an unchanged line has both with the same content.
pub proof fn lemma_numbered_lines_well_formed(runs: Seq<ChangeRun>)
    ensures
        forall|i: int|
            0 <= i < numbered_lines(runs).len() ==> (#[trigger] numbered_lines(runs)[i]).well_formed(),
    decreases runs.len(),
{
    if runs.len() > 0 {
        let init = runs.drop_last();
        lemma_numbered_lines_well_formed(init);
        let head = numbered_lines(init);
        let tail = run_lines(runs.last(), old_count(init) + 1, new_count(init) + 1);
        assert forall|i: int| 0 <= i < numbered_lines(runs).len() implies (
        #[trigger] numbered_lines(runs)[i]).well_formed() by {
            if i < head.len() {
                assert(numbered_lines(runs)[i] == head[i]);
            } else {
                assert(numbered_lines(runs)[i] == tail[i - head.len()]);
            }
        }
    }
}

/// Numbering gives as many lines as the runs span.
pub open spec fn total_span(runs: Seq<ChangeRun>) -> nat
    decreases runs.len(),
{
    if runs.len() == 0 {
        0
    } else {
        total_span(runs.drop_last()) + runs.last().span()
    }
}

/// Numbering gives one line for each position of each run.
pub proof fn lemma_numbered_lines_len(runs: Seq<ChangeRun>)
    ensures
        numbered_lines(runs).len() == total_span(runs),
    decreases runs.len(),
{
    if runs.len() > 0 {
        lemma_numbered_lines_len(runs.drop_last());
    }
}

/// Whether `line` is one of the first `n` lines that stands near a change.
pub open spec fn is_near_line(lines: Seq<DiffLine>, context: nat, n: nat, line: DiffLine) -> bool {
    exists|i: int| 0 <= i < n && near_change(lines, context, i) && #[trigger] lines[i] == line
}

/// Pruning keeps lines of the diff and does not add any: what is kept is no
/// longer than what was there, and each line kept is one that stands near a
/// change.
pub proof fn lemma_kept_is_shorter(lines: Seq<DiffLine>, context: nat, n: nat)
    requires
        n <= lines.len(),
    ensures
        kept_of_first(lines, context, n).len() <= n,
        forall|k: int|
            0 <= k < kept_of_first(lines, context, n).len() ==> is_near_line(
                lines,
                context,
                n,
                #[trigger] kept_of_first(lines, context, n)[k],
            ),
    decreases n,
{
    if n > 0 {
        lemma_kept_is_shorter(lines, context, (n - 1) as nat);
        let before = kept_of_first(lines, context, (n - 1) as nat);
        let now = kept_of_first(lines, context, n);
        assert forall|k: int| 0 <= k < now.len() implies is_near_line(
            lines,
            context,
            n,
            #[trigger] now[k],
        ) by {
            if k < before.len() {
                assert(is_near_line(lines, context, (n - 1) as nat, before[k]));
                let i = choose|i: int|
                    0 <= i < n - 1 && near_change(lines, context, i) && #[trigger] lines[i]
                        == before[k];
                assert(lines[i] == now[k]);
            } else {
                assert(lines[n - 1] == now[k]);
            }
        }
    }
}

/// A change is near itself, so every change is kept, whatever the context.
pub proof fn lemma_change_is_near(lines: Seq<DiffLine>, context: nat, i: int)
    requires
        0 <= i < lines.len(),
        lines[i].is_change(),
    ensures
        near_change(lines, context, i),
{
}

/// Where every line is a change, pruning keeps every line.
pub proof fn lemma_all_changes_kept(lines: Seq<DiffLine>, context: nat, n: nat)
    requires
        n <= lines.len(),
        forall|i: int| 0 <= i < lines.len() ==> (#[trigger] lines[i]).is_change(),
    ensures
        kept_of_first(lines, context, n) == lines.take(n as int),
    decreases n,
{
    if n > 0 {
        lemma_all_changes_kept(lines, context, (n - 1) as nat);
        lemma_change_is_near(lines, context, n - 1);
        assert(lines.take(n - 1).push(lines[n - 1]) =~= lines.take(n as int));
    } else {
        assert(lines.take(0) =~= Seq::<DiffLine>::empty());
    }
}

/// With no context, exactly the changes are kept.
pub proof fn lemma_no_context_keeps_changes(lines: Seq<DiffLine>, i: int)
    requires
        0 <= i < lines.len(),
    ensures
        near_change(lines, 0, i) == lines[i].is_change(),
{
    if near_change(lines, 0, i) {
        let j = choose|j: int|
            0 <= j < lines.len() && j < lines.len() && #[trigger] lines[j].is_change() && i <= j
                <= i;
        assert(j == i);
    }
}

/// The lines that stand for new lines which have nothing on the old side.
pub open spec fn all_added(new: Seq<Seq<char>>) -> Seq<DiffLine> {
    Seq::new(new.len(), |i: int| added_line((i + 1) as nat, new[i]))
}

/// The lines that stand for old lines which have nothing on the new side.
pub open spec fn all_removed(old: Seq<Seq<char>>) -> Seq<DiffLine> {
    Seq::new(old.len(), |i: int| removed_line((i + 1) as nat, old[i]))
}

/// Runs that cover no old line number to one added line for each new line.
pub proof fn lemma_nothing_old_numbers_added(runs: Seq<ChangeRun>)
    requires
        old_lines_of(runs).len() == 0,
    ensures
        numbered_lines(runs) == all_added(new_lines_of(runs)),
    decreases runs.len(),
{
    if runs.len() > 0 {
        let init = runs.drop_last();
        let last = runs.last();
        assert(old_lines_of(init).len() == 0 && last.old_side().len() == 0);
        lemma_nothing_old_numbers_added(init);
        lemma_count_is_length(init);
        let tail = run_lines(last, old_count(init) + 1, new_count(init) + 1);
        assert(numbered_lines(runs) =~= all_added(new_lines_of(runs))) by {
            let head = numbered_lines(init);
            let whole = all_added(new_lines_of(runs));
            assert(tail.len() == last.new_side().len());
            assert forall|i: int| 0 <= i < whole.len() implies (head + tail)[i] == whole[i] by {
                if i >= head.len() {
                    assert((head + tail)[i] == tail[i - head.len()]);
                    assert(new_lines_of(runs)[i] == last.new_side()[i - head.len()]);
                } else {
                    assert(new_lines_of(runs)[i] == new_lines_of(init)[i]);
                }
            }
        }
    } else {
        assert(numbered_lines(runs) =~= all_added(new_lines_of(runs)));
    }
}

/// Runs that cover no new line number to one removed line for each old line.
pub proof fn lemma_nothing_new_numbers_removed(runs: Seq<ChangeRun>)
    requires
        new_lines_of(runs).len() == 0,
    ensures
        numbered_lines(runs) == all_removed(old_lines_of(runs)),
    decreases runs.len(),
{
    if runs.len() > 0 {
        let init = runs.drop_last();
        let last = runs.last();
        assert(new_lines_of(init).len() == 0 && last.new_side().len() == 0);
        lemma_nothing_new_numbers_removed(init);
        lemma_count_is_length(init);
        let tail = run_lines(last, old_count(init) + 1, new_count(init) + 1);
        assert(numbered_lines(runs) =~= all_removed(old_lines_of(runs))) by {
            let head = numbered_lines(init);
            let whole = all_removed(old_lines_of(runs));
            assert(tail.len() == last.old_side().len());
            assert forall|i: int| 0 <= i < whole.len() implies (head + tail)[i] == whole[i] by {
                if i >= head.len() {
                    assert((head + tail)[i] == tail[i - head.len()]);
                    assert(old_lines_of(runs)[i] == last.old_side()[i - head.len()]);
                } else {
                    assert(old_lines_of(runs)[i] == old_lines_of(init)[i]);
                }
            }
        }
    } else {
        assert(numbered_lines(runs) =~= all_removed(old_lines_of(runs)));
    }
}

/// Where the old side is empty, the structured diff is one added line for
/// each line of the new side, numbered from 1, whatever the context.
pub proof fn lemma_only_new_is_all_added(runs: Seq<ChangeRun>, context: nat)
    requires
        old_lines_of(runs).len() == 0,
    ensures
        structured_lines(runs, context) == all_added(new_lines_of(runs)),
{
    lemma_nothing_old_numbers_added(runs);
    let lines = numbered_lines(runs);
    lemma_all_changes_kept(lines, context, lines.len());
    assert(lines.take(lines.len() as int) =~= lines);
}

/// Where the new side is empty, the structured diff is one removed line for
/// each line of the old side, numbered from 1, whatever the context.
pub proof fn lemma_only_old_is_all_removed(runs: Seq<ChangeRun>, context: nat)
    requires
        new_lines_of(runs).len() == 0,
    ensures
        structured_lines(runs, context) == all_removed(old_lines_of(runs)),
{
    lemma_nothing_new_numbers_removed(runs);
    let lines = numbered_lines(runs);
    lemma_all_changes_kept(lines, context, lines.len());
    assert(lines.take(lines.len() as int) =~= lines);
}

/// Every line of a structured diff has the shape of its kind.
pub proof fn lemma_structured_lines_well_formed(runs: Seq<ChangeRun>, context: nat)
    ensures
        forall|k: int|
            0 <= k < structured_lines(runs, context).len() ==> (#[trigger] structured_lines(
                runs,
                context,
            )[k]).well_formed(),
{
    let lines = numbered_lines(runs);
    lemma_numbered_lines_well_formed(runs);
    lemma_kept_is_shorter(lines, context, lines.len());
    assert forall|k: int| 0 <= k < structured_lines(runs, context).len() implies (
    #[trigger] structured_lines(runs, context)[k]).well_formed() by {
        let kept = structured_lines(runs, context)[k];
        assert(is_near_line(lines, context, lines.len(), kept));
        let i = choose|i: int|
            0 <= i < lines.len() && near_change(lines, context, i) && #[trigger] lines[i] == kept;
        assert(lines[i].well_formed());
    }
}

/// The lines of one side, numbered from `first` on.
pub open spec fn numbered_from(side: Seq<Seq<char>>, first: nat) -> Seq<LineRef> {
    Seq::new(side.len(), |i: int| LineRef { lineno: (first + i) as nat, content: side[i] })
}

/// The old sides of the diff lines that have one, in order.
pub open spec fn old_refs(lines: Seq<DiffLine>) -> Seq<LineRef>
    decreases lines.len(),
{
    if lines.len() == 0 {
        Seq::empty()
    } else {
        match lines.last().old {
            Some(line) => old_refs(lines.drop_last()).push(line),
            None => old_refs(lines.drop_last()),
        }
    }
}

/// The new sides of the diff lines that have one, in order.
pub open spec fn new_refs(lines: Seq<DiffLine>) -> Seq<LineRef>
    decreases lines.len(),
{
    if lines.len() == 0 {
        Seq::empty()
    } else {
        match lines.last().new {
            Some(line) => new_refs(lines.drop_last()).push(line),
            None => new_refs(lines.drop_last()),
        }
    }
}

/// The sides of diff lines one after the other are the sides of the first
/// lines followed by the sides of the others.
pub proof fn lemma_refs_of_both(head: Seq<DiffLine>, tail: Seq<DiffLine>)
    ensures
        old_refs(head + tail) == old_refs(head) + old_refs(tail),
        new_refs(head + tail) == new_refs(head) + new_refs(tail),
    decreases tail.len(),
{
    if tail.len() == 0 {
        assert(head + tail =~= head);
        assert(old_refs(head) + old_refs(tail) =~= old_refs(head));
        assert(new_refs(head) + new_refs(tail) =~= new_refs(head));
    } else {
        let whole = head + tail;
        assert(whole.drop_last() =~= head + tail.drop_last());
        assert(whole.last() == tail.last());
        lemma_refs_of_both(head, tail.drop_last());
        assert(old_refs(whole) =~= old_refs(head) + old_refs(tail));
        assert(new_refs(whole) =~= new_refs(head) + new_refs(tail));
    }
}

/// The first `n` lines of a run hold, on each side, the lines of that side
/// that stand before position `n`, numbered from where the run starts.
proof fn lemma_run_refs_upto(run: ChangeRun, old_start: nat, new_start: nat, n: int)
    requires
        0 <= n <= run.span(),
    ensures
        old_refs(run_lines(run, old_start, new_start).take(n)) == numbered_from(
            run.old_side(),
            old_start,
        ).take(if n <= run.old_side().len() { n } else { run.old_side().len() as int }),
        new_refs(run_lines(run, old_start, new_start).take(n)) == numbered_from(
            run.new_side(),
            new_start,
        ).take(if n <= run.new_side().len() { n } else { run.new_side().len() as int }),
    decreases n,
{
    let lines = run_lines(run, old_start, new_start);
    let olds = numbered_from(run.old_side(), old_start);
    let news = numbered_from(run.new_side(), new_start);
    if n == 0 {
        assert(old_refs(lines.take(0)) =~= olds.take(0));
        assert(new_refs(lines.take(0)) =~= news.take(0));
    } else {
        lemma_run_refs_upto(run, old_start, new_start, n - 1);
        assert(lines.take(n).drop_last() =~= lines.take(n - 1));
        assert(lines.take(n).last() == lines[n - 1]);
        let at_old = if n <= run.old_side().len() { n } else { run.old_side().len() as int };
        let at_new = if n <= run.new_side().len() { n } else { run.new_side().len() as int };
        if lines[n - 1].old is Some {
            assert(olds.take(n - 1).push(olds[n - 1]) =~= olds.take(n));
        }
        if lines[n - 1].new is Some {
            assert(news.take(n - 1).push(news[n - 1]) =~= news.take(n));
        }
        assert(old_refs(lines.take(n)) =~= olds.take(at_old));
        assert(new_refs(lines.take(n)) =~= news.take(at_new));
    }
}

/// The lines of a run hold, on each side, the lines of that side, numbered
/// from where the run starts.
pub proof fn lemma_run_refs(run: ChangeRun, old_start: nat, new_start: nat)
    ensures
        old_refs(run_lines(run, old_start, new_start)) == numbered_from(run.old_side(), old_start),
        new_refs(run_lines(run, old_start, new_start)) == numbered_from(run.new_side(), new_start),
{
    let lines = run_lines(run, old_start, new_start);
    lemma_run_refs_upto(run, old_start, new_start, run.span() as int);
    assert(lines.take(run.span() as int) =~= lines);
    let olds = numbered_from(run.old_side(), old_start);
    let news = numbered_from(run.new_side(), new_start);
    assert(olds.take(olds.len() as int) =~= olds);
    assert(news.take(news.len() as int) =~= news);
}

/// Numbering keeps the count of each side: the old sides of the numbered
/// lines are the old lines that the runs cover, each once and in order,
/// numbered from 1 without a gap; and so are the new sides.
pub proof fn lemma_numbering_counts_each_side(runs: Seq<ChangeRun>)
    ensures
        old_refs(numbered_lines(runs)) == numbered_from(old_lines_of(runs), 1),
        new_refs(numbered_lines(runs)) == numbered_from(new_lines_of(runs), 1),
    decreases runs.len(),
{
    if runs.len() == 0 {
        assert(old_refs(numbered_lines(runs)) =~= numbered_from(old_lines_of(runs), 1));
        assert(new_refs(numbered_lines(runs)) =~= numbered_from(new_lines_of(runs), 1));
    } else {
        let init = runs.drop_last();
        let last = runs.last();
        lemma_numbering_counts_each_side(init);
        lemma_count_is_length(init);
        let tail = run_lines(last, old_count(init) + 1, new_count(init) + 1);
        lemma_refs_of_both(numbered_lines(init), tail);
        lemma_run_refs(last, old_count(init) + 1, new_count(init) + 1);
        assert(numbered_from(old_lines_of(init), 1) + numbered_from(
            last.old_side(),
            old_count(init) + 1,
        ) =~= numbered_from(old_lines_of(runs), 1));
        assert(numbered_from(new_lines_of(init), 1) + numbered_from(
            last.new_side(),
            new_count(init) + 1,
        ) =~= numbered_from(new_lines_of(runs), 1));
    }
}

} // verus!
