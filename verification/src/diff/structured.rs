//! From change runs to numbered, context-pruned diff lines.
//!
//! The runs of a diff are walked in order with two 1-based counters, one for
//! each side. Every run gives one diff line for each of its positions. Of the
//! lines so numbered, those within `context` positions of a change are kept.

use vstd::prelude::*;

use crate::diff::model::{ChangeOp, ChangeRun, DiffLine, DiffType, LineDiff, LineInfo, LineRef};

verus! {

/// The diff line of a line that only the new side has.
pub open spec fn added_line(lineno: nat, content: Seq<char>) -> DiffLine {
    DiffLine { old: None, new: Some(LineRef { lineno, content }), kind: DiffType::Added }
}

/// The diff line of a line that only the old side has.
pub open spec fn removed_line(lineno: nat, content: Seq<char>) -> DiffLine {
    DiffLine { old: Some(LineRef { lineno, content }), new: None, kind: DiffType::Removed }
}

/// The diff line of a line that both sides have.
pub open spec fn equal_line(old_lineno: nat, new_lineno: nat, content: Seq<char>) -> DiffLine {
    DiffLine {
        old: Some(LineRef { lineno: old_lineno, content }),
        new: Some(LineRef { lineno: new_lineno, content }),
        kind: DiffType::Equaled,
    }
}

/// The diff line at position `i` of a replace run: the old and the new line
/// at that position are paired; past the end of the shorter side the line of
/// the longer side stands alone.
pub open spec fn paired_line(
    old_items: Seq<Seq<char>>,
    new_items: Seq<Seq<char>>,
    old_start: nat,
    new_start: nat,
    i: int,
) -> DiffLine {
    if i < old_items.len() && i < new_items.len() {
        DiffLine {
            old: Some(LineRef { lineno: (old_start + i) as nat, content: old_items[i] }),
            new: Some(LineRef { lineno: (new_start + i) as nat, content: new_items[i] }),
            kind: DiffType::Replaced,
        }
    } else if i < old_items.len() {
        removed_line((old_start + i) as nat, old_items[i])
    } else {
        added_line((new_start + i) as nat, new_items[i])
    }
}

/// The diff lines of one run, where `old_start` and `new_start` are the
/// numbers of the next line of each side.
pub open spec fn run_lines(run: ChangeRun, old_start: nat, new_start: nat) -> Seq<DiffLine> {
    match run {
        ChangeRun::Insert(items) => Seq::new(
            items.len(),
            |i: int| added_line((new_start + i) as nat, items[i]),
        ),
        ChangeRun::Remove(items) => Seq::new(
            items.len(),
            |i: int| removed_line((old_start + i) as nat, items[i]),
        ),
        ChangeRun::Equal(items) => Seq::new(
            items.len(),
            |i: int| equal_line((old_start + i) as nat, (new_start + i) as nat, items[i]),
        ),
        ChangeRun::Replace(old_items, new_items) => Seq::new(
            run.span(),
            |i: int| paired_line(old_items, new_items, old_start, new_start, i),
        ),
    }
}

/// How many lines of the old side the runs cover.
pub open spec fn old_count(runs: Seq<ChangeRun>) -> nat
    decreases runs.len(),
{
    if runs.len() == 0 {
        0
    } else {
        old_count(runs.drop_last()) + runs.last().old_side().len()
    }
}

/// How many lines of the new side the runs cover.
pub open spec fn new_count(runs: Seq<ChangeRun>) -> nat
    decreases runs.len(),
{
    if runs.len() == 0 {
        0
    } else {
        new_count(runs.drop_last()) + runs.last().new_side().len()
    }
}

/// All diff lines of the runs, numbered from 1 on each side.
pub open spec fn numbered_lines(runs: Seq<ChangeRun>) -> Seq<DiffLine>
    decreases runs.len(),
{
    if runs.len() == 0 {
        Seq::empty()
    } else {
        let init = runs.drop_last();
        numbered_lines(init) + run_lines(runs.last(), old_count(init) + 1, new_count(init) + 1)
    }
}

/// Is there a change among the first `limit` lines within `context` positions of `i`?
pub open spec fn near_change_before(
    lines: Seq<DiffLine>,
    context: nat,
    limit: int,
    i: int,
) -> bool {
    exists|j: int|
        0 <= j < limit && j < lines.len() && #[trigger] lines[j].is_change() && i - context <= j
            <= i + context
}

/// Is there a change within `context` positions of `i`?
pub open spec fn near_change(lines: Seq<DiffLine>, context: nat, i: int) -> bool {
    near_change_before(lines, context, lines.len() as int, i)
}

/// Of the first `n` lines, those near a change, in their order.
pub open spec fn kept_of_first(lines: Seq<DiffLine>, context: nat, n: nat) -> Seq<DiffLine>
    decreases n,
{
    if n == 0 {
        Seq::empty()
    } else {
        let before = kept_of_first(lines, context, (n - 1) as nat);
        if near_change(lines, context, n - 1) {
            before.push(lines[n - 1])
        } else {
            before
        }
    }
}

/// The lines within `context` positions of a change, in their order. Nothing
/// stands in for the lines left out.
pub open spec fn prune_context(lines: Seq<DiffLine>, context: nat) -> Seq<DiffLine> {
    kept_of_first(lines, context, lines.len())
}

/// The structured diff that the runs give with `context` lines around changes.
pub open spec fn structured_lines(runs: Seq<ChangeRun>, context: nat) -> Seq<DiffLine> {
    prune_context(numbered_lines(runs), context)
}

/// Numbering the runs one after the other is numbering all but the last and
/// then the last from where those ended.
pub proof fn lemma_numbered_lines_step(runs: Seq<ChangeRun>, k: int)
    requires
        0 <= k < runs.len(),
    ensures
        numbered_lines(runs.take(k + 1)) == numbered_lines(runs.take(k)) + run_lines(
            runs[k],
            old_count(runs.take(k)) + 1,
            new_count(runs.take(k)) + 1,
        ),
        old_count(runs.take(k + 1)) == old_count(runs.take(k)) + runs[k].old_side().len(),
        new_count(runs.take(k + 1)) == new_count(runs.take(k)) + runs[k].new_side().len(),
{
    assert(runs.take(k + 1).drop_last() =~= runs.take(k));
    assert(runs.take(k + 1).last() == runs[k]);
}

/// The counts of a prefix of the runs do not exceed the counts of all of them.
pub proof fn lemma_counts_monotone(runs: Seq<ChangeRun>, k: int)
    requires
        0 <= k <= runs.len(),
    ensures
        old_count(runs.take(k)) <= old_count(runs),
        new_count(runs.take(k)) <= new_count(runs),
    decreases runs.len() - k,
{
    if k == runs.len() {
        assert(runs.take(k) =~= runs);
    } else {
        lemma_counts_monotone(runs, k + 1);
        lemma_numbered_lines_step(runs, k);
    }
}

/// Appends a line to a list of diff lines.
fn push_line(raw: &mut Vec<LineDiff>, line: LineDiff)
    ensures
        final(raw).deep_view() == old(raw).deep_view().push(line.deep_view()),
{
    raw.push(line);
    assert(raw.deep_view() =~= old(raw).deep_view().push(line.deep_view()));
}

/// Numbers the lines of every run, walking the runs in order.
pub fn number_lines(ops: &Vec<ChangeOp>) -> (raw: Vec<LineDiff>)
    requires
        old_count(ops.deep_view()) <= usize::MAX,
        new_count(ops.deep_view()) <= usize::MAX,
    ensures
        raw.deep_view() == numbered_lines(ops.deep_view()),
{
    let ghost runs = ops.deep_view();
    let mut raw: Vec<LineDiff> = Vec::new();
    let mut old_seen: usize = 0;
    let mut new_seen: usize = 0;
    let mut k: usize = 0;
    assert(raw.deep_view() =~= numbered_lines(runs.take(0)));
    while k < ops.len()
        invariant
            runs == ops.deep_view(),
            k <= ops.len(),
            old_count(runs) <= usize::MAX,
            new_count(runs) <= usize::MAX,
            old_seen == old_count(runs.take(k as int)),
            new_seen == new_count(runs.take(k as int)),
            raw.deep_view() == numbered_lines(runs.take(k as int)),
        decreases ops.len() - k,
    {
        proof {
            lemma_numbered_lines_step(runs, k as int);
            lemma_counts_monotone(runs, k as int + 1);
        }
        let ghost before = raw.deep_view();
        let ghost run = runs[k as int];
        let ghost expected = run_lines(run, (old_seen + 1) as nat, (new_seen + 1) as nat);
        assert(run == ops@[k as int].deep_view());
        match &ops[k] {
            ChangeOp::Insert(items) => {
                let mut i: usize = 0;
                while i < items.len()
                    invariant
                        i <= items.len(),
                        run == ChangeRun::Insert(items.deep_view()),
                        expected == run_lines(run, (old_seen + 1) as nat, (new_seen + 1) as nat),
                        new_seen + items.len() <= usize::MAX,
                        raw.deep_view() == before + expected.take(i as int),
                    decreases items.len() - i,
                {
                    let line = LineDiff {
                        old: None,
                        new: Some(LineInfo { lineno: new_seen + 1 + i, content: items[i].clone() }),
                        diff_type: DiffType::Added,
                    };
                    assert(line.deep_view() == expected[i as int]);
                    push_line(&mut raw, line);
                    assert(expected.take(i as int + 1) =~= expected.take(i as int).push(
                        expected[i as int],
                    ));
                    i += 1;
                }
                assert(expected.take(i as int) =~= expected);
                new_seen += items.len();
            },
            ChangeOp::Remove(items) => {
                let mut i: usize = 0;
                while i < items.len()
                    invariant
                        i <= items.len(),
                        run == ChangeRun::Remove(items.deep_view()),
                        expected == run_lines(run, (old_seen + 1) as nat, (new_seen + 1) as nat),
                        old_seen + items.len() <= usize::MAX,
                        raw.deep_view() == before + expected.take(i as int),
                    decreases items.len() - i,
                {
                    let line = LineDiff {
                        old: Some(LineInfo { lineno: old_seen + 1 + i, content: items[i].clone() }),
                        new: None,
                        diff_type: DiffType::Removed,
                    };
                    assert(line.deep_view() == expected[i as int]);
                    push_line(&mut raw, line);
                    assert(expected.take(i as int + 1) =~= expected.take(i as int).push(
                        expected[i as int],
                    ));
                    i += 1;
                }
                assert(expected.take(i as int) =~= expected);
                old_seen += items.len();
            },
            ChangeOp::Equal(items) => {
                let mut i: usize = 0;
                while i < items.len()
                    invariant
                        i <= items.len(),
                        run == ChangeRun::Equal(items.deep_view()),
                        expected == run_lines(run, (old_seen + 1) as nat, (new_seen + 1) as nat),
                        old_seen + items.len() <= usize::MAX,
                        new_seen + items.len() <= usize::MAX,
                        raw.deep_view() == before + expected.take(i as int),
                    decreases items.len() - i,
                {
                    let line = LineDiff {
                        old: Some(LineInfo { lineno: old_seen + 1 + i, content: items[i].clone() }),
                        new: Some(LineInfo { lineno: new_seen + 1 + i, content: items[i].clone() }),
                        diff_type: DiffType::Equaled,
                    };
                    assert(line.deep_view() == expected[i as int]);
                    push_line(&mut raw, line);
                    assert(expected.take(i as int + 1) =~= expected.take(i as int).push(
                        expected[i as int],
                    ));
                    i += 1;
                }
                assert(expected.take(i as int) =~= expected);
                old_seen += items.len();
                new_seen += items.len();
            },
            ChangeOp::Replace(old_items, new_items) => {
                let count = if old_items.len() >= new_items.len() {
                    old_items.len()
                } else {
                    new_items.len()
                };
                let mut i: usize = 0;
                while i < count
                    invariant
                        i <= count,
                        count == run.span(),
                        run == ChangeRun::Replace(old_items.deep_view(), new_items.deep_view()),
                        expected == run_lines(run, (old_seen + 1) as nat, (new_seen + 1) as nat),
                        old_seen + old_items.len() <= usize::MAX,
                        new_seen + new_items.len() <= usize::MAX,
                        raw.deep_view() == before + expected.take(i as int),
                    decreases count - i,
                {
                    let old = if i < old_items.len() {
                        Some(LineInfo { lineno: old_seen + 1 + i, content: old_items[i].clone() })
                    } else {
                        None
                    };
                    let new = if i < new_items.len() {
                        Some(LineInfo { lineno: new_seen + 1 + i, content: new_items[i].clone() })
                    } else {
                        None
                    };
                    let diff_type = if i < old_items.len() && i < new_items.len() {
                        DiffType::Replaced
                    } else if i < old_items.len() {
                        DiffType::Removed
                    } else {
                        DiffType::Added
                    };
                    let line = LineDiff { old, new, diff_type };
                    assert(line.deep_view() == expected[i as int]);
                    push_line(&mut raw, line);
                    assert(expected.take(i as int + 1) =~= expected.take(i as int).push(
                        expected[i as int],
                    ));
                    i += 1;
                }
                assert(expected.take(i as int) =~= expected);
                old_seen += old_items.len();
                new_seen += new_items.len();
            },
        }
        k += 1;
    }
    assert(runs.take(k as int) =~= runs);
    raw
}

/// Marks every position that lies within `context` positions of a change.
fn mark_needed(raw: &Vec<LineDiff>, context: usize) -> (needed: Vec<bool>)
    ensures
        needed.len() == raw.len(),
        forall|p: int|
            0 <= p < raw.len() ==> needed[p] == near_change(raw.deep_view(), context as nat, p),
{
    let ghost lines = raw.deep_view();
    let n = raw.len();
    let mut needed: Vec<bool> = Vec::new();
    let mut f: usize = 0;
    while f < n
        invariant
            f <= n,
            needed.len() == f,
            forall|p: int| 0 <= p < f ==> !needed[p],
        decreases n - f,
    {
        needed.push(false);
        f += 1;
    }
    let mut i: usize = 0;
    while i < n
        invariant
            i <= n,
            n == raw.len(),
            lines == raw.deep_view(),
            needed.len() == n,
            forall|p: int|
                0 <= p < n ==> needed[p] == near_change_before(lines, context as nat, i as int, p),
        decreases n - i,
    {
        let ghost marked = needed@;
        let is_change = match raw[i].diff_type {
            DiffType::Equaled => false,
            _ => true,
        };
        assert(is_change == lines[i as int].is_change());
        if is_change {
            let start = if context >= i {
                0
            } else {
                i - context
            };
            let end = if context >= n - i - 1 {
                n
            } else {
                i + context + 1
            };
            let mut p: usize = start;
            while p < end
                invariant
                    start <= p <= end <= n,
                    i < n,
                    start <= i < end,
                    needed.len() == n,
                    marked.len() == n,
                    forall|q: int|
                        0 <= q < n ==> #[trigger] needed[q] == (marked[q] || start <= q < p),
                decreases end - p,
            {
                let ghost so_far = needed@;
                needed.set(p, true);
                assert(needed@ == so_far.update(p as int, true));
                p += 1;
            }
            assert forall|q: int| 0 <= q < n implies needed[q] == near_change_before(
                lines,
                context as nat,
                i as int + 1,
                q,
            ) by {
                let here = start <= q < end;
                assert(here <==> q - context <= i <= q + context);
                if near_change_before(lines, context as nat, i as int + 1, q) {
                    let j = choose|j: int|
                        0 <= j < i as int + 1 && j < lines.len() && #[trigger] lines[j].is_change()
                            && q - context <= j <= q + context;
                    if j < i {
                        assert(near_change_before(lines, context as nat, i as int, q));
                    }
                }
                if marked[q] {
                    let j = choose|j: int|
                        0 <= j < i as int && j < lines.len() && #[trigger] lines[j].is_change()
                            && q - context <= j <= q + context;
                    assert(lines[j].is_change());
                }
                if here {
                    assert(lines[i as int].is_change());
                }
            }
        } else {
            assert forall|q: int| 0 <= q < n implies needed[q] == near_change_before(
                lines,
                context as nat,
                i as int + 1,
                q,
            ) by {
                if near_change_before(lines, context as nat, i as int + 1, q) {
                    let j = choose|j: int|
                        0 <= j < i as int + 1 && j < lines.len() && #[trigger] lines[j].is_change()
                            && q - context <= j <= q + context;
                    assert(j != i);
                    assert(near_change_before(lines, context as nat, i as int, q));
                }
                if marked[q] {
                    let j = choose|j: int|
                        0 <= j < i as int && j < lines.len() && #[trigger] lines[j].is_change()
                            && q - context <= j <= q + context;
                    assert(lines[j].is_change());
                }
            }
        }
        i += 1;
    }
    needed
}

/// Keeps the marked lines, in their order.
fn keep_marked(raw: Vec<LineDiff>, needed: &Vec<bool>, Ghost(context): Ghost<nat>) -> (kept: Vec<
    LineDiff,
>)
    requires
        needed.len() == raw.len(),
        forall|p: int| 0 <= p < raw.len() ==> needed[p] == near_change(raw.deep_view(), context, p),
    ensures
        kept.deep_view() == prune_context(raw.deep_view(), context),
{
    let ghost lines = raw.deep_view();
    let n = raw.len();
    let mut raw = raw;
    let mut kept: Vec<LineDiff> = Vec::new();
    // The lines are taken from the end, so the kept ones are collected in reverse.
    let mut back: Vec<LineDiff> = Vec::new();
    let mut i: usize = n;
    while i > 0
        invariant
            i <= n,
            raw.len() == i,
            needed.len() == n,
            lines.len() == n,
            raw.deep_view() == lines.take(i as int),
            forall|p: int| 0 <= p < n ==> needed[p] == near_change(lines, context, p),
            kept_of_first(lines, context, n as nat) == kept_of_first(lines, context, i as nat)
                + back.deep_view().reverse(),
        decreases i,
    {
        let ghost rest = back.deep_view();
        let ghost shorter = raw.deep_view();
        let line = raw.pop().unwrap();
        i -= 1;
        assert(line.deep_view() == lines[i as int]) by {
            assert(shorter[i as int] == lines.take(i as int + 1)[i as int]);
        }
        assert(raw.deep_view() =~= lines.take(i as int));
        if needed[i] {
            push_line(&mut back, line);
            assert(back.deep_view().reverse() =~= seq![lines[i as int]] + rest.reverse());
            assert(kept_of_first(lines, context, (i + 1) as nat) + rest.reverse()
                =~= kept_of_first(lines, context, i as nat) + back.deep_view().reverse());
        }
    }
    assert(kept_of_first(lines, context, 0) + back.deep_view().reverse()
        =~= back.deep_view().reverse());
    let ghost all = back.deep_view();
    let m = back.len();
    let mut j: usize = m;
    while j > 0
        invariant
            j <= m,
            back.len() == j,
            all.len() == m,
            back.deep_view() == all.take(j as int),
            kept.deep_view() == all.reverse().take(m - j),
        decreases j,
    {
        let ghost shorter = back.deep_view();
        let line = back.pop().unwrap();
        j -= 1;
        assert(line.deep_view() == all[j as int]) by {
            assert(shorter[j as int] == all.take(j as int + 1)[j as int]);
        }
        assert(back.deep_view() =~= all.take(j as int));
        push_line(&mut kept, line);
        assert(kept.deep_view() =~= all.reverse().take(m - j));
    }
    assert(all.reverse().take(m as int) =~= all.reverse());
    kept
}

/// Builds the structured diff of the runs: every line is numbered, and the
/// lines within `context` positions of a change are kept.
pub fn structured_from_ops(ops: &Vec<ChangeOp>, context: usize) -> (lines: Vec<LineDiff>)
    requires
        old_count(ops.deep_view()) <= usize::MAX,
        new_count(ops.deep_view()) <= usize::MAX,
    ensures
        lines.deep_view() == structured_lines(ops.deep_view(), context as nat),
{
    let raw = number_lines(ops);
    let needed = mark_needed(&raw, context);
    keep_marked(raw, &needed, Ghost(context as nat))
}

} // verus!
