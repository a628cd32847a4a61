//! The paths that differ between two trees, and the order they are listed in.
//!
//! Paths are ordered by their components, not by their text: the first
//! component that differs decides, and of two paths that agree on all the
//! components they share the shallower one comes first.

use vstd::prelude::*;
use vstd::string::*;

use crate::text::{chars_of, lemma_position_of_is, position_of, push_text};

verus! {

/// How a file changed between two trees.
#[derive(Debug, Clone, Copy, PartialEq, Eq, Structural)]
pub enum DeltaStatus {
    Unmodified,
    Added,
    Deleted,
    Modified,
    Renamed,
    Copied,
    Ignored,
    Untracked,
    Typechange,
    Unreadable,
    Conflicted,
}

/// One entry of the delta between two trees.
#[derive(Debug, PartialEq, Eq)]
pub struct DeltaEntry {
    pub status: DeltaStatus,
    /// The path of the file in the base tree, where it has one.
    pub old_path: Option<String>,
    /// The path of the file in the target tree, where it has one.
    pub new_path: Option<String>,
}

/// The mathematical value of a `DeltaEntry`.
pub ghost struct Delta {
    pub status: DeltaStatus,
    pub old_path: Option<Seq<char>>,
    pub new_path: Option<Seq<char>>,
}

impl DeepView for DeltaEntry {
    type V = Delta;

    open spec fn deep_view(&self) -> Delta {
        Delta {
            status: self.status,
            old_path: self.old_path.deep_view(),
            new_path: self.new_path.deep_view(),
        }
    }
}

impl Delta {
    /// The path an entry is listed under: the old path of a deleted file;
    /// else the new path, or the old one where there is no new one.
    pub open spec fn reported_path(self) -> Option<Seq<char>> {
        if self.status == DeltaStatus::Deleted {
            self.old_path
        } else if self.new_path is Some {
            self.new_path
        } else {
            self.old_path
        }
    }
}

/// The paths that the entries are listed under, in the order of the entries.
/// An entry without a path is left out.
pub open spec fn reported_paths(entries: Seq<Delta>) -> Seq<Seq<char>>
    decreases entries.len(),
{
    if entries.len() == 0 {
        Seq::empty()
    } else {
        let before = reported_paths(entries.drop_last());
        match entries.last().reported_path() {
            Some(path) => before.push(path),
            None => before,
        }
    }
}

/// The components of a path: the pieces between its slashes. Empty pieces do
/// not count.
pub open spec fn components(path: Seq<char>) -> Seq<Seq<char>>
    decreases path.len(),
{
    let at = position_of(path, '/');
    if path.len() == 0 {
        Seq::empty()
    } else if 0 <= at < path.len() {
        let rest = components(path.subrange(at + 1, path.len() as int));
        if at == 0 {
            rest
        } else {
            seq![path.subrange(0, at)] + rest
        }
    } else {
        seq![path]
    }
}

/// The depth of a path: one less than the number of its components.
pub open spec fn depth(parts: Seq<Seq<char>>) -> nat {
    if parts.len() == 0 {
        0
    } else {
        (parts.len() - 1) as nat
    }
}

/// Whether text `a` stands before text `b`: at the first position where they
/// differ `a` has the smaller character, or `a` is a proper prefix of `b`.
pub open spec fn text_before(a: Seq<char>, b: Seq<char>) -> bool
    decreases a.len(),
{
    if b.len() == 0 {
        false
    } else if a.len() == 0 {
        true
    } else if a[0] != b[0] {
        a[0] < b[0]
    } else {
        text_before(a.drop_first(), b.drop_first())
    }
}

/// Whether a path of components `a` is listed before one of components `b`,
/// where `a_depth` and `b_depth` are the depths of the whole paths: the first
/// pair of components that differ decides; where one runs out, the depths do.
pub open spec fn parts_before(
    a: Seq<Seq<char>>,
    b: Seq<Seq<char>>,
    a_depth: nat,
    b_depth: nat,
) -> bool
    decreases a.len(),
{
    if a.len() == 0 || b.len() == 0 {
        a_depth < b_depth
    } else if a[0] != b[0] {
        text_before(a[0], b[0])
    } else {
        parts_before(a.drop_first(), b.drop_first(), a_depth, b_depth)
    }
}

/// Whether path `a` is listed before path `b`.
pub open spec fn path_before(a: Seq<char>, b: Seq<char>) -> bool {
    parts_before(components(a), components(b), depth(components(a)), depth(components(b)))
}

/// A list of paths in order with one more path put in: it goes behind every
/// path that it is not listed before.
pub open spec fn inserted(sorted: Seq<Seq<char>>, path: Seq<char>) -> Seq<Seq<char>>
    decreases sorted.len(),
{
    if sorted.len() > 0 && path_before(path, sorted.last()) {
        inserted(sorted.drop_last(), path).push(sorted.last())
    } else {
        sorted.push(path)
    }
}

/// The paths in listing order. Paths of which neither is listed before the
/// other keep the order they came in.
pub open spec fn ordered(paths: Seq<Seq<char>>) -> Seq<Seq<char>>
    decreases paths.len(),
{
    if paths.len() == 0 {
        Seq::empty()
    } else {
        inserted(ordered(paths.drop_last()), paths.last())
    }
}

/// Where two texts first differ: they agree before `at`, and at `at` one of
/// them ends or they hold different characters.
pub open spec fn first_difference(a: Seq<char>, b: Seq<char>, at: int) -> bool {
    &&& 0 <= at <= a.len()
    &&& at <= b.len()
    &&& forall|k: int| 0 <= k < at ==> a[k] == b[k]
    &&& at == a.len() || at == b.len() || a[at] != b[at]
}

/// What the place where two texts first differ says of their order.
pub proof fn lemma_text_before_at(a: Seq<char>, b: Seq<char>, at: int)
    requires
        first_difference(a, b, at),
    ensures
        (a == b) == (at == a.len() && at == b.len()),
        text_before(a, b) == (at < b.len() && (at == a.len() || a[at] < b[at])),
    decreases at,
{
    if at == 0 {
        if a.len() == 0 && b.len() == 0 {
            assert(a =~= b);
        }
    } else {
        let a1 = a.drop_first();
        let b1 = b.drop_first();
        assert forall|k: int| 0 <= k < at - 1 implies a1[k] == b1[k] by {
            assert(a1[k] == a[k + 1]);
        }
        lemma_text_before_at(a1, b1, at - 1);
        assert(a[0] == b[0]);
        if a1 == b1 {
            assert(a =~= seq![a[0]] + a1);
            assert(b =~= seq![b[0]] + b1);
        }
    }
}

/// Finds where two texts first differ.
fn find_difference(a: &Vec<char>, b: &Vec<char>) -> (at: usize)
    ensures
        first_difference(a@, b@, at as int),
{
    let mut at: usize = 0;
    while at < a.len() && at < b.len() && a[at] == b[at]
        invariant
            at <= a.len(),
            at <= b.len(),
            forall|k: int| 0 <= k < at ==> a[k] == b[k],
        decreases a.len() - at,
    {
        at += 1;
    }
    at
}

/// Where two lists of components first differ.
pub open spec fn first_split(a: Seq<Seq<char>>, b: Seq<Seq<char>>, at: int) -> bool {
    &&& 0 <= at <= a.len()
    &&& at <= b.len()
    &&& forall|k: int| 0 <= k < at ==> a[k] == b[k]
    &&& at == a.len() || at == b.len() || a[at] != b[at]
}

/// What the place where two lists of components first differ says of the
/// order of the paths.
pub proof fn lemma_parts_before_at(
    a: Seq<Seq<char>>,
    b: Seq<Seq<char>>,
    a_depth: nat,
    b_depth: nat,
    at: int,
)
    requires
        first_split(a, b, at),
    ensures
        parts_before(a, b, a_depth, b_depth) == (if at == a.len() || at == b.len() {
            a_depth < b_depth
        } else {
            text_before(a[at], b[at])
        }),
    decreases at,
{
    if at > 0 {
        let a1 = a.drop_first();
        let b1 = b.drop_first();
        assert forall|k: int| 0 <= k < at - 1 implies a1[k] == b1[k] by {
            assert(a1[k] == a[k + 1]);
        }
        lemma_parts_before_at(a1, b1, a_depth, b_depth, at - 1);
        assert(a[0] == b[0]);
    }
}

/// A changed path with its components, kept while the paths are ordered.
pub struct ChangedPath {
    path: String,
    parts: Vec<Vec<char>>,
    depth: usize,
}

impl ChangedPath {
    /// The text of the path.
    pub closed spec fn text(&self) -> Seq<char> {
        self.path@
    }

    /// The components and the depth are those of the path.
    pub closed spec fn well_formed(&self) -> bool {
        &&& self.parts.deep_view() == components(self.path@)
        &&& self.depth == depth(components(self.path@))
    }

    /// Splits a path into its components.
    pub fn new(path: String) -> (entry: Self)
        ensures
            entry.well_formed(),
            entry.text() == path@,
    {
        let chars = chars_of(path.as_str());
        let parts = split_components(&chars);
        let depth = if parts.len() == 0 {
            0
        } else {
            parts.len() - 1
        };
        ChangedPath { path, parts, depth }
    }

    /// Whether this path is listed before `other`.
    pub fn precedes(&self, other: &ChangedPath) -> (before: bool)
        requires
            self.well_formed(),
            other.well_formed(),
        ensures
            before == path_before(self.text(), other.text()),
    {
        let ghost a = self.parts.deep_view();
        let ghost b = other.parts.deep_view();
        let mut at: usize = 0;
        let mut differ: usize = 0;
        let mut found = false;
        while !found && at < self.parts.len() && at < other.parts.len()
            invariant
                a == self.parts.deep_view(),
                b == other.parts.deep_view(),
                at <= a.len(),
                at <= b.len(),
                forall|k: int| 0 <= k < at ==> a[k] == b[k],
                found ==> at < a.len() && at < b.len() && a[at as int] != b[at as int]
                    && first_difference(a[at as int], b[at as int], differ as int),
            decreases a.len() - at + (if found { 0int } else { 1int }),
        {
            let d = find_difference(&self.parts[at], &other.parts[at]);
            proof {
                assert(self.parts[at as int].deep_view() =~= self.parts[at as int]@);
                assert(other.parts[at as int].deep_view() =~= other.parts[at as int]@);
                lemma_text_before_at(a[at as int], b[at as int], d as int);
            }
            if d == self.parts[at].len() && d == other.parts[at].len() {
                at += 1;
            } else {
                differ = d;
                found = true;
            }
        }
        proof {
            assert(first_split(a, b, at as int));
            lemma_parts_before_at(a, b, self.depth as nat, other.depth as nat, at as int);
            assert(path_before(self.text(), other.text()) == parts_before(
                a,
                b,
                self.depth as nat,
                other.depth as nat,
            ));
        }
        if found {
            let x = &self.parts[at];
            let y = &other.parts[at];
            proof {
                assert(x.deep_view() =~= x@);
                assert(y.deep_view() =~= y@);
                assert(a[at as int] == x@);
                assert(b[at as int] == y@);
                lemma_text_before_at(x@, y@, differ as int);
            }
            let before = differ < y.len() && (differ == x.len() || x[differ] < y[differ]);
            before
        } else {
            self.depth < other.depth
        }
    }
}

/// Appends a component to a list of components.
fn push_part(parts: &mut Vec<Vec<char>>, part: Vec<char>)
    ensures
        final(parts).deep_view() == old(parts).deep_view().push(part@),
{
    assert(part.deep_view() =~= part@);
    parts.push(part);
    assert(parts.deep_view() =~= old(parts).deep_view().push(part@));
}

/// Splits the characters of a path at its slashes.
fn split_components(chars: &Vec<char>) -> (parts: Vec<Vec<char>>)
    ensures
        parts.deep_view() == components(chars@),
{
    let ghost path = chars@;
    let n = chars.len();
    let mut parts: Vec<Vec<char>> = Vec::new();
    let mut current: Vec<char> = Vec::new();
    let mut i: usize = 0;
    assert(path.subrange(0, n as int) =~= path);
    assert(parts.deep_view() + components(path) =~= components(path));
    while i < n
        invariant
            path == chars@,
            n == chars.len(),
            i <= n,
            current.len() <= i,
            current@ == path.subrange(i - current.len(), i as int),
            forall|k: int| 0 <= k < current.len() ==> current[k] != '/',
            components(path) == parts.deep_view() + components(
                path.subrange(i - current.len(), n as int),
            ),
        decreases n - i,
    {
        let ghost start = i - current.len();
        let ghost tail = path.subrange(start, n as int);
        let ghost done = parts.deep_view();
        let c = chars[i];
        if c == '/' {
            proof {
                assert forall|k: int| 0 <= k < i - start implies tail[k] != '/' by {
                    assert(tail[k] == current[k]);
                }
                lemma_position_of_is(tail, '/', i - start);
                assert(tail.subrange(i - start + 1, tail.len() as int) =~= path.subrange(
                    i + 1,
                    n as int,
                ));
                assert(tail.subrange(0, i - start) =~= current@);
            }
            if current.len() > 0 {
                let ghost piece = current@;
                push_part(&mut parts, current);
                current = Vec::new();
                assert(done + (seq![piece] + components(path.subrange(i + 1, n as int)))
                    =~= done.push(piece) + components(path.subrange(i + 1, n as int)));
            }
        } else {
            current.push(c);
            assert(current@ =~= path.subrange(start, i + 1));
        }
        i += 1;
    }
    let ghost tail = path.subrange(n - current.len(), n as int);
    let ghost done = parts.deep_view();
    proof {
        assert(tail =~= current@);
        lemma_position_of_is(tail, '/', tail.len() as int);
    }
    if current.len() > 0 {
        let ghost piece = current@;
        push_part(&mut parts, current);
        assert(done + seq![piece] =~= done.push(piece));
    } else {
        assert(done + Seq::<Seq<char>>::empty() =~= done);
    }
    parts
}

/// The texts of a list of changed paths.
pub open spec fn texts(entries: Seq<ChangedPath>) -> Seq<Seq<char>> {
    Seq::new(entries.len(), |i: int| entries[i].text())
}

/// Putting a path into a list places it at `at`, where every path from `at`
/// on is one that it is listed before and the path in front of `at` is not.
pub proof fn lemma_inserted_at(sorted: Seq<Seq<char>>, path: Seq<char>, at: int)
    requires
        0 <= at <= sorted.len(),
        forall|k: int| at <= k < sorted.len() ==> path_before(path, #[trigger] sorted[k]),
        at == 0 || !path_before(path, sorted[at - 1]),
    ensures
        inserted(sorted, path) == sorted.insert(at, path),
    decreases sorted.len(),
{
    if at == sorted.len() {
        assert(sorted.insert(at, path) =~= sorted.push(path));
    } else {
        assert(path_before(path, sorted[sorted.len() - 1]));
        lemma_inserted_at(sorted.drop_last(), path, at);
        assert(sorted.drop_last().insert(at, path).push(sorted.last()) =~= sorted.insert(
            at,
            path,
        ));
    }
}

/// Puts one more path into a list of paths in order.
fn place(sorted: &mut Vec<ChangedPath>, entry: ChangedPath)
    requires
        forall|i: int| 0 <= i < old(sorted).len() ==> (#[trigger] old(sorted)[i]).well_formed(),
        entry.well_formed(),
    ensures
        forall|i: int| 0 <= i < final(sorted).len() ==> (#[trigger] final(sorted)[i]).well_formed(),
        texts(final(sorted)@) == inserted(texts(old(sorted)@), entry.text()),
{
    let ghost before = sorted@;
    let mut at: usize = sorted.len();
    while at > 0 && entry.precedes(&sorted[at - 1])
        invariant
            sorted@ == before,
            at <= sorted.len(),
            entry.well_formed(),
            forall|i: int| 0 <= i < sorted.len() ==> (#[trigger] sorted[i]).well_formed(),
            forall|k: int|
                at <= k < sorted.len() ==> path_before(entry.text(), #[trigger] texts(before)[k]),
        decreases at,
    {
        at -= 1;
    }
    proof {
        lemma_inserted_at(texts(before), entry.text(), at as int);
    }
    sorted.insert(at, entry);
    assert(texts(sorted@) =~= texts(before).insert(at as int, entry.text()));
}

/// Lists the paths in order: by their components, and by their depth where
/// the components that two paths share are the same.
pub fn order_paths(paths: Vec<String>) -> (listed: Vec<String>)
    ensures
        listed.deep_view() == ordered(paths.deep_view()),
{
    let ghost all = paths.deep_view();
    let mut sorted: Vec<ChangedPath> = Vec::new();
    let mut k: usize = 0;
    assert(texts(sorted@) =~= ordered(all.take(0)));
    while k < paths.len()
        invariant
            k <= paths.len(),
            all == paths.deep_view(),
            forall|i: int| 0 <= i < sorted.len() ==> (#[trigger] sorted[i]).well_formed(),
            texts(sorted@) == ordered(all.take(k as int)),
        decreases paths.len() - k,
    {
        let entry = ChangedPath::new(paths[k].clone());
        proof {
            assert(all.take(k as int + 1).drop_last() =~= all.take(k as int));
            assert(all.take(k as int + 1).last() == entry.text());
        }
        place(&mut sorted, entry);
        k += 1;
    }
    assert(all.take(k as int) =~= all);
    let mut listed: Vec<String> = Vec::new();
    let mut i: usize = 0;
    while i < sorted.len()
        invariant
            i <= sorted.len(),
            listed.deep_view() == texts(sorted@).take(i as int),
        decreases sorted.len() - i,
    {
        push_text(&mut listed, sorted[i].path.clone());
        assert(texts(sorted@).take(i as int + 1) =~= texts(sorted@).take(i as int).push(
            sorted[i as int].text(),
        ));
        i += 1;
    }
    assert(texts(sorted@).take(i as int) =~= texts(sorted@));
    listed
}

/// The path that a delta entry is listed under, where it has one.
pub fn reported_path(entry: &DeltaEntry) -> (path: Option<String>)
    ensures
        path.deep_view() == entry.deep_view().reported_path(),
{
    let deleted = match entry.status {
        DeltaStatus::Deleted => true,
        _ => false,
    };
    if deleted {
        entry.old_path.clone()
    } else {
        match &entry.new_path {
            Some(path) => Some(path.clone()),
            None => entry.old_path.clone(),
        }
    }
}

/// The changed files of a delta between two trees: the path of every entry
/// that has one, listed in order.
pub fn changed_files(entries: &Vec<DeltaEntry>) -> (listed: Vec<String>)
    ensures
        listed.deep_view() == ordered(reported_paths(entries.deep_view())),
{
    let ghost all = entries.deep_view();
    let mut paths: Vec<String> = Vec::new();
    let mut k: usize = 0;
    assert(paths.deep_view() =~= reported_paths(all.take(0)));
    while k < entries.len()
        invariant
            k <= entries.len(),
            all == entries.deep_view(),
            paths.deep_view() == reported_paths(all.take(k as int)),
        decreases entries.len() - k,
    {
        proof {
            assert(all.take(k as int + 1).drop_last() =~= all.take(k as int));
            assert(all.take(k as int + 1).last() == entries[k as int].deep_view());
        }
        match reported_path(&entries[k]) {
            Some(path) => {
                push_text(&mut paths, path);
            },
            None => {},
        }
        k += 1;
    }
    assert(all.take(k as int) =~= all);
    order_paths(paths)
}

} // verus!
