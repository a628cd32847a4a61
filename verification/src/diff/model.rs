//! The data model of a structured diff and its mathematical views.

use vstd::prelude::*;

verus! {

/// How one line of a structured diff relates the old side to the new side.
#[derive(Clone, Copy, Debug, PartialEq, Eq, Structural)]
pub enum DiffType {
    Added,
    Removed,
    Replaced,
    Equaled,
}

/// A line of one side: its 1-based number and its text.
#[derive(Debug, PartialEq, Eq)]
pub struct LineInfo {
    pub lineno: usize,
    pub content: String,
}

/// One line of a structured diff.
#[derive(Debug, PartialEq, Eq)]
pub struct LineDiff {
    pub old: Option<LineInfo>,
    pub new: Option<LineInfo>,
    pub diff_type: DiffType,
}

/// One contiguous run of a diff between two sequences of lines.
#[derive(Debug, PartialEq, Eq)]
pub enum ChangeOp {
    /// Lines that only the new side has.
    Insert(Vec<String>),
    /// Lines that only the old side has.
    Remove(Vec<String>),
    /// Lines that both sides have.
    Equal(Vec<String>),
    /// Lines of the old side and the lines of the new side that stand in their place.
    Replace(Vec<String>, Vec<String>),
}

/// The mathematical value of a `LineInfo`.
pub ghost struct LineRef {
    pub lineno: nat,
    pub content: Seq<char>,
}

/// The mathematical value of a `LineDiff`.
pub ghost struct DiffLine {
    pub old: Option<LineRef>,
    pub new: Option<LineRef>,
    pub kind: DiffType,
}

/// The mathematical value of a `ChangeOp`.
pub ghost enum ChangeRun {
    Insert(Seq<Seq<char>>),
    Remove(Seq<Seq<char>>),
    Equal(Seq<Seq<char>>),
    Replace(Seq<Seq<char>>, Seq<Seq<char>>),
}

impl DeepView for LineInfo {
    type V = LineRef;

    open spec fn deep_view(&self) -> LineRef {
        LineRef { lineno: self.lineno as nat, content: self.content@ }
    }
}

impl DeepView for LineDiff {
    type V = DiffLine;

    open spec fn deep_view(&self) -> DiffLine {
        DiffLine {
            old: self.old.deep_view(),
            new: self.new.deep_view(),
            kind: self.diff_type,
        }
    }
}

impl DeepView for ChangeOp {
    type V = ChangeRun;

    open spec fn deep_view(&self) -> ChangeRun {
        match self {
            ChangeOp::Insert(items) => ChangeRun::Insert(items.deep_view()),
            ChangeOp::Remove(items) => ChangeRun::Remove(items.deep_view()),
            ChangeOp::Equal(items) => ChangeRun::Equal(items.deep_view()),
            ChangeOp::Replace(old_items, new_items) => ChangeRun::Replace(
                old_items.deep_view(),
                new_items.deep_view(),
            ),
        }
    }
}

impl DiffLine {
    /// A line that is anything but unchanged.
    pub open spec fn is_change(self) -> bool {
        self.kind != DiffType::Equaled
    }

    /// The shape that the kind of a line prescribes: which sides are present,
    /// and that an unchanged line reads the same on both.
    pub open spec fn well_formed(self) -> bool {
        match self.kind {
            DiffType::Added => self.old is None && self.new is Some,
            DiffType::Removed => self.old is Some && self.new is None,
            DiffType::Replaced => self.old is Some && self.new is Some,
            DiffType::Equaled => self.old is Some && self.new is Some
                && self.old->0.content == self.new->0.content,
        }
    }
}

impl ChangeRun {
    /// The lines of the old side that the run covers.
    pub open spec fn old_side(self) -> Seq<Seq<char>> {
        match self {
            ChangeRun::Insert(_) => Seq::empty(),
            ChangeRun::Remove(items) => items,
            ChangeRun::Equal(items) => items,
            ChangeRun::Replace(old_items, _) => old_items,
        }
    }

    /// The lines of the new side that the run covers.
    pub open spec fn new_side(self) -> Seq<Seq<char>> {
        match self {
            ChangeRun::Insert(items) => items,
            ChangeRun::Remove(_) => Seq::empty(),
            ChangeRun::Equal(items) => items,
            ChangeRun::Replace(_, new_items) => new_items,
        }
    }

    /// How many diff lines the run gives.
    pub open spec fn span(self) -> nat {
        match self {
            ChangeRun::Insert(items) => items.len(),
            ChangeRun::Remove(items) => items.len(),
            ChangeRun::Equal(items) => items.len(),
            ChangeRun::Replace(old_items, new_items) => if old_items.len() >= new_items.len() {
                old_items.len()
            } else {
                new_items.len()
            },
        }
    }
}

} // verus!
