//! Line ranges of a file's content, and the interface to the repository.

use vstd::prelude::*;
use vstd::string::*;

use crate::git::error::GitError;
use crate::git::paths::{changed_files, ordered, reported_paths, DeltaEntry};
use crate::text::{decode, push_text, split_lines, text_lines};

verus! {

/// Where the content of a file is read from.
#[derive(Debug, Clone, Copy, PartialEq, Eq, Structural)]
pub enum SourceKind {
    /// The file as a reference of the repository holds it.
    Commit,
    /// The file as it stands in the working tree.
    Worktree,
}

/// What the commands ask of a repository.
///
/// Beside each question stands a predicate that says which answers the
/// repository may give to it. It holds of every answer given, so that what
/// is made of an answer can be said of all answers that are possible.
pub trait GitProvider {
    /// Whether `name` may come back as the branch that is checked out.
    open spec fn names_current_branch(&self, name: Result<String, GitError>) -> bool {
        true
    }

    /// Whether `names` may come back as the branches of the repository.
    open spec fn names_branches(&self, names: Result<Vec<String>, GitError>) -> bool {
        true
    }

    /// Whether `lines` may come back as the lines `start` to `end` of the
    /// file at `file_path`, read from `source` at `branch`.
    open spec fn extracts(
        &self,
        branch: Seq<char>,
        file_path: Seq<char>,
        start: usize,
        end: usize,
        source: Option<SourceKind>,
        lines: Result<Vec<String>, GitError>,
    ) -> bool {
        true
    }

    /// Whether `files` may come back as the files that differ between the
    /// two branches.
    open spec fn lists_changed_files(
        &self,
        base_branch: Seq<char>,
        target_branch: Seq<char>,
        files: Result<Vec<String>, GitError>,
    ) -> bool {
        true
    }

    /// Whether `managed` may come back when the repository is asked whether
    /// it is one.
    open spec fn answers_managed(&self, managed: Result<bool, GitError>) -> bool {
        true
    }

    fn get_current_branch(&self) -> (name: Result<String, GitError>)
        ensures
            self.names_current_branch(name),
    ;

    fn list_branches(&self) -> (names: Result<Vec<String>, GitError>)
        ensures
            self.names_branches(names),
    ;

    fn extract_lines(
        &self,
        branch: &str,
        file_path: &str,
        start: usize,
        end: usize,
        source: Option<SourceKind>,
    ) -> (lines: Result<Vec<String>, GitError>)
        ensures
            self.extracts(branch@, file_path@, start, end, source, lines),
    ;

    fn list_changed_files(&self, base_branch: &str, target_branch: &str) -> (files: Result<
        Vec<String>,
        GitError,
    >)
        ensures
            self.lists_changed_files(base_branch@, target_branch@, files),
    ;

    fn is_managed(&self) -> (managed: Result<bool, GitError>)
        ensures
            self.answers_managed(managed),
    ;
}

/// The lines `start` to `end` of `lines`, counted from 1 and both included.
/// A `start` of 0 counts as 1. A range that ends before it starts is empty,
/// and a range that reaches past the last line ends with the last line.
pub open spec fn line_range(lines: Seq<Seq<char>>, start: nat, end: nat) -> Seq<Seq<char>> {
    let first = if start < 1 { 1 } else { start };
    if end < first {
        Seq::empty()
    } else {
        let from = if first - 1 <= lines.len() { first - 1 } else { lines.len() as int };
        let to = if end <= lines.len() { end as int } else { lines.len() as int };
        lines.subrange(from, to)
    }
}

/// The decisions that are made about what a repository holds.
pub struct Git;

impl Git {
    pub fn new() -> (git: Self) {
        Git
    }

    /// Cuts the lines `start` to `end` out of `content`.
    pub fn extract_lines_from_string(&self, content: &str, start: usize, end: usize) -> (result:
        Result<Vec<String>, GitError>)
        ensures
            result is Ok,
            result->Ok_0.deep_view() == line_range(text_lines(content@), start as nat, end as nat),
            end < start ==> result->Ok_0.len() == 0,
            1 <= start <= end <= text_lines(content@).len() ==> result->Ok_0.deep_view()
                == text_lines(content@).subrange(start - 1, end as int),
    {
        let start_index = if start < 1 { 1 } else { start };
        if end < start_index {
            let none: Vec<String> = Vec::new();
            assert(none.deep_view() =~= Seq::empty());
            return Ok(none);
        }
        let lines = split_lines(content);
        let ghost all = lines.deep_view();
        let from = if start_index - 1 <= lines.len() { start_index - 1 } else { lines.len() };
        let to = if end <= lines.len() { end } else { lines.len() };
        let mut taken: Vec<String> = Vec::new();
        let mut i: usize = from;
        while i < to
            invariant
                from <= i <= to <= lines.len(),
                all == lines.deep_view(),
                taken.deep_view() == all.subrange(from as int, i as int),
            decreases to - i,
        {
            push_text(&mut taken, lines[i].clone());
            assert(all.subrange(from as int, i as int).push(all[i as int]) =~= all.subrange(
                from as int,
                i as int + 1,
            ));
            i += 1;
        }
        Ok(taken)
    }
}

/// What looking a file up at a reference of the repository came to.
pub enum BlobLookup {
    /// The directory is not the working copy of a repository.
    NoRepository,
    /// The reference or the path does not resolve.
    Unresolved,
    /// What was found is no file; a directory, for one.
    NotABlob,
    /// The bytes of the file.
    Found(Vec<u8>),
}

/// What asking the repository for the branch that is checked out came to.
pub enum HeadLookup {
    /// The directory is not the working copy of a repository.
    NoRepository,
    /// The repository has no head that can be read.
    NoHead,
    /// The head has no name that is valid text.
    Unnamed,
    /// The short name of the head.
    Named(String),
}

/// What listing the delta between two references came to.
pub enum DeltaLookup {
    /// The directory is not the working copy of a repository.
    NoRepository,
    /// One of the references does not resolve.
    Unresolved,
    /// One of the references does not lead to a tree.
    NotATree,
    /// The delta could not be computed or walked.
    Failed,
    /// The entries of the delta.
    Listed(Vec<DeltaEntry>),
}

/// The text that names a file at a reference: the reference, a colon, the path.
pub open spec fn revision_text(branch: Seq<char>, file_path: Seq<char>) -> Seq<char> {
    branch + seq![':'] + file_path
}

impl Git {
    /// The source that is meant where none is named: a commit.
    pub fn source_or_default(source: Option<SourceKind>) -> (kind: SourceKind)
        ensures
            kind == (match source {
                Some(kind) => kind,
                None => SourceKind::Commit,
            }),
    {
        match source {
            Some(kind) => kind,
            None => SourceKind::Commit,
        }
    }

    /// The text that names a file at a reference.
    pub fn revision(branch: &str, file_path: &str) -> (text: String)
        ensures
            text@ == revision_text(branch@, file_path@),
    {
        proof {
            reveal_strlit(":");
            assert(":"@ =~= seq![':']);
        }
        let mut text = branch.to_string();
        text.append(":");
        text.append(file_path);
        text
    }

    /// The lines `start` to `end` of a file looked up at a reference. A
    /// lookup that found no file is reported as what it is; bytes that are
    /// no valid UTF-8 are refused.
    pub fn extract_lines_from_blob(&self, lookup: BlobLookup, start: usize, end: usize) -> (result:
        Result<Vec<String>, GitError>)
        ensures
            match lookup {
                BlobLookup::NoRepository => result == Err::<Vec<String>, GitError>(
                    GitError::NotGitManaged,
                ),
                BlobLookup::Unresolved => result == Err::<Vec<String>, GitError>(
                    GitError::FileNotFound,
                ),
                BlobLookup::NotABlob => result == Err::<Vec<String>, GitError>(
                    GitError::InvalidObjectType,
                ),
                BlobLookup::Found(bytes) => if vstd::utf8::valid_utf8(bytes@) {
                    result is Ok && result->Ok_0.deep_view() == line_range(
                        text_lines(vstd::utf8::decode_utf8(bytes@)),
                        start as nat,
                        end as nat,
                    )
                } else {
                    result == Err::<Vec<String>, GitError>(GitError::InvalidUtf8)
                },
            },
    {
        match lookup {
            BlobLookup::NoRepository => Err(GitError::NotGitManaged),
            BlobLookup::Unresolved => Err(GitError::FileNotFound),
            BlobLookup::NotABlob => Err(GitError::InvalidObjectType),
            BlobLookup::Found(bytes) => match decode(bytes) {
                Some(content) => self.extract_lines_from_string(content.as_str(), start, end),
                None => Err(GitError::InvalidUtf8),
            },
        }
    }

    /// The lines `start` to `end` of a file of the working tree, whose
    /// content is there only where the file could be read.
    pub fn extract_lines_from_file(&self, content: Option<String>, start: usize, end: usize) -> (result:
        Result<Vec<String>, GitError>)
        ensures
            match content {
                Some(text) => result is Ok && result->Ok_0.deep_view() == line_range(
                    text_lines(text@),
                    start as nat,
                    end as nat,
                ),
                None => result == Err::<Vec<String>, GitError>(GitError::FileNotFound),
            },
    {
        match content {
            Some(text) => self.extract_lines_from_string(text.as_str(), start, end),
            None => Err(GitError::FileNotFound),
        }
    }

    /// The name of the branch that is checked out.
    pub fn current_branch(&self, head: HeadLookup) -> (result: Result<String, GitError>)
        ensures
            match head {
                HeadLookup::NoRepository => result == Err::<String, GitError>(
                    GitError::NotGitManaged,
                ),
                HeadLookup::NoHead => result == Err::<String, GitError>(GitError::NotGitManaged),
                HeadLookup::Unnamed => result == Err::<String, GitError>(
                    GitError::EmptyBranchName,
                ),
                HeadLookup::Named(name) => result == Ok::<String, GitError>(name),
            },
    {
        match head {
            HeadLookup::NoRepository => Err(GitError::NotGitManaged),
            HeadLookup::NoHead => Err(GitError::NotGitManaged),
            HeadLookup::Unnamed => Err(GitError::EmptyBranchName),
            HeadLookup::Named(name) => Ok(name),
        }
    }

    /// The changed files between two references, in listing order.
    pub fn changed_files(&self, delta: DeltaLookup) -> (result: Result<Vec<String>, GitError>)
        ensures
            match delta {
                DeltaLookup::NoRepository => result == Err::<Vec<String>, GitError>(
                    GitError::NotGitManaged,
                ),
                DeltaLookup::Unresolved => result == Err::<Vec<String>, GitError>(
                    GitError::FileNotFound,
                ),
                DeltaLookup::NotATree => result == Err::<Vec<String>, GitError>(
                    GitError::InvalidObjectType,
                ),
                DeltaLookup::Failed => result == Err::<Vec<String>, GitError>(
                    GitError::DiffExtractionFailed,
                ),
                DeltaLookup::Listed(entries) => result is Ok && result->Ok_0.deep_view() == ordered(
                    reported_paths(entries.deep_view()),
                ),
            },
    {
        match delta {
            DeltaLookup::NoRepository => Err(GitError::NotGitManaged),
            DeltaLookup::Unresolved => Err(GitError::FileNotFound),
            DeltaLookup::NotATree => Err(GitError::InvalidObjectType),
            DeltaLookup::Failed => Err(GitError::DiffExtractionFailed),
            DeltaLookup::Listed(entries) => Ok(changed_files(&entries)),
        }
    }
}

/// Checks that the directory is the working copy of a repository, and hands
/// the repository on where it is.
pub fn init<G: GitProvider>(git: G) -> (result: Result<G, GitError>)
    ensures
        match result {
            Ok(checked) => checked == git && exists|managed: bool|
                #[trigger] git.answers_managed(Ok(managed)),
            Err(error) => git.answers_managed(Err(error)),
        },
{
    match git.is_managed() {
        Ok(managed) => {
            assert(git.answers_managed(Ok(managed)));
            Ok(git)
        },
        Err(error) => Err(error),
    }
}

/// A range that lies within the lines gives every line from `start` to
/// `end`, both included, in their order.
pub proof fn lemma_line_range_within(lines: Seq<Seq<char>>, start: nat, end: nat)
    requires
        1 <= start <= end <= lines.len(),
    ensures
        line_range(lines, start, end).len() == end - start + 1,
        forall|i: int|
            0 <= i < end - start + 1 ==> line_range(lines, start, end)[i] == lines[start - 1 + i],
{
}

/// A range that ends before it starts gives no line.
pub proof fn lemma_line_range_reversed(lines: Seq<Seq<char>>, start: nat, end: nat)
    requires
        end < start,
    ensures
        line_range(lines, start, end) == Seq::<Seq<char>>::empty(),
{
}

/// A range gives lines that follow each other in the text, no more than the
/// range names and no more than the text has from its start on.
pub proof fn lemma_line_range_bounds(lines: Seq<Seq<char>>, start: nat, end: nat)
    ensures
        line_range(lines, start, end).len() <= lines.len(),
        start >= 1 && end >= start ==> line_range(lines, start, end).len() <= end - start + 1,
        start > lines.len() ==> line_range(lines, start, end).len() == 0,
        line_range(lines, 0, end) == line_range(lines, 1, end),
{
}

/// What reading one branch of the repository came to.
pub enum BranchLookup {
    /// The branch could not be read.
    Unreadable,
    /// The branch has no name that is valid text.
    Unnamed,
    /// The name of the branch.
    Named(String),
}

/// The mathematical value of a `BranchLookup`.
pub ghost enum BranchFound {
    Unreadable,
    Unnamed,
    Named(Seq<char>),
}

impl DeepView for BranchLookup {
    type V = BranchFound;

    open spec fn deep_view(&self) -> BranchFound {
        match self {
            BranchLookup::Unreadable => BranchFound::Unreadable,
            BranchLookup::Unnamed => BranchFound::Unnamed,
            BranchLookup::Named(name) => BranchFound::Named(name@),
        }
    }
}

/// The names of the branches in their order, or the error of the first
/// branch that has none: one that could not be read counts as a repository
/// that is none, one without a name as an empty branch name.
pub open spec fn branch_names(found: Seq<BranchFound>) -> Result<Seq<Seq<char>>, GitError>
    decreases found.len(),
{
    if found.len() == 0 {
        Ok(Seq::empty())
    } else {
        match branch_names(found.drop_last()) {
            Err(error) => Err(error),
            Ok(names) => match found.last() {
                BranchFound::Unreadable => Err(GitError::NotGitManaged),
                BranchFound::Unnamed => Err(GitError::EmptyBranchName),
                BranchFound::Named(name) => Ok(names.push(name)),
            },
        }
    }
}

/// An error among the first branches is the error of all of them.
pub proof fn lemma_branch_names_fail_early(found: Seq<BranchFound>, n: int)
    requires
        0 <= n <= found.len(),
        branch_names(found.take(n)) is Err,
    ensures
        branch_names(found) == branch_names(found.take(n)),
    decreases found.len() - n,
{
    if n == found.len() {
        assert(found.take(n) =~= found);
    } else {
        assert(found.take(n + 1).drop_last() =~= found.take(n));
        lemma_branch_names_fail_early(found, n + 1);
    }
}

impl Git {
    /// The names of the branches of the repository. `found` holds what each
    /// branch came to, or nothing where the repository could not be opened
    /// or would not list its branches.
    pub fn list_branches(&self, found: Option<Vec<BranchLookup>>) -> (result: Result<
        Vec<String>,
        GitError,
    >)
        ensures
            match found {
                None => result == Err::<Vec<String>, GitError>(GitError::NotGitManaged),
                Some(branches) => match branch_names(branches.deep_view()) {
                    Ok(names) => result is Ok && result->Ok_0.deep_view() == names,
                    Err(error) => result == Err::<Vec<String>, GitError>(error),
                },
            },
    {
        let branches = match found {
            Some(branches) => branches,
            None => {
                return Err(GitError::NotGitManaged);
            },
        };
        let ghost all = branches.deep_view();
        let mut names: Vec<String> = Vec::new();
        let mut i: usize = 0;
        assert(names.deep_view() =~= Seq::<Seq<char>>::empty());
        while i < branches.len()
            invariant
                i <= branches.len(),
                found == Some(branches),
                all == branches.deep_view(),
                branch_names(all.take(i as int)) == Ok::<Seq<Seq<char>>, GitError>(
                    names.deep_view(),
                ),
            decreases branches.len() - i,
        {
            proof {
                assert(all.take(i as int + 1).drop_last() =~= all.take(i as int));
                assert(all.take(i as int + 1).last() == branches[i as int].deep_view());
            }
            match &branches[i] {
                BranchLookup::Unreadable => {
                    proof {
                        lemma_branch_names_fail_early(all, i as int + 1);
                    }
                    return Err(GitError::NotGitManaged);
                },
                BranchLookup::Unnamed => {
                    proof {
                        lemma_branch_names_fail_early(all, i as int + 1);
                    }
                    return Err(GitError::EmptyBranchName);
                },
                BranchLookup::Named(name) => {
                    push_text(&mut names, name.clone());
                },
            }
            i += 1;
        }
        assert(all.take(i as int) =~= all);
        Ok(names)
    }
}

} // verus!
