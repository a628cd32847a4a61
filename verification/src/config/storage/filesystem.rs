//! The file system, as the storage of the configuration needs it.

use std::path::PathBuf;
use vstd::prelude::*;

verus! {

/// A path of the file system, as std holds it. Its inside is not looked at.
#[verifier::external_type_specification]
#[verifier::external_body]
pub struct ExPathBuf(PathBuf);

/// An I/O error, as std holds it. Its inside is not looked at.
#[verifier::external_type_specification]
#[verifier::external_body]
pub struct ExIoError(std::io::Error);

/// What the storage asks of the file system.
///
/// Beside each request stands a predicate that says which outcomes the file
/// system may have for it; it holds of every outcome.
pub trait FileSystem {
    /// Whether `result` may come back when the directory is created.
    open spec fn creates_dir(&self, path: PathBuf, result: Result<(), std::io::Error>) -> bool {
        true
    }

    /// Whether `result` may come back when the file is created.
    open spec fn creates_file(&self, path: PathBuf, result: Result<(), std::io::Error>) -> bool {
        true
    }

    /// Whether `result` may come back when `content` is written to the file.
    open spec fn writes(
        &self,
        path: PathBuf,
        content: Seq<char>,
        result: Result<(), std::io::Error>,
    ) -> bool {
        true
    }

    /// Whether `content` may come back when the file is read.
    open spec fn reads(&self, path: PathBuf, content: Result<String, std::io::Error>) -> bool {
        true
    }

    /// Whether `found` may come back when the path is looked for.
    open spec fn finds(&self, path: PathBuf, found: bool) -> bool {
        true
    }

    fn create_dir_all(&self, path: &PathBuf) -> (result: Result<(), std::io::Error>)
        ensures
            self.creates_dir(*path, result),
    ;

    fn create_file(&self, path: &PathBuf) -> (result: Result<(), std::io::Error>)
        ensures
            self.creates_file(*path, result),
    ;

    fn write_file(&self, path: &PathBuf, content: &str) -> (result: Result<(), std::io::Error>)
        ensures
            self.writes(*path, content@, result),
    ;

    fn read_to_string(&self, path: &PathBuf) -> (content: Result<String, std::io::Error>)
        ensures
            self.reads(*path, content),
    ;

    fn path_exists(&self, path: &PathBuf) -> (found: bool)
        ensures
            self.finds(*path, found),
    ;
}

/// The path without its last component, or none where the path has no
/// component to leave out.
pub uninterp spec fn parent_path(path: PathBuf) -> Option<PathBuf>;

/// `Path::parent` of std: the path without its last component, if there is
/// one. It is found from the path alone; the file system is not asked.
#[verifier::external_body]
pub(crate) fn parent_of(path: &PathBuf) -> (parent: Option<PathBuf>)
    ensures
        parent == parent_path(*path),
{
    path.parent().map(|dir| dir.to_path_buf())
}

/// `Path::join` of std: the path with one more component. Nothing is
/// claimed of it.
#[verifier::external_body]
pub(crate) fn joined_path(dir: &PathBuf, name: &str) -> (path: PathBuf) {
    dir.join(name)
}

} // verus!
