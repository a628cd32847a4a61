//! The ways in which reading from the repository fails.

use vstd::prelude::*;
use vstd::string::*;

verus! {

/// What reading from the repository fails with.
#[derive(Debug, Clone, Copy, PartialEq, Eq, Structural)]
pub enum GitError {
    /// The current branch has no name.
    EmptyBranchName,
    /// The directory is not the working copy of a repository.
    NotGitManaged,
    /// The reference or the path does not resolve.
    FileNotFound,
    /// The object found is not of the kind asked for.
    InvalidObjectType,
    /// The content of the file is not valid UTF-8.
    InvalidUtf8,
    /// Computing the delta between two trees failed.
    DiffExtractionFailed,
}

impl GitError {
    /// The message of the error.
    pub open spec fn message(self) -> Seq<char> {
        match self {
            GitError::EmptyBranchName => "ブランチ名が空です"@,
            GitError::NotGitManaged => "Git 管理されていないディレクトリです"@,
            GitError::FileNotFound => "ファイルが見つかりません"@,
            GitError::InvalidObjectType => "無効なオブジェクトタイプです"@,
            GitError::InvalidUtf8 => "無効な UTF-8 文字列です"@,
            GitError::DiffExtractionFailed => "差分の抽出に失敗しました"@,
        }
    }

    /// The message of the error, as the tool shows it.
    pub fn to_string(&self) -> (text: String)
        ensures
            text@ == self.message(),
    {
        match self {
            GitError::EmptyBranchName => "ブランチ名が空です".to_string(),
            GitError::NotGitManaged => "Git 管理されていないディレクトリです".to_string(),
            GitError::FileNotFound => "ファイルが見つかりません".to_string(),
            GitError::InvalidObjectType => "無効なオブジェクトタイプです".to_string(),
            GitError::InvalidUtf8 => "無効な UTF-8 文字列です".to_string(),
            GitError::DiffExtractionFailed => "差分の抽出に失敗しました".to_string(),
        }
    }
}

} // verus!
