use mirudi::git::{init, BlobLookup, Git, GitError, GitProvider, HeadLookup, SourceKind};

fn lines(texts: &[&str]) -> Vec<String> {
    texts.iter().map(|s| s.to_string()).collect()
}

#[test]
fn lines_are_those_of_std() {
    let git = Git::new();
    let texts = [
        "", "\n", "a", "a\n", "a\nb", "a\r\nb\r\n", "a\rb", "a\r", "\r\n", "\n\n", "a\n\nb\n",
        "\r", "a\r\r\nb", "x\n\r", "日本語\nテキスト",
    ];
    for text in texts {
        let expected: Vec<String> = text.lines().map(|l| l.to_string()).collect();
        assert_eq!(git.extract_lines_from_string(text, 1, usize::MAX), Ok(expected), "{:?}", text);
    }
}

#[test]
fn range_within_the_text_gives_each_line_of_it() {
    let git = Git::new();
    let text = "l1\nl2\nl3\nl4\nl5";
    let all = lines(&["l1", "l2", "l3", "l4", "l5"]);
    for start in 1..=5usize {
        for end in start..=5usize {
            let found = git.extract_lines_from_string(text, start, end).unwrap();
            assert_eq!(found.len(), end - start + 1);
            assert_eq!(found, all[start - 1..end].to_vec());
        }
    }
}

#[test]
fn range_that_ends_before_it_starts_is_empty() {
    let git = Git::new();
    for (start, end) in [(2usize, 1usize), (5, 0), (usize::MAX, 3), (1, 0)] {
        assert_eq!(git.extract_lines_from_string("a\nb\nc", start, end), Ok(Vec::new()));
    }
    assert_eq!(git.extract_lines_from_string("a\nb\nc", 0, 0), Ok(Vec::new()));
}

#[test]
fn range_past_the_text_is_cut_short() {
    let git = Git::new();
    assert_eq!(git.extract_lines_from_string("a\nb\nc", 3, usize::MAX), Ok(lines(&["c"])));
    assert_eq!(git.extract_lines_from_string("a\nb\nc", 4, 9), Ok(Vec::new()));
    assert_eq!(git.extract_lines_from_string("a\nb\nc", usize::MAX, usize::MAX), Ok(Vec::new()));
    assert_eq!(git.extract_lines_from_string("a\nb\nc", 0, usize::MAX), Ok(lines(&["a", "b", "c"])));
}

#[test]
fn blob_lookup_decides_the_error() {
    let git = Git::new();
    assert_eq!(
        git.extract_lines_from_blob(BlobLookup::NoRepository, 1, 2),
        Err(GitError::NotGitManaged)
    );
    assert_eq!(
        git.extract_lines_from_blob(BlobLookup::Unresolved, 1, 2),
        Err(GitError::FileNotFound)
    );
    assert_eq!(
        git.extract_lines_from_blob(BlobLookup::NotABlob, 1, 2),
        Err(GitError::InvalidObjectType)
    );
    assert_eq!(
        git.extract_lines_from_blob(BlobLookup::Found(vec![0x61, 0xff, 0x62]), 1, 2),
        Err(GitError::InvalidUtf8)
    );
    assert_eq!(
        git.extract_lines_from_blob(BlobLookup::Found(vec![0xe3, 0x81]), 1, 2),
        Err(GitError::InvalidUtf8)
    );
    assert_eq!(
        git.extract_lines_from_blob(BlobLookup::Found("é\nb\nc".as_bytes().to_vec()), 1, 2),
        Ok(lines(&["é", "b"]))
    );
    assert_eq!(git.extract_lines_from_blob(BlobLookup::Found(Vec::new()), 1, 2), Ok(Vec::new()));
}

#[test]
fn file_that_was_not_read_is_not_found() {
    let git = Git::new();
    assert_eq!(git.extract_lines_from_file(None, 1, 2), Err(GitError::FileNotFound));
    assert_eq!(
        git.extract_lines_from_file(Some("a\nb\nc".to_string()), 2, 3),
        Ok(lines(&["b", "c"]))
    );
}

#[test]
fn head_lookup_decides_the_branch() {
    let git = Git::new();
    assert_eq!(git.current_branch(HeadLookup::NoRepository), Err(GitError::NotGitManaged));
    assert_eq!(git.current_branch(HeadLookup::NoHead), Err(GitError::NotGitManaged));
    assert_eq!(git.current_branch(HeadLookup::Unnamed), Err(GitError::EmptyBranchName));
    assert_eq!(git.current_branch(HeadLookup::Named("main".to_string())), Ok("main".to_string()));
}

#[test]
fn revision_names_the_file_at_the_reference() {
    assert_eq!(Git::revision("main", "src/lib.rs"), "main:src/lib.rs");
    assert_eq!(Git::revision("", ""), ":");
    assert_eq!(Git::source_or_default(None), SourceKind::Commit);
    assert_eq!(Git::source_or_default(Some(SourceKind::Worktree)), SourceKind::Worktree);
    assert_eq!(Git::source_or_default(Some(SourceKind::Commit)), SourceKind::Commit);
}

#[test]
fn git_errors_have_their_messages() {
    assert_eq!(GitError::EmptyBranchName.to_string(), "ブランチ名が空です");
    assert_eq!(GitError::NotGitManaged.to_string(), "Git 管理されていないディレクトリです");
    assert_eq!(GitError::FileNotFound.to_string(), "ファイルが見つかりません");
    assert_eq!(GitError::InvalidObjectType.to_string(), "無効なオブジェクトタイプです");
    assert_eq!(GitError::InvalidUtf8.to_string(), "無効な UTF-8 文字列です");
    assert_eq!(GitError::DiffExtractionFailed.to_string(), "差分の抽出に失敗しました");
}

struct Managed(Result<bool, GitError>);

impl GitProvider for Managed {
    fn get_current_branch(&self) -> Result<String, GitError> {
        Ok("main".to_string())
    }

    fn list_branches(&self) -> Result<Vec<String>, GitError> {
        Ok(Vec::new())
    }

    fn extract_lines(
        &self,
        _branch: &str,
        _file_path: &str,
        _start: usize,
        _end: usize,
        _source: Option<SourceKind>,
    ) -> Result<Vec<String>, GitError> {
        Ok(Vec::new())
    }

    fn list_changed_files(&self, _base: &str, _target: &str) -> Result<Vec<String>, GitError> {
        Ok(Vec::new())
    }

    fn is_managed(&self) -> Result<bool, GitError> {
        self.0
    }
}

#[test]
fn init_needs_a_repository() {
    assert!(init(Managed(Ok(true))).is_ok());
    assert_eq!(init(Managed(Err(GitError::NotGitManaged))).err(), Some(GitError::NotGitManaged));
}
