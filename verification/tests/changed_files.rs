use mirudi::git::paths::{changed_files, order_paths, reported_path, ChangedPath};
use mirudi::git::{DeltaEntry, DeltaLookup, DeltaStatus, Git, GitError};

fn paths(texts: &[&str]) -> Vec<String> {
    texts.iter().map(|s| s.to_string()).collect()
}

fn entry(status: DeltaStatus, old: Option<&str>, new: Option<&str>) -> DeltaEntry {
    DeltaEntry {
        status,
        old_path: old.map(|s| s.to_string()),
        new_path: new.map(|s| s.to_string()),
    }
}

#[test]
fn paths_are_ordered_by_components() {
    assert_eq!(
        order_paths(paths(&["b/file.txt", "a.txt", "b/a/file.txt"])),
        paths(&["a.txt", "b/a/file.txt", "b/file.txt"])
    );
}

#[test]
fn component_order_is_not_text_order() {
    let mut by_text = paths(&["a/b", "a-b", "a.b/c", "a"]);
    by_text.sort();
    assert_eq!(by_text, paths(&["a", "a-b", "a.b/c", "a/b"]));
    assert_eq!(
        order_paths(paths(&["a/b", "a-b", "a.b/c", "a"])),
        paths(&["a", "a/b", "a-b", "a.b/c"])
    );
}

#[test]
fn shallower_path_comes_first_where_components_agree() {
    assert_eq!(
        order_paths(paths(&["src/a/b.rs", "src", "src/a"])),
        paths(&["src", "src/a", "src/a/b.rs"])
    );
}

#[test]
fn order_agrees_with_std_paths() {
    let given = paths(&[
        "z.txt", "docs/readme.md", "docs/a/b/c.md", "docs/a.md", "Docs/x", "a b/c", "é/x", "e/x",
        "src/lib.rs", "src/lib", "src/lib/x.rs", "src/lib.rs.bak", "日本/語.txt", "0", "src/Lib.rs",
    ]);
    let mut expected: Vec<std::path::PathBuf> = given.iter().map(std::path::PathBuf::from).collect();
    expected.sort_by(|a, b| {
        let a_parts: Vec<_> = a.components().collect();
        let b_parts: Vec<_> = b.components().collect();
        for (a_part, b_part) in a_parts.iter().zip(b_parts.iter()) {
            if a_part != b_part {
                return a_part.cmp(b_part);
            }
        }
        a_parts.len().saturating_sub(1).cmp(&b_parts.len().saturating_sub(1))
    });
    let expected: Vec<String> = expected.iter().map(|p| p.to_string_lossy().to_string()).collect();
    assert_eq!(order_paths(given), expected);
}

#[test]
fn equal_paths_keep_their_order_and_number() {
    assert_eq!(order_paths(paths(&["b", "a", "b", "a"])), paths(&["a", "a", "b", "b"]));
    assert_eq!(order_paths(paths(&["a//b", "a/b"])), paths(&["a//b", "a/b"]));
    assert_eq!(order_paths(paths(&["a/b", "a//b"])), paths(&["a/b", "a//b"]));
    assert_eq!(order_paths(Vec::new()), Vec::<String>::new());
}

#[test]
fn precedes_is_one_way() {
    let a = ChangedPath::new("b/a/file.txt".to_string());
    let b = ChangedPath::new("b/file.txt".to_string());
    assert!(a.precedes(&b));
    assert!(!b.precedes(&a));
    assert!(!a.precedes(&a));
    let shallow = ChangedPath::new("b".to_string());
    assert!(shallow.precedes(&a));
    assert!(!a.precedes(&shallow));
}

#[test]
fn deleted_entry_is_listed_under_its_old_path() {
    let deleted = entry(DeltaStatus::Deleted, Some("old.txt"), Some("new.txt"));
    assert_eq!(reported_path(&deleted), Some("old.txt".to_string()));
    let renamed = entry(DeltaStatus::Renamed, Some("old.txt"), Some("new.txt"));
    assert_eq!(reported_path(&renamed), Some("new.txt".to_string()));
    let odd = entry(DeltaStatus::Modified, Some("old.txt"), None);
    assert_eq!(reported_path(&odd), Some("old.txt".to_string()));
    let nameless = entry(DeltaStatus::Added, None, None);
    assert_eq!(reported_path(&nameless), None);
    let gone = entry(DeltaStatus::Deleted, None, Some("new.txt"));
    assert_eq!(reported_path(&gone), None);
}

#[test]
fn changed_files_lists_every_entry_with_a_path() {
    let entries = vec![
        entry(DeltaStatus::Modified, Some("b/file.txt"), Some("b/file.txt")),
        entry(DeltaStatus::Added, None, None),
        entry(DeltaStatus::Added, None, Some("a.txt")),
        entry(DeltaStatus::Deleted, Some("b/a/file.txt"), None),
    ];
    assert_eq!(changed_files(&entries), paths(&["a.txt", "b/a/file.txt", "b/file.txt"]));
}

#[test]
fn delta_that_was_not_listed_is_an_error() {
    let git = Git::new();
    assert_eq!(git.changed_files(DeltaLookup::NoRepository), Err(GitError::NotGitManaged));
    assert_eq!(git.changed_files(DeltaLookup::Unresolved), Err(GitError::FileNotFound));
    assert_eq!(git.changed_files(DeltaLookup::NotATree), Err(GitError::InvalidObjectType));
    assert_eq!(git.changed_files(DeltaLookup::Failed), Err(GitError::DiffExtractionFailed));
    let listed = DeltaLookup::Listed(vec![
        entry(DeltaStatus::Added, None, Some("b")),
        entry(DeltaStatus::Added, None, Some("a")),
    ]);
    assert_eq!(git.changed_files(listed), Ok(paths(&["a", "b"])));
}
