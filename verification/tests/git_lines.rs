use mirudi::git::Git;

#[test]
fn normal_range() {
    let git = Git::new();

    let text = "foo\nbar\nbaz\nqux";

    let result = git
        .extract_lines_from_string(text, /*start=*/ 2, /*end=*/ 3)
        .unwrap();

    assert_eq!(result, vec!["bar".to_string(), "baz".to_string()]);
}

#[test]
fn start_zero_and_saturating() {
    let git = Git::new();
    let text = "a\nb\nc";
    let result = git.extract_lines_from_string(text, 0, 2).unwrap();
    assert_eq!(result, vec!["a".to_string(), "b".to_string()]);
}

#[test]
fn end_less_than_start() {
    let git = Git::new();
    let text = "x\ny\nz";
    let result = git.extract_lines_from_string(text, 3, 1).unwrap();
    assert_eq!(result, Vec::<String>::new());
}

#[test]
fn out_of_bounds_truncate() {
    let git = Git::new();
    let text = "one\ntwo";
    let result = git.extract_lines_from_string(text, 2, 100).unwrap();
    assert_eq!(result, vec!["two".to_string()]);
}

#[test]
fn empty_content() {
    let git = Git::new();
    let result = git.extract_lines_from_string("", 1, 5).unwrap();
    assert!(result.is_empty());
}
