use mirudi::diff::structured::{number_lines, structured_from_ops};
use mirudi::diff::{structured_diff, ChangeOp, Diff, DiffProvider, DiffType, LineDiff, LineInfo};

fn lines(texts: &[&str]) -> Vec<String> {
    texts.iter().map(|s| s.to_string()).collect()
}

fn line(lineno: usize, content: &str) -> Option<LineInfo> {
    Some(LineInfo { lineno, content: content.to_string() })
}

fn equal(old: usize, new: usize, content: &str) -> LineDiff {
    LineDiff { old: line(old, content), new: line(new, content), diff_type: DiffType::Equaled }
}

fn added(new: usize, content: &str) -> LineDiff {
    LineDiff { old: None, new: line(new, content), diff_type: DiffType::Added }
}

fn removed(old: usize, content: &str) -> LineDiff {
    LineDiff { old: line(old, content), new: None, diff_type: DiffType::Removed }
}

fn replaced(old: usize, before: &str, new: usize, after: &str) -> LineDiff {
    LineDiff { old: line(old, before), new: line(new, after), diff_type: DiffType::Replaced }
}

#[test]
fn same_sides_give_no_lines() {
    for context in [0, 1, 3, 100, usize::MAX] {
        let diff = Diff::new(lines(&["a", "b", "c"]), lines(&["a", "b", "c"]));
        assert_eq!(diff.lines_structured_with_context(context), vec![]);
        let empty = Diff::new(lines(&[]), lines(&[]));
        assert_eq!(empty.lines_structured_with_context(context), vec![]);
        let repeated = Diff::new(lines(&["a", "a", ""]), lines(&["a", "a", ""]));
        assert_eq!(repeated.lines_structured_with_context(context), vec![]);
    }
}

#[test]
fn structured_diff_of_two_sequences() {
    assert_eq!(
        structured_diff(lines(&["a", "b", "c"]), lines(&["a", "x", "c"]), 1),
        vec![equal(1, 1, "a"), replaced(2, "b", 2, "x"), equal(3, 3, "c")]
    );
    assert_eq!(
        structured_diff(lines(&[]), lines(&["a", "b"]), 0),
        vec![added(1, "a"), added(2, "b")]
    );
    assert_eq!(structured_diff(lines(&["a"]), lines(&["a"]), 5), vec![]);
}

#[test]
fn replaced_line_between_equal_lines() {
    let diff = Diff::new(lines(&["a", "b", "c"]), lines(&["a", "x", "c"]));
    assert_eq!(
        diff.lines_structured_with_context(1),
        vec![equal(1, 1, "a"), replaced(2, "b", 2, "x"), equal(3, 3, "c")]
    );
}

#[test]
fn empty_old_side_gives_added_lines() {
    for context in [0, 3, usize::MAX] {
        let diff = Diff::new(lines(&[]), lines(&["a", "b"]));
        assert_eq!(
            diff.lines_structured_with_context(context),
            vec![added(1, "a"), added(2, "b")]
        );
    }
}

#[test]
fn empty_new_side_gives_removed_lines() {
    let diff = Diff::new(lines(&["a", "b", "c"]), lines(&[]));
    assert_eq!(
        diff.lines_structured(),
        vec![removed(1, "a"), removed(2, "b"), removed(3, "c")]
    );
}

#[test]
fn context_decides_which_equal_lines_stay() {
    let old = ["1", "2", "3", "4", "5", "6", "7", "8", "9"];
    let new = ["1", "2", "3", "4", "x", "6", "7", "8", "9"];
    let diff = Diff::new(lines(&old), lines(&new));
    assert_eq!(diff.lines_structured_with_context(0), vec![replaced(5, "5", 5, "x")]);
    assert_eq!(
        diff.lines_structured_with_context(2),
        vec![
            equal(3, 3, "3"),
            equal(4, 4, "4"),
            replaced(5, "5", 5, "x"),
            equal(6, 6, "6"),
            equal(7, 7, "7"),
        ]
    );
    assert_eq!(diff.lines_structured().len(), 7);
    assert_eq!(diff.lines_structured_with_context(4).len(), 9);
    assert_eq!(diff.lines_structured_with_context(usize::MAX).len(), 9);
}

#[test]
fn lines_between_two_changes_are_dropped_without_a_mark() {
    let old = ["a", "1", "2", "3", "4", "5", "b"];
    let new = ["x", "1", "2", "3", "4", "5", "y"];
    let diff = Diff::new(lines(&old), lines(&new));
    assert_eq!(
        diff.lines_structured_with_context(1),
        vec![
            replaced(1, "a", 1, "x"),
            equal(2, 2, "1"),
            equal(6, 6, "5"),
            replaced(7, "b", 7, "y"),
        ]
    );
}

#[test]
fn sides_are_numbered_apart() {
    let diff = Diff::new(lines(&["a", "b", "c"]), lines(&["b", "c", "d"]));
    assert_eq!(
        diff.lines_structured_with_context(3),
        vec![removed(1, "a"), equal(2, 1, "b"), equal(3, 2, "c"), added(3, "d")]
    );
}

#[test]
fn replace_run_pairs_by_position() {
    let ops = vec![
        ChangeOp::Equal(lines(&["h"])),
        ChangeOp::Replace(lines(&["a", "b", "c"]), lines(&["x"])),
        ChangeOp::Replace(lines(&["d"]), lines(&["y", "z"])),
        ChangeOp::Equal(lines(&["t"])),
    ];
    assert_eq!(
        number_lines(&ops),
        vec![
            equal(1, 1, "h"),
            replaced(2, "a", 2, "x"),
            removed(3, "b"),
            removed(4, "c"),
            replaced(5, "d", 3, "y"),
            added(4, "z"),
            equal(6, 5, "t"),
        ]
    );
}

#[test]
fn runs_are_walked_in_order() {
    let ops = vec![
        ChangeOp::Insert(lines(&["i1", "i2"])),
        ChangeOp::Equal(lines(&["e1", "e2", "e3", "e4"])),
        ChangeOp::Remove(lines(&["r1"])),
        ChangeOp::Equal(lines(&["e5"])),
    ];
    assert_eq!(
        structured_from_ops(&ops, 1),
        vec![
            added(1, "i1"),
            added(2, "i2"),
            equal(1, 3, "e1"),
            equal(4, 6, "e4"),
            removed(5, "r1"),
            equal(6, 7, "e5"),
        ]
    );
    assert_eq!(structured_from_ops(&ops, 0), vec![added(1, "i1"), added(2, "i2"), removed(5, "r1")]);
    assert_eq!(structured_from_ops(&Vec::new(), 7), vec![]);
    let unchanged = vec![ChangeOp::Equal(lines(&["a"])), ChangeOp::Equal(lines(&["b"]))];
    assert_eq!(structured_from_ops(&unchanged, usize::MAX), vec![]);
}

#[test]
fn joined_sides() {
    let diff = Diff::new(lines(&["a", "b"]), lines(&["c"]));
    assert_eq!(diff.to_string(), ("a\nb".to_string(), "c".to_string()));
    let diff = Diff::new(lines(&[]), lines(&["", ""]));
    assert_eq!(diff.to_string(), ("".to_string(), "\n".to_string()));
}

#[test]
fn slice_report_has_no_brackets_and_commas() {
    let diff = Diff::new(lines(&["a", "b", "c"]), lines(&["a", "x", "c"]));
    let report = diff.slice();
    let shown: Vec<&str> = report.lines().collect();
    assert_eq!(shown.len(), 3);
    assert_eq!(shown[0], "    a");
    assert!(shown[1].contains("~   b -> x"));
    assert!(!shown[1].ends_with(','));
    assert_eq!(shown[2], "    c");
    let raw = prettydiff::diff_slice(&["a", "b", "c"], &["a", "x", "c"]).to_string();
    assert!(raw.starts_with("[\n") && raw.ends_with("\n]") && raw.contains(",\n"));
}

#[test]
fn slice_report_drops_lines_that_are_a_bracket() {
    let diff = Diff::new(lines(&["[", "k,,"]), lines(&["[", "k,,"]));
    assert_eq!(diff.slice(), "    ... skip(2) ...");
    let diff = Diff::new(lines(&["k,,"]), lines(&["k,,"]));
    assert_eq!(diff.slice(), "    k");
}

#[test]
fn reports_are_those_of_the_engine() {
    let diff = Diff::new(lines(&["one two", "three"]), lines(&["one 2", "three"]));
    let old = "one two\nthree";
    let new = "one 2\nthree";
    assert_eq!(
        diff.chars(),
        prettydiff::diff_chars(old, new).set_highlight_whitespace(false).format()
    );
    assert_eq!(
        diff.words(),
        prettydiff::diff_words(old, new).set_highlight_whitespace(false).format()
    );
    assert_eq!(diff.lines(), prettydiff::diff_lines(old, new).format());
    assert!(diff.words().contains("two"));
    assert!(diff.words().contains("\u{1b}["));
    assert_ne!(diff.lines(), old);
    let close = Diff::new(lines(&["one two"]), lines(&["one tao"]));
    assert_ne!(close.chars(), close.words());
}
