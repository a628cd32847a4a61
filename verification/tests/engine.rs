use mirudi::diff::{Diff, DiffType, LineDiff};
use mirudi::git::Git;

/// A small generator of numbers that gives the same numbers on every run.
struct Numbers(u64);

impl Numbers {
    fn next(&mut self, below: u64) -> u64 {
        self.0 = self.0.wrapping_mul(6364136223846793005).wrapping_add(1442695040888963407);
        (self.0 >> 33) % below
    }

    fn lines(&mut self, longest: u64, letters: u64) -> Vec<String> {
        let len = self.next(longest + 1);
        (0..len).map(|_| ((b'a' + self.next(letters) as u8) as char).to_string()).collect()
    }
}

fn old_side(lines: &[LineDiff]) -> Vec<(usize, String)> {
    lines
        .iter()
        .filter_map(|line| line.old.as_ref().map(|old| (old.lineno, old.content.clone())))
        .collect()
}

fn new_side(lines: &[LineDiff]) -> Vec<(usize, String)> {
    lines
        .iter()
        .filter_map(|line| line.new.as_ref().map(|new| (new.lineno, new.content.clone())))
        .collect()
}

fn numbered(lines: &[String]) -> Vec<(usize, String)> {
    lines.iter().enumerate().map(|(i, line)| (i + 1, line.clone())).collect()
}

#[test]
fn whole_diff_holds_each_side_once_and_in_order() {
    let mut numbers = Numbers(7);
    let mut changed = 0;
    for _ in 0..400 {
        let old = numbers.lines(9, 3);
        let new = numbers.lines(9, 3);
        let lines = Diff::new(old.clone(), new.clone()).lines_structured_with_context(usize::MAX);
        if old == new {
            assert!(lines.is_empty());
            continue;
        }
        changed += 1;
        assert_eq!(old_side(&lines), numbered(&old), "{:?} {:?}", old, new);
        assert_eq!(new_side(&lines), numbered(&new), "{:?} {:?}", old, new);
    }
    assert!(changed > 300);
}

#[test]
fn every_line_has_the_shape_of_its_kind() {
    let mut numbers = Numbers(11);
    for _ in 0..400 {
        let old = numbers.lines(8, 2);
        let new = numbers.lines(8, 2);
        let context = numbers.next(4) as usize;
        for line in Diff::new(old, new).lines_structured_with_context(context) {
            match line.diff_type {
                DiffType::Added => assert!(line.old.is_none() && line.new.is_some()),
                DiffType::Removed => assert!(line.old.is_some() && line.new.is_none()),
                DiffType::Replaced => assert!(line.old.is_some() && line.new.is_some()),
                DiffType::Equaled => {
                    assert_eq!(line.old.unwrap().content, line.new.unwrap().content)
                }
            }
        }
    }
}

#[test]
fn context_keeps_the_changes_and_what_stands_near_them() {
    let mut numbers = Numbers(23);
    for _ in 0..300 {
        let old = numbers.lines(10, 3);
        let new = numbers.lines(10, 3);
        let diff = Diff::new(old, new);
        let whole = diff.lines_structured_with_context(usize::MAX);
        let changes: Vec<usize> = whole
            .iter()
            .enumerate()
            .filter(|(_, line)| line.diff_type != DiffType::Equaled)
            .map(|(i, _)| i)
            .collect();
        for context in 0..4usize {
            let expected: Vec<&LineDiff> = whole
                .iter()
                .enumerate()
                .filter(|(i, _)| changes.iter().any(|c| c.abs_diff(*i) <= context))
                .map(|(_, line)| line)
                .collect();
            let kept = diff.lines_structured_with_context(context);
            assert_eq!(kept.iter().collect::<Vec<_>>(), expected);
        }
    }
}

/// The lines of a text, written out from the rule: a line ends at a line
/// feed, which may follow a carriage return, and the last line needs no end.
fn lines_by_rule(text: &str) -> Vec<String> {
    let chars: Vec<char> = text.chars().collect();
    let mut lines = Vec::new();
    let mut start = 0;
    while start < chars.len() {
        let mut end = start;
        while end < chars.len() && chars[end] != '\n' {
            end += 1;
        }
        if end == chars.len() {
            lines.push(chars[start..].iter().collect());
            break;
        }
        let mut line_end = end;
        if line_end > start && chars[line_end - 1] == '\r' {
            line_end -= 1;
        }
        lines.push(chars[start..line_end].iter().collect());
        start = end + 1;
    }
    lines
}

#[test]
fn lines_follow_the_rule() {
    let mut numbers = Numbers(3);
    let letters = ['a', '\n', '\r', 'é', ' '];
    for _ in 0..2000 {
        let len = numbers.next(9);
        let text: String = (0..len).map(|_| letters[numbers.next(5) as usize]).collect();
        let expected = lines_by_rule(&text);
        assert_eq!(
            Git::new().extract_lines_from_string(&text, 1, usize::MAX),
            Ok(expected.clone()),
            "{:?}",
            text
        );
        let start = 1 + numbers.next(4) as usize;
        let end = numbers.next(6) as usize;
        let cut: Vec<String> = if end < start {
            Vec::new()
        } else {
            expected.iter().skip(start - 1).take(end - start + 1).cloned().collect()
        };
        assert_eq!(Git::new().extract_lines_from_string(&text, start, end), Ok(cut));
    }
}
