use mirudi::commands::error::CommandError;
use mirudi::commands::ff::handler::{check_source, frame, render};
use mirudi::commands::ff::{handle, DiffHandler, DiffMode, FFCommand, ScopeCommandInput};
use mirudi::commands::scope::Runner;
use mirudi::commands::error::{ScopeError, ScopeErrorKind};
use mirudi::config::{ConfigData, ConfigError, ConfigScopeInput, Manager, ValidatedConfigData};
use mirudi::git::{GitError, GitProvider, SourceKind};
use std::cell::RefCell;

type Call = (String, String, usize, usize, Option<SourceKind>);

/// A repository that names one branch, answers every request for lines alike
/// and keeps what it was asked for.
struct MockGit {
    branch: Result<String, GitError>,
    lines: Result<Vec<String>, GitError>,
    calls: RefCell<Vec<Call>>,
}

impl MockGit {
    fn new() -> Self {
        MockGit {
            branch: Ok("feature".to_string()),
            lines: Ok(vec!["line1".to_string(), "line2".to_string()]),
            calls: RefCell::new(Vec::new()),
        }
    }
}

impl GitProvider for MockGit {
    fn get_current_branch(&self) -> Result<String, GitError> {
        self.branch.clone()
    }

    fn list_branches(&self) -> Result<Vec<String>, GitError> {
        Ok(Vec::new())
    }

    fn extract_lines(
        &self,
        branch: &str,
        file_path: &str,
        start: usize,
        end: usize,
        source: Option<SourceKind>,
    ) -> Result<Vec<String>, GitError> {
        self.calls
            .borrow_mut()
            .push((branch.to_string(), file_path.to_string(), start, end, source));
        match &self.lines {
            Ok(lines) => Ok(lines.iter().map(|l| format!("{}:{}", branch, l)).collect()),
            Err(error) => Err(*error),
        }
    }

    fn list_changed_files(&self, _base: &str, _target: &str) -> Result<Vec<String>, GitError> {
        Ok(Vec::new())
    }

    fn is_managed(&self) -> Result<bool, GitError> {
        Ok(true)
    }
}

struct MockManager {
    data: Option<(Option<&'static str>, Option<&'static str>, Option<&'static str>, Option<&'static str>)>,
    saved: usize,
}

impl Manager for MockManager {
    fn save(&mut self, _data: &ConfigData) -> Result<(), ConfigError> {
        self.saved += 1;
        Ok(())
    }

    fn load(&mut self) -> Result<ConfigData, ConfigError> {
        match self.data {
            None => Err(ConfigError::Yaml("broken".to_string())),
            Some((base, current, old, new)) => {
                let mut data = ConfigData::default();
                if let Some(base) = base {
                    data.set_base_branch(base.to_string())?;
                }
                data.set_scope(ConfigScopeInput {
                    current_branch: current.map(|s| s.to_string()),
                    old_file_path: old.map(|s| s.to_string()),
                    new_file_path: new.map(|s| s.to_string()),
                });
                Ok(data)
            }
        }
    }

    fn get_default(&self) -> Result<ConfigData, ConfigError> {
        Ok(ConfigData::default())
    }
}

struct NeverAsked;

impl Runner for NeverAsked {
    fn exec(&self) -> Result<ConfigScopeInput, ScopeError> {
        Err(ScopeError::new(ScopeErrorKind::Other, "the user was asked"))
    }
}

fn setup_data() -> ValidatedConfigData {
    let mut config = ConfigData::default();
    config.set_base_branch("main".to_string()).unwrap();
    config.set_scope(ConfigScopeInput {
        current_branch: Some("feature".to_string()),
        old_file_path: Some("old_file.txt".to_string()),
        new_file_path: Some("new_file.txt".to_string()),
    });
    config.try_into().ok().unwrap()
}

fn setup_scope_input() -> ScopeCommandInput {
    ScopeCommandInput {
        current: false,
        branch: Some("feature".to_string()),
        old_path: Some("old_file.txt".to_string()),
        new_path: Some("new_file.txt".to_string()),
        path: None,
    }
}

fn no_scope() -> ScopeCommandInput {
    ScopeCommandInput {
        current: false,
        branch: None,
        old_path: None,
        new_path: None,
        path: None,
    }
}

fn command(source: SourceKind) -> FFCommand {
    FFCommand {
        scope: setup_scope_input(),
        old_range: "1-10".to_string(),
        new_range: "11-20".to_string(),
        source,
        mode: DiffMode::Lines,
    }
}

#[test]
fn handler_returns_ok() {
    let git = MockGit::new();
    let data = setup_data();
    let cmd = command(SourceKind::Worktree);

    let handler = DiffHandler::build(cmd, &git, data);
    let result = handler.validate_source();
    assert!(result.is_ok());
}

#[test]
fn handler_returns_error() {
    let mut git = MockGit::new();
    git.branch = Ok("main".to_string());
    let data = setup_data();
    let cmd = command(SourceKind::Worktree);

    let handler = DiffHandler::build(cmd, &git, data);
    let result = handler.validate_source();
    assert!(result.is_err());
    assert_eq!(
        result,
        Err(CommandError::InvalidInput(
            "比較するブランチが現在のブランチと異なる場合、--source=worktree を指定することはできません。現在のブランチ: feature, 指定されたブランチ: main".to_string()
        ))
    );
}

#[test]
fn returns_ok() {
    let old_lines = vec!["line1".to_string(), "line2".to_string()];
    let new_lines = vec!["line3".to_string(), "line4".to_string()];
    let data = setup_data();
    let git = MockGit::new();
    let cmd = command(SourceKind::Commit);

    let handler = DiffHandler::build(cmd, &git, data);
    let result = handler.generate_diff(old_lines, new_lines);
    assert!(result.is_ok());
    assert_eq!(
        result.unwrap(),
        prettydiff::diff_lines("line1\nline2", "line3\nline4").format()
    );
}

#[test]
fn handler_returns_vector_of_strings() {
    let git = MockGit::new();
    let handler = DiffHandler::build(command(SourceKind::Commit), &git, setup_data());

    let result = handler.extract_old_lines();
    assert!(result.is_ok());
    assert_eq!(result.unwrap(), vec!["main:line1".to_string(), "main:line2".to_string()]);
    assert_eq!(
        git.calls.borrow().clone(),
        vec![("main".to_string(), "old_file.txt".to_string(), 1, 10, Some(SourceKind::Commit))]
    );
}

#[test]
fn returns_vector_of_strings() {
    let git = MockGit::new();
    let handler = DiffHandler::build(command(SourceKind::Commit), &git, setup_data());

    let result = handler.extract_new_lines();
    assert!(result.is_ok());
    assert_eq!(
        git.calls.borrow().clone(),
        vec![("feature".to_string(), "new_file.txt".to_string(), 11, 20, Some(SourceKind::Commit))]
    );
}

#[test]
fn returns_error() {
    let mut git = MockGit::new();
    git.lines = Err(GitError::FileNotFound);
    let handler = DiffHandler::build(command(SourceKind::Commit), &git, setup_data());

    let result = handler.extract_old_lines();
    assert!(result.is_err());
    assert_eq!(result, Err(CommandError::Git(GitError::FileNotFound)));
    let result = handler.extract_new_lines();
    assert!(result.is_err());
    assert_eq!(result, Err(CommandError::Git(GitError::FileNotFound)));
}

#[test]
fn scope_input_returns_ok() {
    let cmd = no_scope();
    let mut config = MockManager { data: None, saved: 0 };
    let git = MockGit::new();

    let result = cmd.resolve_scope_silently(&mut config, &git, Box::new(NeverAsked));
    assert!(result.is_ok());
    assert_eq!(config.saved, 0);
}

#[test]
fn scope_input_becomes_a_scope_command() {
    let cmd = setup_scope_input().to_scope_command();
    assert!(!cmd.current);
    assert_eq!(cmd.branch, Some("feature".to_string()));
    assert_eq!(cmd.old, Some("old_file.txt".to_string()));
    assert_eq!(cmd.new, Some("new_file.txt".to_string()));
    assert_eq!(cmd.path, None);
}

#[test]
fn scope_failure_is_reported_as_io() {
    let cmd = ScopeCommandInput {
        current: true,
        branch: Some("feature".to_string()),
        old_path: None,
        new_path: None,
        path: None,
    };
    let mut config = MockManager { data: Some((None, None, None, None)), saved: 0 };
    let git = MockGit::new();
    let result = cmd.resolve_scope_silently(&mut config, &git, Box::new(NeverAsked));
    assert_eq!(
        result,
        Err(CommandError::IO("current と branch は同時に指定できません".to_string()))
    );
    assert_eq!(config.saved, 0);
}

#[test]
fn commit_source_is_compared_on_any_branch() {
    let main = "main".to_string();
    let feature = "feature".to_string();
    assert_eq!(check_source(SourceKind::Commit, &feature, &main), Ok(()));
    assert_eq!(check_source(SourceKind::Commit, &feature, &feature), Ok(()));
    assert_eq!(check_source(SourceKind::Worktree, &feature, &feature), Ok(()));
    assert!(check_source(SourceKind::Worktree, &feature, &main).is_err());
    let mut git = MockGit::new();
    git.branch = Err(GitError::NotGitManaged);
    let handler = DiffHandler::build(command(SourceKind::Commit), &git, setup_data());
    assert_eq!(handler.validate_source(), Err(CommandError::Git(GitError::NotGitManaged)));
}

#[test]
fn range_that_cannot_be_read_stops_before_the_repository() {
    let git = MockGit::new();
    let mut cmd = command(SourceKind::Commit);
    cmd.old_range = "10-1".to_string();
    cmd.new_range = "x".to_string();
    let handler = DiffHandler::build(cmd, &git, setup_data());
    assert_eq!(
        handler.extract_old_lines(),
        Err(CommandError::InvalidInput(
            "開始値 '10' は終了値 '1' より大きくはできません。".to_string()
        ))
    );
    assert_eq!(
        handler.extract_new_lines(),
        Err(CommandError::ArgParse("範囲 'x' が正しくありません。例: 1-10".to_string()))
    );
    assert!(git.calls.borrow().is_empty());
}

#[test]
fn exec_frames_the_rendered_diff() {
    let git = MockGit::new();
    let mut handler = DiffHandler::build(command(SourceKind::Commit), &git, setup_data());
    let shown = handler.exec().unwrap();
    let body = prettydiff::diff_lines("main:line1\nmain:line2", "feature:line1\nfeature:line2").format();
    assert_eq!(
        shown,
        format!(
            "\x1b[1;34m=== Diff Mode: LINES ===\x1b[0m\n{}\n\x1b[1;34m==============================\x1b[0m\n\n",
            body
        )
    );
    assert_eq!(git.calls.borrow().len(), 2);
}

#[test]
fn frame_names_the_mode() {
    assert_eq!(
        frame(DiffMode::Slice, "x"),
        "\x1b[1;34m=== Diff Mode: SLICE ===\x1b[0m\nx\n\x1b[1;34m==============================\x1b[0m\n\n"
    );
    assert!(frame(DiffMode::Words, "").starts_with("\x1b[1;34m=== Diff Mode: WORDS ===\x1b[0m\n\n"));
    assert!(frame(DiffMode::Chars, "").contains("CHARS"));
    for mode in [DiffMode::Slice, DiffMode::Words, DiffMode::Lines, DiffMode::Chars] {
        assert_eq!(mode.to_title(), mode.to_string().to_uppercase());
    }
    assert_eq!(DiffMode::Slice.to_string(), "slice");
    assert_eq!(DiffMode::Words.to_string(), "words");
    assert_eq!(DiffMode::Lines.to_string(), "lines");
    assert_eq!(DiffMode::Chars.to_string(), "chars");
}

#[test]
fn render_follows_the_mode() {
    let old = vec!["a b".to_string(), "c".to_string()];
    let new = vec!["a x".to_string(), "c".to_string()];
    assert_eq!(
        render(DiffMode::Words, old.clone(), new.clone()),
        prettydiff::diff_words("a b\nc", "a x\nc").set_highlight_whitespace(false).format()
    );
    assert_eq!(
        render(DiffMode::Chars, old.clone(), new.clone()),
        prettydiff::diff_chars("a b\nc", "a x\nc").set_highlight_whitespace(false).format()
    );
    let slice = render(DiffMode::Slice, old, new);
    assert!(!slice.contains('[') || slice.contains("\u{1b}["));
    assert_eq!(slice.lines().count(), 2);
}

#[test]
fn handle_needs_a_complete_configuration() {
    let git = MockGit::new();
    let mut cmd = command(SourceKind::Commit);
    cmd.scope = no_scope();
    let mut config = MockManager { data: Some((Some("main"), Some("feature"), None, Some("n"))), saved: 0 };
    assert_eq!(
        handle(cmd, &mut config, &git, Box::new(NeverAsked)),
        Err(CommandError::Config(ConfigError::MissingField("old_file_path".to_string())))
    );

    let mut cmd = command(SourceKind::Commit);
    cmd.scope = no_scope();
    let mut config = MockManager { data: None, saved: 0 };
    assert_eq!(
        handle(cmd, &mut config, &git, Box::new(NeverAsked)),
        Err(CommandError::Config(ConfigError::Yaml("broken".to_string())))
    );

    let mut cmd = command(SourceKind::Commit);
    cmd.scope = no_scope();
    let mut config = MockManager { data: Some((Some("main"), Some("feature"), Some("o"), Some("n"))), saved: 0 };
    let shown = handle(cmd, &mut config, &git, Box::new(NeverAsked)).unwrap();
    assert!(shown.starts_with("\x1b[1;34m=== Diff Mode: LINES ===\x1b[0m\n"));
    assert_eq!(
        git.calls.borrow().clone(),
        vec![
            ("main".to_string(), "o".to_string(), 1, 10, Some(SourceKind::Commit)),
            ("feature".to_string(), "n".to_string(), 11, 20, Some(SourceKind::Commit)),
        ]
    );
}
