use mirudi::commands::error::{ScopeError, ScopeErrorKind};
use mirudi::commands::scope::handler::{completion, DepsBuilder, HandleBuilder, Handler};
use mirudi::commands::scope::{handle, run_scope_silently, Runner, ScopeCommand};
use mirudi::config::{ConfigData, ConfigError, ConfigScopeInput, Manager};
use mirudi::git::{GitError, GitProvider, SourceKind};
use std::cell::{Cell, RefCell};

/// A manager that keeps the configuration in memory and counts its calls.
struct MockManager {
    stored: RefCell<(Option<String>, Option<String>, Option<String>, Option<String>)>,
    fail_load: bool,
    fail_save: bool,
    loads: Cell<usize>,
    saves: Cell<usize>,
}

impl MockManager {
    fn new() -> Self {
        MockManager {
            stored: RefCell::new((None, None, None, None)),
            fail_load: false,
            fail_save: false,
            loads: Cell::new(0),
            saves: Cell::new(0),
        }
    }
}

impl Manager for MockManager {
    fn save(&mut self, data: &ConfigData) -> Result<(), ConfigError> {
        self.saves.set(self.saves.get() + 1);
        if self.fail_save {
            return Err(ConfigError::EmptyBranchName);
        }
        *self.stored.borrow_mut() = (
            data.base_branch(),
            data.current_branch(),
            data.old_file_path(),
            data.new_file_path(),
        );
        Ok(())
    }

    fn load(&mut self) -> Result<ConfigData, ConfigError> {
        self.loads.set(self.loads.get() + 1);
        if self.fail_load {
            return Err(ConfigError::EmptyBranchName);
        }
        let stored = self.stored.borrow().clone();
        let mut data = ConfigData::default();
        if let Some(base) = stored.0 {
            data.set_base_branch(base)?;
        }
        data.set_scope(ConfigScopeInput {
            current_branch: stored.1,
            old_file_path: stored.2,
            new_file_path: stored.3,
        });
        Ok(data)
    }

    fn get_default(&self) -> Result<ConfigData, ConfigError> {
        Ok(ConfigData::default())
    }
}

/// A repository that names one branch.
struct MockGit {
    branch: Result<String, GitError>,
}

impl MockGit {
    fn new() -> Self {
        MockGit { branch: Ok("test_branch".to_string()) }
    }
}

impl GitProvider for MockGit {
    fn get_current_branch(&self) -> Result<String, GitError> {
        self.branch.clone()
    }

    fn list_branches(&self) -> Result<Vec<String>, GitError> {
        Ok(vec!["main".to_string()])
    }

    fn extract_lines(
        &self,
        _branch: &str,
        _file_path: &str,
        _start: usize,
        _end: usize,
        _source: Option<SourceKind>,
    ) -> Result<Vec<String>, GitError> {
        Ok(Vec::new())
    }

    fn list_changed_files(&self, _base: &str, _target: &str) -> Result<Vec<String>, GitError> {
        Ok(Vec::new())
    }

    fn is_managed(&self) -> Result<bool, GitError> {
        Ok(true)
    }
}

/// A runner that answers with a fixed scope and counts how often it is asked.
struct MockRunner<'a> {
    asked: &'a Cell<usize>,
}

impl Runner for MockRunner<'_> {
    fn exec(&self) -> Result<ConfigScopeInput, ScopeError> {
        self.asked.set(self.asked.get() + 1);
        Ok(ConfigScopeInput {
            current_branch: Some("test_branch".to_string()),
            old_file_path: Some("old_path".to_string()),
            new_file_path: Some("new_path".to_string()),
        })
    }
}

fn current_only() -> ScopeCommand {
    ScopeCommand {
        current: true,
        branch: None,
        old: None,
        new: None,
        path: None,
    }
}

fn nothing_given() -> ScopeCommand {
    ScopeCommand {
        current: false,
        branch: None,
        old: None,
        new: None,
        path: None,
    }
}

fn build_handler<'a>(
    cmd: ScopeCommand,
    config: &'a mut MockManager,
    asked: &'a Cell<usize>,
) -> Handler<'a, MockManager, MockRunner<'a>> {
    HandleBuilder::new()
        .cmd(cmd)
        .config(config)
        .prompt_input(Box::new(MockRunner { asked }))
        .get_current_branch_name(|| Ok("test_branch".to_string()))
        .no_display(true)
        .build()
        .ok()
        .unwrap()
}

#[test]
fn handler_test_build() {
    let git = MockGit::new();
    let asked = Cell::new(0);
    let result = DepsBuilder::new().git(&git).build(Box::new(MockRunner { asked: &asked }));
    assert!(result.is_ok());
}

#[test]
fn test_build_without_git() {
    let asked = Cell::new(0);
    let result = DepsBuilder::<MockGit>::new().build(Box::new(MockRunner { asked: &asked }));
    assert!(result.is_err());
    let err = result.err().unwrap();
    assert_eq!(err.kind(), ScopeErrorKind::InvalidInput);
    assert_eq!(err.to_string(), "git が設定されていません");
}

#[test]
fn test_build() {
    let cmd = current_only();
    let mut config = MockManager::new();
    let asked = Cell::new(0);
    let prompt_input = Box::new(MockRunner { asked: &asked });
    let get_current_branch_name = Box::new(|| Ok("test_branch".to_string()));

    let result = HandleBuilder::new()
        .cmd(cmd)
        .config(&mut config)
        .prompt_input(prompt_input)
        .get_current_branch_name(get_current_branch_name)
        .build();

    assert!(result.is_ok());
}

#[test]
fn test_build_without_cmd() {
    let mut config = MockManager::new();
    let asked = Cell::new(0);
    let prompt_input = Box::new(MockRunner { asked: &asked });
    let get_current_branch_name = Box::new(|| Ok("test_branch".to_string()));

    let result = HandleBuilder::new()
        .config(&mut config)
        .prompt_input(prompt_input)
        .get_current_branch_name(get_current_branch_name)
        .build();

    assert!(result.is_err());
    assert_eq!(result.err().unwrap().to_string(), "コマンドが指定されていません");
}

#[test]
fn test_build_without_config() {
    let cmd = current_only();
    let asked = Cell::new(0);
    let prompt_input = Box::new(MockRunner { asked: &asked });
    let get_current_branch_name = Box::new(|| Ok("test_branch".to_string()));
    let result = HandleBuilder::<MockManager, _>::new()
        .cmd(cmd)
        .prompt_input(prompt_input)
        .get_current_branch_name(get_current_branch_name)
        .build();
    assert!(result.is_err());
    assert_eq!(result.err().unwrap().to_string(), "設定が指定されていません");
}

#[test]
fn test_build_without_prompt_input() {
    let cmd = current_only();
    let mut config = MockManager::new();
    let get_current_branch_name = Box::new(|| Ok("test_branch".to_string()));
    let result = HandleBuilder::<_, MockRunner>::new()
        .cmd(cmd)
        .config(&mut config)
        .get_current_branch_name(get_current_branch_name)
        .build();
    assert!(result.is_err());
    assert_eq!(
        result.err().unwrap().to_string(),
        "プロンプト入力が指定されていません"
    );
}

#[test]
fn test_build_without_get_current_branch_name() {
    let cmd = current_only();
    let mut config = MockManager::new();
    let asked = Cell::new(0);
    let prompt_input = Box::new(MockRunner { asked: &asked });
    let result = HandleBuilder::new()
        .cmd(cmd)
        .config(&mut config)
        .prompt_input(prompt_input)
        .build();
    assert!(result.is_err());
    let err = result.err().unwrap();
    assert_eq!(err.kind(), ScopeErrorKind::InvalidInput);
    assert_eq!(err.to_string(), "ブランチ名取得関数が指定されていません");
}

#[test]
fn test_exec() {
    let mut config = MockManager::new();
    let asked = Cell::new(0);
    {
        let mut handler = build_handler(current_only(), &mut config, &asked);
        let result = handler.exec();
        assert!(result.is_ok());
        assert_eq!(result.unwrap(), "");
    }
    assert_eq!(config.loads.get(), 2);
    assert_eq!(config.saves.get(), 1);
    assert_eq!(asked.get(), 0);
    assert_eq!(config.stored.borrow().1, Some("test_branch".to_string()));
}

#[test]
fn test_get_current_data_ok() {
    let mut config = MockManager::new();
    let asked = Cell::new(0);
    {
        let mut handler = build_handler(current_only(), &mut config, &asked);
        let result = handler.get_current_data();
        assert!(result.is_ok());
    }
    assert_eq!(config.loads.get(), 1);
}

#[test]
fn test_get_current_data_error() {
    let mut config = MockManager::new();
    config.fail_load = true;
    let asked = Cell::new(0);
    let mut handler = build_handler(current_only(), &mut config, &asked);
    let result = handler.get_current_data();
    assert!(result.is_err());
    let err = result.err().unwrap();
    assert_eq!(err.kind(), ScopeErrorKind::Other);
    assert_eq!(err.to_string(), "設定の読み込みに失敗しました");
}

#[test]
fn test_get_input_cmd_is_filled() {
    let mut config = MockManager::new();
    let asked = Cell::new(0);
    let handler = build_handler(current_only(), &mut config, &asked);

    let result = handler.get_input();
    assert!(result.is_ok());
    let input = result.ok().unwrap();
    assert_eq!(input.current_branch, Some("test_branch".to_string()));
    assert_eq!(input.old_file_path, None);
    assert_eq!(input.new_file_path, None);
    assert_eq!(asked.get(), 0);
}

#[test]
fn test_get_input_cmd_is_empty() {
    let mut config = MockManager::new();
    let asked = Cell::new(0);
    let handler = build_handler(nothing_given(), &mut config, &asked);
    let result = handler.get_input();
    assert!(result.is_ok());
    let input = result.ok().unwrap();
    assert_eq!(input.current_branch, Some("test_branch".to_string()));
    assert_eq!(input.old_file_path, Some("old_path".to_string()));
    assert_eq!(input.new_file_path, Some("new_path".to_string()));
    assert_eq!(asked.get(), 1);
}

#[test]
fn test_save_data_ok() {
    let mut config = MockManager::new();
    let asked = Cell::new(0);
    let data = ConfigData::default();
    {
        let mut handler = build_handler(current_only(), &mut config, &asked);
        let result = handler.save_data(&data);
        assert!(result.is_ok());
    }
    assert_eq!(config.saves.get(), 1);
}

#[test]
fn test_save_data_error() {
    let mut config = MockManager::new();
    config.fail_save = true;
    let asked = Cell::new(0);
    let data = ConfigData::default();
    {
        let mut handler = build_handler(current_only(), &mut config, &asked);
        let result = handler.save_data(&data);
        assert!(result.is_err());
        let err = result.err().unwrap();
        assert_eq!(err.kind(), ScopeErrorKind::Other);
        assert_eq!(err.to_string(), "設定の保存に失敗しました");
    }
    assert_eq!(config.saves.get(), 1);
}

#[test]
fn mod_returns_ok() {
    let cmd = current_only();
    let mut config = MockManager::new();
    let git = MockGit::new();
    let asked = Cell::new(0);

    let result = handle(cmd, &mut config, &git, Box::new(MockRunner { asked: &asked }));
    assert!(result.is_ok());
    assert_eq!(
        result.unwrap(),
        "\n設定が完了しました！\n- ブランチ: test_branch\n- 古いパス: 未設定\n- 新しいパス: 未設定\n"
    );
}

#[test]
fn run_scope_silently_returns_ok() {
    let cmd = current_only();
    let mut config = MockManager::new();
    let git = MockGit::new();
    let asked = Cell::new(0);
    let result = run_scope_silently(cmd, &mut config, &git, Box::new(MockRunner { asked: &asked }));
    assert!(result.is_ok());
    assert_eq!(config.stored.borrow().1, Some("test_branch".to_string()));
}

#[test]
fn exec_stops_at_the_first_failure() {
    let asked = Cell::new(0);
    let mut config = MockManager::new();
    config.fail_load = true;
    {
        let mut handler = build_handler(current_only(), &mut config, &asked);
        assert_eq!(handler.exec().err().unwrap().to_string(), "設定の読み込みに失敗しました");
    }
    assert_eq!((config.loads.get(), config.saves.get()), (1, 0));

    let mut config = MockManager::new();
    config.fail_save = true;
    {
        let mut handler = build_handler(current_only(), &mut config, &asked);
        assert_eq!(handler.exec().err().unwrap().to_string(), "設定の保存に失敗しました");
    }
    assert_eq!((config.loads.get(), config.saves.get()), (1, 1));

    let mut config = MockManager::new();
    let cmd = ScopeCommand {
        current: true,
        branch: Some("main".to_string()),
        old: None,
        new: None,
        path: None,
    };
    {
        let mut handler = build_handler(cmd, &mut config, &asked);
        let err = handler.exec().err().unwrap();
        assert_eq!(err.kind(), ScopeErrorKind::InvalidInput);
        assert_eq!(err.to_string(), "current と branch は同時に指定できません");
    }
    assert_eq!((config.loads.get(), config.saves.get()), (1, 0));
}

#[test]
fn branch_is_resolved_before_the_paths() {
    let asked = Cell::new(0);
    let mut config = MockManager::new();
    let cmd = ScopeCommand {
        current: false,
        branch: Some(" ".to_string()),
        old: Some("a".to_string()),
        new: None,
        path: Some("b".to_string()),
    };
    let handler = build_handler(cmd, &mut config, &asked);
    assert_eq!(handler.get_input().err().unwrap().to_string(), "空のブランチ名は無効です");

    let mut config = MockManager::new();
    let cmd = ScopeCommand {
        current: false,
        branch: Some("main".to_string()),
        old: None,
        new: Some("a".to_string()),
        path: Some("b".to_string()),
    };
    let handler = build_handler(cmd, &mut config, &asked);
    assert_eq!(
        handler.get_input().err().unwrap().to_string(),
        "new または old と path は併用できません"
    );
}

#[test]
fn repository_that_names_no_branch_fails_the_scope() {
    let mut config = MockManager::new();
    let git = MockGit { branch: Err(GitError::NotGitManaged) };
    let asked = Cell::new(0);
    let result = handle(current_only(), &mut config, &git, Box::new(MockRunner { asked: &asked }));
    let err = result.err().unwrap();
    assert_eq!(err.kind(), ScopeErrorKind::Other);
    assert_eq!(err.to_string(), "Git のブランチ名の取得に失敗しました");
    assert_eq!(config.saves.get(), 0);
}

#[test]
fn scope_without_options_asks_the_user() {
    let mut config = MockManager::new();
    let git = MockGit::new();
    let asked = Cell::new(0);
    let result = handle(nothing_given(), &mut config, &git, Box::new(MockRunner { asked: &asked }));
    assert_eq!(
        result.unwrap(),
        "\n設定が完了しました！\n- ブランチ: test_branch\n- 古いパス: old_path\n- 新しいパス: new_path\n"
    );
    assert_eq!(asked.get(), 1);
}

#[test]
fn completion_names_what_is_set() {
    let mut data = ConfigData::default();
    data.set_scope(ConfigScopeInput {
        current_branch: None,
        old_file_path: Some("a.txt".to_string()),
        new_file_path: None,
    });
    assert_eq!(
        completion(&data),
        "\n設定が完了しました！\n- ブランチ: 未設定\n- 古いパス: a.txt\n- 新しいパス: 未設定\n"
    );
}
