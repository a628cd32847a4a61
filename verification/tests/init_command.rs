use mirudi::commands::error::CommandError;
use mirudi::commands::init::{accept_input, handle, with_handle_init};
use mirudi::commands::InitCommand;
use mirudi::config::{ConfigData, ConfigError, Manager};

/// A manager that keeps the base branch that was saved last.
struct MockManager {
    saved: Vec<Option<String>>,
    fail_save: bool,
}

impl MockManager {
    fn new() -> Self {
        MockManager { saved: Vec::new(), fail_save: false }
    }
}

impl Manager for MockManager {
    fn save(&mut self, data: &ConfigData) -> Result<(), ConfigError> {
        if self.fail_save {
            return Err(ConfigError::Yaml("cannot be written".to_string()));
        }
        self.saved.push(data.base_branch());
        Ok(())
    }

    fn load(&mut self) -> Result<ConfigData, ConfigError> {
        Ok(ConfigData::default())
    }

    fn get_default(&self) -> Result<ConfigData, ConfigError> {
        Ok(ConfigData::default())
    }
}

fn mock_prompt_for_input() -> Result<String, CommandError> {
    Ok("test_branch".to_string())
}

fn mock_handle_init(cmd: InitCommand, config: &mut MockManager) -> Result<String, CommandError> {
    with_handle_init(cmd, config, mock_prompt_for_input)
}

#[test]
fn test_handle_init_with_base_option() {
    let mut mock_manager = MockManager::new();
    let cmd = InitCommand {
        base: Some("test_branch".to_string()),
    };
    let result = mock_handle_init(cmd, &mut mock_manager);

    assert!(result.is_ok());
    assert_eq!(mock_manager.saved, vec![Some("test_branch".to_string())]);
    assert_eq!(result.unwrap(), "base_branch を 'test_branch' に設定しました\n");
}

#[test]
fn test_handle_init_with_empty_base_option() {
    let mut mock_manager = MockManager::new();
    let cmd = InitCommand {
        base: Some("".to_string()),
    };
    let result = mock_handle_init(cmd, &mut mock_manager);

    assert!(result.is_err());
    assert_eq!(result, Err(CommandError::IO("空のブランチ名は無効です".to_string())));
    assert!(mock_manager.saved.is_empty());
}

#[test]
fn test_handle_init_with_none_base_option() {
    let mut mock_manager = MockManager::new();
    let cmd = InitCommand { base: None };
    let result = mock_handle_init(cmd, &mut mock_manager);

    assert!(result.is_ok());
    assert_eq!(mock_manager.saved, vec![Some("test_branch".to_string())]);
}

#[test]
fn given_base_branch_is_trimmed() {
    let mut manager = MockManager::new();
    let cmd = InitCommand { base: Some("  main\t".to_string()) };
    let result = handle(cmd, &mut manager, mock_prompt_for_input);
    assert_eq!(result, Ok("base_branch を 'main' に設定しました\n".to_string()));
    assert_eq!(manager.saved, vec![Some("main".to_string())]);

    let mut manager = MockManager::new();
    let cmd = InitCommand { base: Some(" \u{3000}\n".to_string()) };
    let result = handle(cmd, &mut manager, mock_prompt_for_input);
    assert_eq!(result, Err(CommandError::IO("空のブランチ名は無効です".to_string())));
}

#[test]
fn answer_of_the_user_is_taken_as_it_is() {
    let mut manager = MockManager::new();
    let result = handle(InitCommand { base: None }, &mut manager, || Ok(" dev ".to_string()));
    assert_eq!(result, Ok("base_branch を ' dev ' に設定しました\n".to_string()));

    let mut manager = MockManager::new();
    let result = handle(InitCommand { base: None }, &mut manager, || Ok(String::new()));
    assert_eq!(result, Err(CommandError::Config(ConfigError::EmptyBranchName)));
    assert!(manager.saved.is_empty());

    let mut manager = MockManager::new();
    let result = handle(InitCommand { base: None }, &mut manager, || {
        Err(CommandError::InvalidInput("入力が空です".to_string()))
    });
    assert_eq!(result, Err(CommandError::InvalidInput("入力が空です".to_string())));
}

#[test]
fn failure_to_save_is_reported() {
    let mut manager = MockManager::new();
    manager.fail_save = true;
    let result = handle(InitCommand { base: Some("main".to_string()) }, &mut manager, mock_prompt_for_input);
    assert_eq!(
        result,
        Err(CommandError::Config(ConfigError::Yaml("cannot be written".to_string())))
    );
}

#[test]
fn typed_line_is_trimmed_and_must_leave_something() {
    assert_eq!(accept_input("main\n"), Ok("main".to_string()));
    assert_eq!(accept_input("  feature/x \r\n"), Ok("feature/x".to_string()));
    assert_eq!(accept_input("a b"), Ok("a b".to_string()));
    assert_eq!(accept_input(""), Err(CommandError::InvalidInput("入力が空です".to_string())));
    assert_eq!(accept_input(" \n"), Err(CommandError::InvalidInput("入力が空です".to_string())));
}
