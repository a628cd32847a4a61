//! The init command: sets the base branch that the current branch is
//! compared with.

use vstd::prelude::*;
use vstd::string::*;

use crate::commands::error::CommandError;
use crate::config::data::{ConfigData, ConfigView};
use crate::config::error::ConfigError;
use crate::config::manager::Manager;
use crate::text::{blank, is_blank, trim, trimmed};

verus! {

/// The options of the init command.
pub struct InitCommand {
    /// The base branch; where it is not given, the user is asked.
    pub base: Option<String>,
}

/// The question for the base branch.
pub open spec fn base_branch_question() -> Seq<char> {
    "デフォルトのブランチ名を教えてください"@
}

/// What is shown when the base branch is set.
pub open spec fn base_branch_set(branch: Seq<char>) -> Seq<char> {
    "base_branch を '"@ + branch + "' に設定しました\n"@
}

/// What a line that the user typed amounts to: the line without the white
/// space around it, which must leave something.
pub fn accept_input(line: &str) -> (result: Result<String, CommandError>)
    ensures
        is_blank(line@) ==> (result matches Err(CommandError::InvalidInput(message)) && message@
            == "入力が空です"@),
        !is_blank(line@) ==> (result matches Ok(text) && text@ == trimmed(line@)),
{
    let text = trim(line);
    if text.as_str().is_empty() {
        return Err(CommandError::InvalidInput("入力が空です".to_string()));
    }
    Ok(text)
}

/// Whether `result` is what setting the base branch to `branch` gives,
/// where `defaults` and `saves` say what the configuration may answer: the
/// branch is set in the configuration to start from and that is saved. An
/// empty branch is refused, and a failure of the configuration is handed
/// on. On success, what is shown names the branch.
pub open spec fn sets_base(
    branch: Seq<char>,
    defaults: spec_fn(Result<ConfigData, ConfigError>) -> bool,
    saves: spec_fn(ConfigData, Result<(), ConfigError>) -> bool,
    result: Result<String, CommandError>,
) -> bool {
    exists|start: Result<ConfigData, ConfigError>|
        #![trigger defaults(start)]
        defaults(start) && (match start {
            Err(error) => result matches Err(CommandError::Config(cause)) && cause == error,
            Ok(data) => if branch.len() == 0 {
                result matches Err(CommandError::Config(ConfigError::EmptyBranchName))
            } else {
                exists|changed: ConfigData, saved: Result<(), ConfigError>|
                    #![trigger saves(changed, saved)]
                    {
                        &&& changed.deep_view() == (ConfigView {
                            base_branch: Some(branch),
                            ..data.deep_view()
                        })
                        &&& saves(changed, saved)
                        &&& match saved {
                            Ok(_) => result matches Ok(text) && text@ == base_branch_set(branch),
                            Err(error) => result matches Err(CommandError::Config(cause))
                                && cause == error,
                        }
                    }
            },
        })
}

/// Whether `result` is an outcome of the init command for these options,
/// where `asked` says what may come back from asking the user and
/// `defaults` and `saves` what the configuration may answer.
///
/// A base branch given as blank text is refused. One given otherwise is
/// taken without the white space around it. Where none is given the user is
/// asked, and a failure to ask is handed on. The branch is then set.
pub open spec fn init_outcome(
    base: Option<Seq<char>>,
    asked: spec_fn(Result<String, CommandError>) -> bool,
    defaults: spec_fn(Result<ConfigData, ConfigError>) -> bool,
    saves: spec_fn(ConfigData, Result<(), ConfigError>) -> bool,
    result: Result<String, CommandError>,
) -> bool {
    match base {
        Some(given) => if is_blank(given) {
            result matches Err(CommandError::IO(message)) && message@
                == "空のブランチ名は無効です"@
        } else {
            sets_base(trimmed(given), defaults, saves, result)
        },
        None => exists|answer: Result<String, CommandError>|
            #![trigger asked(answer)]
            asked(answer) && (match answer {
                Ok(branch) => sets_base(branch@, defaults, saves, result),
                Err(error) => result matches Err(same) && same == error,
            }),
    }
}

/// Sets the base branch to the one given, or to the one that `input_fn`
/// asks the user for, in the configuration in which nothing else is set,
/// and saves it. What comes back is the text to show.
pub fn with_handle_init<M: Manager + ?Sized, F: Fn() -> Result<String, CommandError>>(
    cmd: InitCommand,
    config: &mut M,
    input_fn: F,
) -> (result: Result<String, CommandError>)
    requires
        input_fn.requires(()),
    ensures
        init_outcome(
            cmd.base.deep_view(),
            |answer: Result<String, CommandError>| input_fn.ensures((), answer),
            |start: Result<ConfigData, ConfigError>| old(config).gives_default(start),
            |changed: ConfigData, saved: Result<(), ConfigError>|
                old(config).saves(&changed, saved),
            result,
        ),
{
    let ghost asked = |answer: Result<String, CommandError>| input_fn.ensures((), answer);
    let ghost defaults = |start: Result<ConfigData, ConfigError>| old(config).gives_default(start);
    let ghost saves = |changed: ConfigData, saved: Result<(), ConfigError>|
        old(config).saves(&changed, saved);
    let branch = match &cmd.base {
        Some(given) => {
            if blank(given.as_str()) {
                return Err(CommandError::IO("空のブランチ名は無効です".to_string()));
            }
            trim(given.as_str())
        },
        None => {
            let answered = input_fn();
            assert(asked(answered));
            match answered {
                Ok(branch) => branch,
                Err(error) => {
                    return Err(error);
                },
            }
        },
    };
    let start = config.get_default();
    assert(defaults(start));
    let mut data = match start {
        Ok(data) => data,
        Err(error) => {
            let result = Err(CommandError::from(error));
            assert(sets_base(branch@, defaults, saves, result));
            assert(cmd.base is None ==> asked(Ok(branch)));
            return result;
        },
    };
    match data.set_base_branch(branch.clone()) {
        Ok(()) => {},
        Err(error) => {
            let result = Err(CommandError::from(error));
            assert(sets_base(branch@, defaults, saves, result));
            assert(cmd.base is None ==> asked(Ok(branch)));
            return result;
        },
    }
    let saved = config.save(&data);
    assert(saves(data, saved));
    let result = match saved {
        Ok(()) => {
            let mut text = "base_branch を '".to_string();
            text.append(branch.as_str());
            text.append("' に設定しました\n");
            Ok(text)
        },
        Err(error) => Err(CommandError::from(error)),
    };
    assert(sets_base(branch@, defaults, saves, result));
    assert(cmd.base is None ==> asked(Ok(branch)));
    result
}

/// Runs the init command, with `input_fn` to ask the user for the base
/// branch where the options give none.
pub fn handle<M: Manager + ?Sized, F: Fn() -> Result<String, CommandError>>(
    cmd: InitCommand,
    config: &mut M,
    input_fn: F,
) -> (result: Result<String, CommandError>)
    requires
        input_fn.requires(()),
    ensures
        init_outcome(
            cmd.base.deep_view(),
            |answer: Result<String, CommandError>| input_fn.ensures((), answer),
            |start: Result<ConfigData, ConfigError>| old(config).gives_default(start),
            |changed: ConfigData, saved: Result<(), ConfigError>|
                old(config).saves(&changed, saved),
            result,
        ),
{
    with_handle_init(cmd, config, input_fn)
}

} // verus!
