//! The options of the diff command that set the scope.

use vstd::prelude::*;
use vstd::string::*;

use crate::commands::error::{CommandError, ScopeError};
use crate::commands::scope::command::{ScopeCommand, ScopeInputResolver};
use crate::commands::scope::prompt_input::Runner;
use crate::commands::scope::{run_scope_silently, scope_fails, scope_outcome};
use crate::config::data::ConfigData;
use crate::config::error::ConfigError;
use crate::config::manager::Manager;
use crate::git::provider::GitProvider;

verus! {

/// The options of the diff command that set the scope before it compares.
#[derive(Debug, PartialEq)]
pub struct ScopeCommandInput {
    pub current: bool,
    pub branch: Option<String>,
    pub old_path: Option<String>,
    pub new_path: Option<String>,
    pub path: Option<String>,
}

/// Whether `error` reports a failure of the scope command for these options:
/// an I/O error with the message of the failure.
pub open spec fn reports_scope_failure(cmd: ScopeCommand, error: CommandError) -> bool {
    error matches CommandError::IO(message) && exists|cause: ScopeError|
        #![trigger scope_fails(cmd, cause)]
        scope_fails(cmd, cause) && cause.message() == message@
}

impl ScopeCommandInput {
    /// No option is given.
    pub open spec fn nothing_given(&self) -> bool {
        !self.current && self.branch is None && self.old_path is None && self.new_path is None
            && self.path is None
    }

    /// The scope command with the same options.
    pub open spec fn scope_command(&self) -> ScopeCommand {
        ScopeCommand {
            current: self.current,
            branch: self.branch,
            old: self.old_path,
            new: self.new_path,
            path: self.path,
        }
    }

    /// The scope command with the same options.
    pub fn to_scope_command(&self) -> (cmd: ScopeCommand)
        ensures
            cmd == self.scope_command(),
    {
        ScopeCommand {
            current: self.current,
            branch: self.branch.clone(),
            old: self.old_path.clone(),
            new: self.new_path.clone(),
            path: self.path.clone(),
        }
    }

    /// Sets the scope that the options give, showing nothing. Without
    /// options nothing is done, and nothing is asked of the configuration,
    /// the repository or the user.
    pub fn resolve_scope_silently<M: Manager + ?Sized, G: GitProvider + ?Sized, R: Runner + ?Sized>(
        &self,
        config: &mut M,
        git: &G,
        prompt_input: Box<R>,
    ) -> (result: Result<(), CommandError>)
        ensures
            self.nothing_given() ==> result is Ok && forall|data: Result<ConfigData, ConfigError>|
                final(config).loads(data) == old(config).loads(data),
            !self.nothing_given() ==> exists|shown: Result<String, ScopeError>|
                #![trigger scope_outcome(self.scope_command(), true, old(config), git, &*prompt_input, shown)]
                scope_outcome(self.scope_command(), true, old(config), git, &*prompt_input, shown)
                    && (match shown {
                    Ok(_) => result is Ok,
                    Err(error) => result matches Err(CommandError::IO(message)) && message
                        == error.text(),
                }),
            result matches Err(error) ==> reports_scope_failure(self.scope_command(), error),
    {
        let cmd = self.to_scope_command();
        if cmd.is_empty() {
            return Ok(());
        }
        let done = run_scope_silently(cmd, config, git, prompt_input);
        proof {
            let shown = choose|shown: Result<String, ScopeError>|
                #![trigger scope_outcome(cmd, true, old(config), git, &*prompt_input, shown)]
                scope_outcome(cmd, true, old(config), git, &*prompt_input, shown) && (match shown {
                    Ok(_) => done is Ok,
                    Err(error) => done matches Err(same) && same == error,
                });
            assert(scope_outcome(cmd, true, old(config), git, &*prompt_input, shown));
        }
        match done {
            Ok(()) => Ok(()),
            Err(error) => {
                proof {
                    assert(scope_fails(cmd, error) && error.message() == error.text()@);
                }
                Err(CommandError::from(error))
            },
        }
    }
}

} // verus!
