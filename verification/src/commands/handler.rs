//! The commands behind one interface.

use vstd::prelude::*;

use crate::commands::error::{CommandError, ScopeError};
use crate::commands::hands_on_scope;
use crate::commands::scope::scope_outcome;
use crate::commands::ff::FFCommand;
use crate::commands::init::InitCommand;
use crate::commands::scope::command::ScopeCommand;
use crate::commands::scope::prompt_input::Runner;
use crate::config::data::ConfigData;
use crate::config::error::ConfigError;
use crate::config::manager::Manager;
use crate::git::provider::GitProvider;

verus! {

/// Something that runs the commands of the terminal.
pub trait CommandHandler {
    fn handle_ff<M: Manager + ?Sized, G: GitProvider + ?Sized, R: Runner + ?Sized>(
        &self,
        cmd: FFCommand,
        config: &mut M,
        git: &G,
        prompt_input: Box<R>,
    ) -> Result<String, CommandError>;

    fn handle_init<M: Manager + ?Sized, F: Fn() -> Result<String, CommandError>>(
        &self,
        cmd: InitCommand,
        config: &mut M,
        input_fn: F,
    ) -> Result<String, CommandError>
        requires
            input_fn.requires(()),
    ;

    fn handle_scope<M: Manager + ?Sized, G: GitProvider + ?Sized, R: Runner + ?Sized>(
        &self,
        cmd: ScopeCommand,
        config: &mut M,
        git: &G,
        prompt_input: Box<R>,
    ) -> Result<String, CommandError>;
}

/// Runs each command with its own handler.
pub struct MirudiCommandHandler;

impl CommandHandler for MirudiCommandHandler {
    fn handle_ff<M: Manager + ?Sized, G: GitProvider + ?Sized, R: Runner + ?Sized>(
        &self,
        cmd: FFCommand,
        config: &mut M,
        git: &G,
        prompt_input: Box<R>,
    ) -> (result: Result<String, CommandError>)
        ensures
            crate::commands::ff::ff_outcome(cmd, old(config), git, result),
    {
        crate::commands::ff::handle(cmd, config, git, prompt_input)
    }

    fn handle_init<M: Manager + ?Sized, F: Fn() -> Result<String, CommandError>>(
        &self,
        cmd: InitCommand,
        config: &mut M,
        input_fn: F,
    ) -> (result: Result<String, CommandError>)
        ensures
            crate::commands::init::init_outcome(
                cmd.base.deep_view(),
                |answer: Result<String, CommandError>| input_fn.ensures((), answer),
                |start: Result<ConfigData, ConfigError>| old(config).gives_default(start),
                |changed: ConfigData, saved: Result<(), ConfigError>|
                    old(config).saves(&changed, saved),
                result,
            ),
    {
        crate::commands::init::handle(cmd, config, input_fn)
    }

    fn handle_scope<M: Manager + ?Sized, G: GitProvider + ?Sized, R: Runner + ?Sized>(
        &self,
        cmd: ScopeCommand,
        config: &mut M,
        git: &G,
        prompt_input: Box<R>,
    ) -> (result: Result<String, CommandError>)
        ensures
            exists|shown: Result<String, ScopeError>|
                #![trigger scope_outcome(cmd, false, old(config), git, &*prompt_input, shown)]
                scope_outcome(cmd, false, old(config), git, &*prompt_input, shown)
                    && hands_on_scope(shown, result),
    {
        let shown = crate::commands::scope::handle(cmd, config, git, prompt_input);
        let result = match shown {
            Ok(text) => Ok(text),
            Err(error) => Err(CommandError::from(error)),
        };
        assert(scope_outcome(cmd, false, old(config), git, &*prompt_input, shown)
            && hands_on_scope(shown, result));
        result
    }
}

} // verus!
