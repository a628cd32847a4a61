//! The commands of the tool: what each asks for, checks and combines.

pub mod error;
pub mod ff;
pub mod handler;
pub mod init;
pub mod scope;
pub mod web;

pub use error::{CommandError, ScopeError, ScopeErrorKind};
pub use ff::FFCommand;
pub use handler::{CommandHandler, MirudiCommandHandler};
pub use init::InitCommand;
pub use scope::ScopeCommand;
pub use web::WebCommand;

use std::sync::Arc;
use vstd::prelude::*;

use crate::commands::ff::scope_input::reports_scope_failure;
use crate::commands::init::init_outcome;
use crate::commands::scope::prompt_input::Runner;
use crate::commands::scope::{scope_fails, scope_outcome};
use crate::commands::web::{admitted_origins, server_url, start_outcome, ServerStart};
use crate::config::data::ConfigData;
use crate::config::error::ConfigError;
use crate::config::manager::Manager;
use crate::git::provider::GitProvider;

verus! {

/// The commands that run in the terminal.
pub enum CliCommands {
    FF(FFCommand),
    Init(InitCommand),
    Scope(ScopeCommand),
}

/// The commands that start a server.
pub enum ServerCommands {
    Web(WebCommand),
}

/// All commands of the tool.
pub enum Commands {
    Cli(CliCommands),
    Server(ServerCommands),
}

/// Whether `result` hands on an outcome of the scope command: the text to
/// show as it is, and a failure as an I/O error with the same message.
pub open spec fn hands_on_scope(
    shown: Result<String, ScopeError>,
    result: Result<String, CommandError>,
) -> bool {
    match shown {
        Ok(text) => result matches Ok(same) && same == text,
        Err(error) => result matches Err(CommandError::IO(message)) && message == error.text(),
    }
}

/// Whether `result` is an outcome of the command: the text to show, or the
/// failure, each as the command's own handler gives it, where `asked` says
/// what may come back from asking the user for a base branch. A failure of
/// the scope command is reported as an I/O error with the same message.
pub open spec fn cli_outcome<M: Manager + ?Sized, G: GitProvider + ?Sized, R: Runner + ?Sized>(
    command: CliCommands,
    config: &M,
    git: &G,
    prompt_input: &R,
    asked: spec_fn(Result<String, CommandError>) -> bool,
    result: Result<String, CommandError>,
) -> bool {
    match command {
        CliCommands::FF(cmd) => ff::ff_outcome(cmd, config, git, result),
        CliCommands::Init(cmd) => init_outcome(
            cmd.base.deep_view(),
            asked,
            |start: Result<ConfigData, ConfigError>| config.gives_default(start),
            |changed: ConfigData, saved: Result<(), ConfigError>| config.saves(&changed, saved),
            result,
        ),
        CliCommands::Scope(cmd) => {
            &&& exists|shown: Result<String, ScopeError>|
                #![trigger scope_outcome(cmd, false, config, git, prompt_input, shown)]
                scope_outcome(cmd, false, config, git, prompt_input, shown) && hands_on_scope(
                    shown,
                    result,
                )
            &&& result matches Err(error) ==> reports_scope_failure(cmd, error)
        },
    }
}

/// Runs a command of the terminal. `prompt_input` asks the user for a scope
/// and `input_fn` for a base branch, where the command needs one and its
/// options give none. What comes back is the text to show.
pub fn handle_cli_command<
    M: Manager + ?Sized,
    G: GitProvider + ?Sized,
    R: Runner + ?Sized,
    F: Fn() -> Result<String, CommandError>,
>(
    command: CliCommands,
    config: &mut M,
    git: &G,
    prompt_input: Box<R>,
    input_fn: F,
) -> (result: Result<String, CommandError>)
    requires
        input_fn.requires(()),
    ensures
        cli_outcome(
            command,
            old(config),
            git,
            &*prompt_input,
            |answer: Result<String, CommandError>| input_fn.ensures((), answer),
            result,
        ),
{
    match command {
        CliCommands::FF(cmd) => ff::handle(cmd, config, git, prompt_input),
        CliCommands::Init(cmd) => init::handle(cmd, config, input_fn),
        CliCommands::Scope(cmd) => {
            let shown = scope::handle(cmd, config, git, prompt_input);
            let result = match shown {
                Ok(text) => Ok(text),
                Err(error) => {
                    proof {
                        assert(scope_fails(cmd, error) && error.message() == error.text()@);
                    }
                    Err(CommandError::from(error))
                },
            };
            assert(scope_outcome(cmd, false, old(config), git, &*prompt_input, shown)
                && hands_on_scope(shown, result));
            result
        },
    }
}

/// Prepares a command that starts a server: decides what the server is
/// started with, or why it cannot start.
pub fn handle_web_command<M: Manager + ?Sized, G: GitProvider + ?Sized>(
    command: ServerCommands,
    config: &mut M,
    git: Arc<G>,
) -> (result: Result<ServerStart<G>, CommandError>)
    ensures
        match (command, result) {
            (ServerCommands::Web(cmd), Ok(start)) => {
                &&& start.port == cmd.port
                &&& start.state.git == git
                &&& start.origins.deep_view() == admitted_origins(cmd.port)
                &&& start.url@ == server_url(cmd.port)
            },
            (_, Err(error)) => error is WebServerError,
        },
        match command {
            ServerCommands::Web(cmd) => exists|loaded: Result<ConfigData, ConfigError>|
                #![trigger old(config).loads(loaded)]
                old(config).loads(loaded) && start_outcome(cmd.port, git, loaded, result),
        },
{
    match command {
        ServerCommands::Web(cmd) => web::start_server(cmd.port, config, git),
    }
}

} // verus!
