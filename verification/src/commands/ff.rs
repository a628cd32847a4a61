//! The diff command: compares a line range of the old file with a line range
//! of the new one.

pub mod handler;
pub mod mode;
pub mod range;
pub mod scope_input;
pub mod validated_config;

pub use handler::DiffHandler;
pub use mode::DiffMode;
pub use range::Range;
pub use scope_input::ScopeCommandInput;

use vstd::prelude::*;

use crate::commands::error::CommandError;
use crate::config::data::{ConfigData, ValidatedConfigData};
use crate::config::error::ConfigError;
use crate::commands::scope::prompt_input::Runner;
use crate::config::manager::Manager;
use crate::git::provider::{GitProvider, SourceKind};

verus! {

/// The options of the diff command.
#[derive(Debug, PartialEq)]
pub struct FFCommand {
    /// The scope to set before the comparison, if any of it is given.
    pub scope: ScopeCommandInput,
    /// The lines of the old file, such as `1-10`.
    pub old_range: String,
    /// The lines of the new file.
    pub new_range: String,
    pub source: SourceKind,
    pub mode: DiffMode,
}

/// Whether `result` is what comparing with the configuration that was
/// loaded and checked gives: a configuration that fails is reported, and a
/// complete one is taken by a handler that compares.
pub open spec fn compares_with<G: GitProvider + ?Sized>(
    cmd: FFCommand,
    git: &G,
    checked: Result<ValidatedConfigData, CommandError>,
    result: Result<String, CommandError>,
) -> bool {
    match checked {
        Ok(data) => exists|handler: DiffHandler<G>|
            #![trigger handler.compares(result)]
            {
                &&& handler.command() == cmd
                &&& handler.config() == data
                &&& handler.provider() == git
                &&& handler.compares(result)
            },
        Err(error) => result matches Err(same) && same == error,
    }
}

/// Whether `result` is an outcome of the diff command.
///
/// Without options for the scope, the configuration as it stands is loaded
/// and checked, and the comparison is made with it. With such options the
/// scope is set first; what is stated then is the shape of the outcome: the
/// text shown is a framed diff in the mode of the command, both ranges can
/// be read, and a failure is one of the scope, of the configuration or of
/// the comparison.
pub open spec fn ff_outcome<M: Manager + ?Sized, G: GitProvider + ?Sized>(
    cmd: FFCommand,
    config: &M,
    git: &G,
    result: Result<String, CommandError>,
) -> bool {
    &&& result matches Ok(text) ==> handler::is_shown(cmd.mode, text@)
    &&& result is Ok ==> range::read_range(cmd.old_range@, usize::MAX as nat) is Valid
        && range::read_range(cmd.new_range@, usize::MAX as nat) is Valid
    &&& result matches Err(error) ==> {
        ||| scope_input::reports_scope_failure(cmd.scope.scope_command(), error)
        ||| error is Config
        ||| handler::exec_fails(cmd, error)
    }
    &&& cmd.scope.nothing_given() ==> exists|
        loaded: Result<ConfigData, ConfigError>,
        checked: Result<ValidatedConfigData, CommandError>,
    |
        #![trigger config.loads(loaded), validated_config::is_loaded(loaded, checked)]
        {
            &&& config.loads(loaded)
            &&& validated_config::is_loaded(loaded, checked)
            &&& compares_with(cmd, git, checked, result)
        }
}

/// Runs the diff command: sets the scope that the options give, loads the
/// configuration, which must be complete, and compares. What comes back is
/// the text to show.
pub fn handle<M: Manager + ?Sized, G: GitProvider + ?Sized, R: Runner + ?Sized>(
    cmd: FFCommand,
    config: &mut M,
    git: &G,
    prompt_input: Box<R>,
) -> (result: Result<String, CommandError>)
    ensures
        ff_outcome(cmd, old(config), git, result),
{
    match cmd.scope.resolve_scope_silently(config, git, prompt_input) {
        Ok(()) => {},
        Err(error) => {
            return Err(error);
        },
    }
    let ghost before = config;
    let checked = validated_config::load(config);
    proof {
        let loaded = choose|loaded: Result<ConfigData, ConfigError>|
            #![trigger before.loads(loaded)]
            before.loads(loaded) && validated_config::is_loaded(loaded, checked);
        if cmd.scope.nothing_given() {
            assert(old(config).loads(loaded) && validated_config::is_loaded(loaded, checked));
        }
    }
    let data = match checked {
        Ok(data) => data,
        Err(error) => {
            return Err(error);
        },
    };
    let mut handler = DiffHandler::build(cmd, git, data);
    let ghost built = handler;
    let result = handler.exec();
    proof {
        assert(built.compares(result));
        assert(compares_with(cmd, git, checked, result));
    }
    result
}

} // verus!
