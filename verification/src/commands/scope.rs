//! The scope command: sets the branch and the paths that are compared.

pub mod command;
pub mod handler;
pub mod prompt_input;

pub use command::{ScopeCommand, ScopeInputResolver};
pub use prompt_input::{PromptInputRunner, Runner};

use vstd::prelude::*;
use vstd::string::*;

use crate::commands::error::{ScopeError, ScopeErrorKind};
use crate::commands::scope::command::{resolved_path, BranchChoice};
use crate::commands::scope::handler::{
    branch_name_failure, completion_text, is_named, lemma_sets_scope_is_outcome, load_failure,
    save_failure, sets_scope, BranchNameFetcher, DepsBuilder, HandleBuilder,
};
use crate::config::data::{ConfigData, ConfigScopeInput, ConfigView};
use crate::config::error::ConfigError;
use crate::config::manager::Manager;
use crate::git::error::GitError;
use crate::git::provider::GitProvider;

verus! {

/// Whether the options give a path twice: for one side and for both.
pub open spec fn path_given_twice(cmd: ScopeCommand) -> bool {
    ||| resolved_path(cmd.old.deep_view(), cmd.path.deep_view()) is None
    ||| resolved_path(cmd.new.deep_view(), cmd.path.deep_view()) is None
}

/// Whether `error` is a failure that the options of the command lead to.
/// Options that contradict each other on the branch are refused first. Where
/// the current branch is asked for, the repository may fail to name it. A
/// path given twice is refused.
pub open spec fn command_fails(cmd: ScopeCommand, error: ScopeError) -> bool {
    let twice = path_given_twice(cmd) && error.is(
        ScopeErrorKind::InvalidInput,
        "new または old と path は併用できません"@,
    );
    match cmd.branch_choice() {
        BranchChoice::Refused(message) => error.is(ScopeErrorKind::InvalidInput, message),
        BranchChoice::Given(_) => twice,
        BranchChoice::Current => twice || error.is(ScopeErrorKind::Other, branch_name_failure()),
    }
}

/// Whether `error` is a failure that the scope command may end with: the
/// configuration fails to load or to save, the options lead to a failure,
/// or, where no option is given, the asking of the user fails.
pub open spec fn scope_fails(cmd: ScopeCommand, error: ScopeError) -> bool {
    ||| error.is(ScopeErrorKind::Other, load_failure())
    ||| error.is(ScopeErrorKind::Other, save_failure())
    ||| cmd.nothing_given()
    ||| command_fails(cmd, error)
}

/// Whether `name` may come back as the current branch: it is what is made
/// of an answer that the repository may give.
pub open spec fn repository_names<G: GitProvider + ?Sized>(
    git: &G,
    name: Result<String, ScopeError>,
) -> bool {
    exists|answer: Result<String, GitError>|
        #![trigger git.names_current_branch(answer)]
        git.names_current_branch(answer) && is_named(answer, name)
}

/// Whether `result` is what the scope command ends with, with this
/// configuration, this repository and this runner to ask the user.
pub open spec fn scope_outcome<M: Manager + ?Sized, G: GitProvider + ?Sized, R: Runner + ?Sized>(
    cmd: ScopeCommand,
    silent: bool,
    config: &M,
    git: &G,
    prompt_input: &R,
    result: Result<String, ScopeError>,
) -> bool {
    sets_scope(
        cmd,
        silent,
        |data: Result<ConfigData, ConfigError>| config.loads(data),
        |data: ConfigData, saved: Result<(), ConfigError>| config.saves(&data, saved),
        |scope: Result<ConfigScopeInput, ScopeError>| prompt_input.answers(scope),
        |name: Result<String, ScopeError>| repository_names(git, name),
        result,
    )
}

/// What the scope command ends with fails, where it does, in one of the
/// ways in which the command may fail.
pub proof fn lemma_outcome_fails<M: Manager + ?Sized, G: GitProvider + ?Sized, R: Runner + ?Sized>(
    cmd: ScopeCommand,
    silent: bool,
    config: &M,
    git: &G,
    prompt_input: &R,
    result: Result<String, ScopeError>,
)
    requires
        scope_outcome(cmd, silent, config, git, prompt_input, result),
    ensures
        result matches Err(error) ==> scope_fails(cmd, error),
        result matches Ok(text) ==> (if silent {
            text@ == Seq::<char>::empty()
        } else {
            exists|data: ConfigView| text@ == #[trigger] completion_text(data)
        }),
{
    lemma_sets_scope_is_outcome(
        cmd,
        silent,
        |data: Result<ConfigData, ConfigError>| config.loads(data),
        |data: ConfigData, saved: Result<(), ConfigError>| config.saves(&data, saved),
        |scope: Result<ConfigScopeInput, ScopeError>| prompt_input.answers(scope),
        |name: Result<String, ScopeError>| repository_names(git, name),
        result,
    );
}

/// Runs the scope command, silent or not.
fn run<M: Manager + ?Sized, G: GitProvider + ?Sized, R: Runner + ?Sized>(
    cmd: ScopeCommand,
    config: &mut M,
    git: &G,
    prompt_input: Box<R>,
    silent: bool,
) -> (result: Result<String, ScopeError>)
    ensures
        scope_outcome(cmd, silent, old(config), git, &*prompt_input, result),
{
    let deps = match DepsBuilder::new().git(git).build(prompt_input) {
        Ok(deps) => deps,
        Err(error) => {
            return Err(error);
        },
    };
    let ghost current = deps.get_current_branch;
    let builder = HandleBuilder::new().cmd(cmd).config(config).prompt_input(
        deps.prompt_input,
    ).get_current_branch_name(deps.get_current_branch);
    let builder = if silent {
        builder.no_display(true)
    } else {
        builder
    };
    let mut handler = match builder.build() {
        Ok(handler) => handler,
        Err(error) => {
            return Err(error);
        },
    };
    let ghost built = handler;
    let result = handler.exec();
    proof {
        assert(built.runs(result));
        assert((|data: Result<ConfigData, ConfigError>| built.loads(data)) =~= (|
            data: Result<ConfigData, ConfigError>,
        | old(config).loads(data)));
        assert((|data: ConfigData, saved: Result<(), ConfigError>| built.saves(&data, saved))
            =~= (|data: ConfigData, saved: Result<(), ConfigError>|
            old(config).saves(&data, saved)));
        assert((|scope: Result<ConfigScopeInput, ScopeError>| built.asks(scope)) =~= (|
            scope: Result<ConfigScopeInput, ScopeError>,
        | prompt_input.answers(scope)));
        assert forall|name: Result<String, ScopeError>| built.fetches(name) == repository_names(
            git,
            name,
        ) by {
            assert(current.names(name) == current.gives(name));
            assert(built.fetches(name) == current.names(name));
        }
        assert((|name: Result<String, ScopeError>| built.fetches(name)) =~= (|
            name: Result<String, ScopeError>,
        | repository_names(git, name)));
    }
    result
}

/// Sets the scope and shows nothing.
pub fn run_scope_silently<M: Manager + ?Sized, G: GitProvider + ?Sized, R: Runner + ?Sized>(
    cmd: ScopeCommand,
    config: &mut M,
    git: &G,
    prompt_input: Box<R>,
) -> (result: Result<(), ScopeError>)
    ensures
        exists|shown: Result<String, ScopeError>|
            #![trigger scope_outcome(cmd, true, old(config), git, &*prompt_input, shown)]
            scope_outcome(cmd, true, old(config), git, &*prompt_input, shown) && (match shown {
                Ok(_) => result is Ok,
                Err(error) => result matches Err(same) && same == error,
            }),
        result matches Err(error) ==> scope_fails(cmd, error),
{
    let shown = run(cmd, config, git, prompt_input, true);
    proof {
        lemma_outcome_fails(cmd, true, old(config), git, &*prompt_input, shown);
    }
    match shown {
        Ok(_) => Ok(()),
        Err(error) => Err(error),
    }
}

/// Sets the scope and gives back what is to be shown of it.
pub fn handle<M: Manager + ?Sized, G: GitProvider + ?Sized, R: Runner + ?Sized>(
    cmd: ScopeCommand,
    config: &mut M,
    git: &G,
    prompt_input: Box<R>,
) -> (result: Result<String, ScopeError>)
    ensures
        scope_outcome(cmd, false, old(config), git, &*prompt_input, result),
        match result {
            Ok(text) => exists|data: ConfigView| text@ == #[trigger] completion_text(data),
            Err(error) => scope_fails(cmd, error),
        },
{
    let result = run(cmd, config, git, prompt_input, false);
    proof {
        lemma_outcome_fails(cmd, false, old(config), git, &*prompt_input, result);
    }
    result
}

} // verus!
