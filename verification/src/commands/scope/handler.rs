//! The scope command at work: it loads the configuration, takes the scope
//! from the options or from the user, and saves the configuration.

use vstd::prelude::*;
use vstd::string::*;

use crate::commands::error::{fails, ScopeError, ScopeErrorKind};
use crate::commands::scope::command::{
    resolved_path, BranchChoice, ScopeCommand, ScopeInputResolver,
};
use crate::commands::scope::prompt_input::Runner;
use crate::config::data::{or_else, ConfigData, ConfigScopeInput, ConfigView};
use crate::config::error::ConfigError;
use crate::config::manager::{same_answers, Manager};
use crate::git::error::GitError;
use crate::git::provider::GitProvider;

verus! {

/// Something that names the branch that is checked out.
pub trait BranchNameFetcher {
    /// Whether the name may be asked for.
    spec fn ready(&self) -> bool;

    /// Whether `name` is an answer that may come back.
    spec fn names(&self, name: Result<String, ScopeError>) -> bool;

    fn fetch(&self) -> (name: Result<String, ScopeError>)
        requires
            self.ready(),
        ensures
            self.names(name),
    ;
}

impl<F: Fn() -> Result<String, ScopeError>> BranchNameFetcher for F {
    open spec fn ready(&self) -> bool {
        self.requires(())
    }

    open spec fn names(&self, name: Result<String, ScopeError>) -> bool {
        self.ensures((), name)
    }

    fn fetch(&self) -> (name: Result<String, ScopeError>) {
        self()
    }
}

/// The message with which asking the repository for the current branch fails.
pub open spec fn branch_name_failure() -> Seq<char> {
    "Git のブランチ名の取得に失敗しました"@
}

/// Whether `name` is what is made of the answer of the repository to the
/// question for the current branch: the name, or one error for every
/// failure.
pub open spec fn is_named(answer: Result<String, GitError>, name: Result<String, ScopeError>) -> bool {
    match answer {
        Ok(branch) => name matches Ok(same) && same == branch,
        Err(_) => fails(name, ScopeErrorKind::Other, branch_name_failure()),
    }
}

/// Names the current branch as the repository reports it.
pub struct CurrentBranch<'a, G: GitProvider + ?Sized> {
    git: &'a G,
}

impl<'a, G: GitProvider + ?Sized> CurrentBranch<'a, G> {
    /// The repository that is asked.
    pub closed spec fn provider(&self) -> &'a G {
        self.git
    }

    /// Whether `name` may come back: it is what is made of an answer that
    /// the repository may give.
    pub open spec fn gives(&self, name: Result<String, ScopeError>) -> bool {
        exists|answer: Result<String, GitError>|
            #![trigger self.provider().names_current_branch(answer)]
            self.provider().names_current_branch(answer) && is_named(answer, name)
    }

    /// Asks the repository. A failure of the repository, whatever it is,
    /// comes back as one error.
    pub fn name(&self) -> (name: Result<String, ScopeError>)
        ensures
            self.gives(name),
            name matches Err(error) ==> error.is(ScopeErrorKind::Other, branch_name_failure()),
    {
        let answer = self.git.get_current_branch();
        assert(self.provider().names_current_branch(answer));
        match answer {
            Ok(name) => Ok(name),
            Err(_) => Err(
                ScopeError::new(ScopeErrorKind::Other, "Git のブランチ名の取得に失敗しました"),
            ),
        }
    }
}

impl<'a, G: GitProvider + ?Sized> BranchNameFetcher for CurrentBranch<'a, G> {
    /// The repository may always be asked.
    open spec fn ready(&self) -> bool {
        true
    }

    /// What may come back is what is made of an answer of the repository.
    open spec fn names(&self, name: Result<String, ScopeError>) -> bool {
        self.gives(name)
    }

    fn fetch(&self) -> (name: Result<String, ScopeError>) {
        self.name()
    }
}

/// What the scope command needs besides its options and the configuration.
pub struct Deps<'a, G: GitProvider + ?Sized, R: Runner + ?Sized> {
    pub prompt_input: Box<R>,
    pub get_current_branch: CurrentBranch<'a, G>,
}

/// Puts together what the scope command needs, from the repository.
pub struct DepsBuilder<'a, G: GitProvider + ?Sized> {
    git: Option<&'a G>,
}

impl<'a, G: GitProvider + ?Sized> DepsBuilder<'a, G> {
    /// The repository that is set, if one is.
    pub closed spec fn provider(&self) -> Option<&'a G> {
        self.git
    }

    pub fn new() -> (builder: Self)
        ensures
            builder.provider() is None,
    {
        Self { git: None }
    }

    pub fn git(self, git: &'a G) -> (builder: Self)
        ensures
            builder.provider() == Some(git),
    {
        let mut builder = self;
        builder.git = Some(git);
        builder
    }

    /// Puts the dependencies together, with `prompt_input` to ask the user.
    /// The repository must have been set.
    pub fn build<R: Runner + ?Sized>(self, prompt_input: Box<R>) -> (deps: Result<
        Deps<'a, G, R>,
        ScopeError,
    >)
        ensures
            match self.provider() {
                Some(git) => deps matches Ok(made) && made.prompt_input == prompt_input
                    && made.get_current_branch.provider() == git,
                None => fails(deps, ScopeErrorKind::InvalidInput, "git が設定されていません"@),
            },
    {
        let git = match self.git {
            Some(git) => git,
            None => {
                return Err(
                    ScopeError::new(ScopeErrorKind::InvalidInput, "git が設定されていません"),
                );
            },
        };
        Ok(Deps { prompt_input, get_current_branch: CurrentBranch { git } })
    }
}

/// Puts together a handler of the scope command, part by part.
pub struct HandleBuilder<'a, M: Manager + ?Sized, R: Runner + ?Sized> {
    cmd: Option<ScopeCommand>,
    config: Option<&'a mut M>,
    prompt_input: Option<Box<R>>,
    get_current_branch_name: Option<Box<dyn BranchNameFetcher + 'a>>,
    no_display: Option<bool>,
}

/// Sets the scope in the configuration: from the options of the command,
/// or from what the user is asked for.
pub struct Handler<'a, M: Manager + ?Sized, R: Runner + ?Sized> {
    cmd: ScopeCommand,
    config: &'a mut M,
    prompt_input: Box<R>,
    get_current_branch_name: Box<dyn BranchNameFetcher + 'a>,
    no_display: bool,
}

/// What is missing when a handler is built, in the order in which it is
/// looked for; none where nothing is.
pub open spec fn first_missing(cmd: bool, config: bool, prompt_input: bool, fetcher: bool) -> Option<
    Seq<char>,
> {
    if !cmd {
        Some("コマンドが指定されていません"@)
    } else if !config {
        Some("設定が指定されていません"@)
    } else if !prompt_input {
        Some("プロンプト入力が指定されていません"@)
    } else if !fetcher {
        Some("ブランチ名取得関数が指定されていません"@)
    } else {
        None
    }
}

impl<'a, M: Manager + ?Sized, R: Runner + ?Sized> HandleBuilder<'a, M, R> {
    /// The command that is set, if one is.
    pub closed spec fn command(&self) -> Option<ScopeCommand> {
        self.cmd
    }

    /// Whether the configuration is set.
    pub closed spec fn has_config(&self) -> bool {
        self.config is Some
    }

    /// Whether `data` may come back when the configuration that is set is
    /// loaded.
    pub closed spec fn loads(&self, data: Result<ConfigData, ConfigError>) -> bool {
        self.config is Some && self.config->0.loads(data)
    }

    /// Whether `result` may come back when `data` is saved in the
    /// configuration that is set.
    pub closed spec fn saves(&self, data: &ConfigData, result: Result<(), ConfigError>) -> bool {
        self.config is Some && self.config->0.saves(data, result)
    }

    /// Whether the runner that asks the user is set.
    pub closed spec fn has_prompt_input(&self) -> bool {
        self.prompt_input is Some
    }

    /// Whether `scope` is an answer that asking the user may end with.
    pub closed spec fn asks(&self, scope: Result<ConfigScopeInput, ScopeError>) -> bool {
        self.prompt_input is Some && self.prompt_input->0.answers(scope)
    }

    /// Whether the function that names the current branch is set.
    pub closed spec fn has_fetcher(&self) -> bool {
        self.get_current_branch_name is Some
    }

    /// Whether `name` is an answer that the function that names the current
    /// branch may give.
    pub closed spec fn fetches(&self, name: Result<String, ScopeError>) -> bool {
        self.get_current_branch_name is Some && self.get_current_branch_name->0.names(name)
    }

    /// The function that names the current branch may be called.
    pub closed spec fn well_formed(&self) -> bool {
        self.get_current_branch_name is Some ==> self.get_current_branch_name->0.ready()
    }

    /// Whether nothing is to be shown, if that is set.
    pub closed spec fn silent(&self) -> Option<bool> {
        self.no_display
    }

    /// A builder agrees with another on the configuration.
    pub open spec fn same_config(&self, other: &Self) -> bool {
        &&& self.has_config() == other.has_config()
        &&& forall|data: Result<ConfigData, ConfigError>| self.loads(data) == other.loads(data)
        &&& forall|data: &ConfigData, result: Result<(), ConfigError>|
            self.saves(data, result) == other.saves(data, result)
    }

    /// A builder agrees with another on the runner that asks the user.
    pub open spec fn same_prompt_input(&self, other: &Self) -> bool {
        &&& self.has_prompt_input() == other.has_prompt_input()
        &&& forall|scope: Result<ConfigScopeInput, ScopeError>|
            self.asks(scope) == other.asks(scope)
    }

    /// A builder agrees with another on the function that names the current
    /// branch.
    pub open spec fn same_fetcher(&self, other: &Self) -> bool {
        &&& self.has_fetcher() == other.has_fetcher()
        &&& self.well_formed() == other.well_formed()
        &&& forall|name: Result<String, ScopeError>| self.fetches(name) == other.fetches(name)
    }

    pub fn new() -> (builder: Self)
        ensures
            builder.command() is None,
            !builder.has_config(),
            !builder.has_prompt_input(),
            !builder.has_fetcher(),
            builder.well_formed(),
            builder.silent() is None,
    {
        Self {
            cmd: None,
            config: None,
            prompt_input: None,
            get_current_branch_name: None,
            no_display: None,
        }
    }

    pub fn cmd(self, cmd: ScopeCommand) -> (builder: Self)
        ensures
            builder.command() == Some(cmd),
            builder.same_config(&self),
            builder.same_prompt_input(&self),
            builder.same_fetcher(&self),
            builder.silent() == self.silent(),
    {
        let mut builder = self;
        builder.cmd = Some(cmd);
        builder
    }

    pub fn config(self, config: &'a mut M) -> (builder: Self)
        ensures
            builder.command() == self.command(),
            builder.has_config(),
            forall|data: Result<ConfigData, ConfigError>|
                builder.loads(data) == old(config).loads(data),
            forall|data: &ConfigData, result: Result<(), ConfigError>|
                builder.saves(data, result) == old(config).saves(data, result),
            builder.same_prompt_input(&self),
            builder.same_fetcher(&self),
            builder.silent() == self.silent(),
    {
        let mut builder = self;
        builder.config = Some(config);
        builder
    }

    pub fn prompt_input(self, prompt_input: Box<R>) -> (builder: Self)
        ensures
            builder.command() == self.command(),
            builder.same_config(&self),
            builder.has_prompt_input(),
            forall|scope: Result<ConfigScopeInput, ScopeError>|
                builder.asks(scope) == prompt_input.answers(scope),
            builder.same_fetcher(&self),
            builder.silent() == self.silent(),
    {
        let mut builder = self;
        builder.prompt_input = Some(prompt_input);
        builder
    }

    /// Sets what names the current branch: a function, or anything else
    /// that can be asked for the name.
    pub fn get_current_branch_name<F>(self, get_fn: F) -> (builder: Self) where
        F: BranchNameFetcher + 'a,

        requires
            get_fn.ready(),
        ensures
            builder.command() == self.command(),
            builder.same_config(&self),
            builder.same_prompt_input(&self),
            builder.has_fetcher(),
            builder.well_formed(),
            forall|name: Result<String, ScopeError>| builder.fetches(name) == get_fn.names(name),
            builder.silent() == self.silent(),
    {
        let mut builder = self;
        let fetcher: Box<dyn BranchNameFetcher + 'a> = Box::new(get_fn);
        builder.get_current_branch_name = Some(fetcher);
        builder
    }

    pub fn no_display(self, display: bool) -> (builder: Self)
        ensures
            builder.command() == self.command(),
            builder.same_config(&self),
            builder.same_prompt_input(&self),
            builder.same_fetcher(&self),
            builder.silent() == Some(display),
    {
        let mut builder = self;
        builder.no_display = Some(display);
        builder
    }

    /// Whether a handler works with what this builder holds.
    pub open spec fn builds(&self, built: &Handler<'a, M, R>) -> bool {
        &&& built.well_formed()
        &&& Some(built.command()) == self.command()
        &&& built.silent() == (self.silent() == Some(true))
        &&& forall|data: Result<ConfigData, ConfigError>| built.loads(data) == self.loads(data)
        &&& forall|data: &ConfigData, result: Result<(), ConfigError>|
            built.saves(data, result) == self.saves(data, result)
        &&& forall|scope: Result<ConfigScopeInput, ScopeError>|
            built.asks(scope) == self.asks(scope)
        &&& forall|name: Result<String, ScopeError>| built.fetches(name) == self.fetches(name)
    }

    /// Builds the handler. What is missing is reported, the first of the
    /// command, the configuration, the runner and the function. Where it is
    /// not said whether to show the outcome, it is shown.
    pub fn build(self) -> (handler: Result<Handler<'a, M, R>, ScopeError>)
        requires
            self.well_formed(),
        ensures
            match first_missing(
                self.command() is Some,
                self.has_config(),
                self.has_prompt_input(),
                self.has_fetcher(),
            ) {
                Some(message) => fails(handler, ScopeErrorKind::InvalidInput, message),
                None => handler matches Ok(built) && self.builds(&built),
            },
    {
        let cmd = match self.cmd {
            Some(cmd) => cmd,
            None => {
                return Err(
                    ScopeError::new(
                        ScopeErrorKind::InvalidInput,
                        "コマンドが指定されていません",
                    ),
                );
            },
        };
        let config = match self.config {
            Some(config) => config,
            None => {
                return Err(
                    ScopeError::new(ScopeErrorKind::InvalidInput, "設定が指定されていません"),
                );
            },
        };
        let prompt_input = match self.prompt_input {
            Some(prompt_input) => prompt_input,
            None => {
                return Err(
                    ScopeError::new(
                        ScopeErrorKind::InvalidInput,
                        "プロンプト入力が指定されていません",
                    ),
                );
            },
        };
        let get_current_branch_name = match self.get_current_branch_name {
            Some(get_current_branch_name) => get_current_branch_name,
            None => {
                return Err(
                    ScopeError::new(
                        ScopeErrorKind::InvalidInput,
                        "ブランチ名取得関数が指定されていません",
                    ),
                );
            },
        };
        let no_display = match self.no_display {
            Some(no_display) => no_display,
            None => false,
        };
        Ok(Handler { cmd, config, prompt_input, get_current_branch_name, no_display })
    }
}

impl<'a, M: Manager + ?Sized, R: Runner + ?Sized> Handler<'a, M, R> {
    /// The command that is handled.
    pub closed spec fn command(&self) -> ScopeCommand {
        self.cmd
    }

    /// Whether nothing is shown when the command is done.
    pub closed spec fn silent(&self) -> bool {
        self.no_display
    }

    /// The function that names the current branch may be called.
    pub closed spec fn well_formed(&self) -> bool {
        self.get_current_branch_name.ready()
    }

    /// Whether `name` is an answer that the function that names the current
    /// branch may give.
    pub closed spec fn fetches(&self, name: Result<String, ScopeError>) -> bool {
        self.get_current_branch_name.names(name)
    }

    /// Whether `data` may come back when the configuration is loaded.
    pub closed spec fn loads(&self, data: Result<ConfigData, ConfigError>) -> bool {
        self.config.loads(data)
    }

    /// Whether `result` may come back when `data` is saved.
    pub closed spec fn saves(&self, data: &ConfigData, result: Result<(), ConfigError>) -> bool {
        self.config.saves(data, result)
    }

    /// Whether `scope` is an answer that asking the user may end with.
    pub closed spec fn asks(&self, scope: Result<ConfigScopeInput, ScopeError>) -> bool {
        self.prompt_input.answers(scope)
    }

    /// A handler has the same command as another and may get the same
    /// answers from the user and about the current branch.
    pub open spec fn same_answers(&self, other: &Self) -> bool {
        &&& self.command() == other.command()
        &&& self.silent() == other.silent()
        &&& self.well_formed() == other.well_formed()
        &&& forall|scope: Result<ConfigScopeInput, ScopeError>|
            self.asks(scope) == other.asks(scope)
        &&& forall|name: Result<String, ScopeError>| self.fetches(name) == other.fetches(name)
    }

    /// Whether `result` is what the scope command ends with where this
    /// handler runs it.
    pub open spec fn runs(&self, result: Result<String, ScopeError>) -> bool {
        sets_scope(
            self.command(),
            self.silent(),
            |data: Result<ConfigData, ConfigError>| self.loads(data),
            |data: ConfigData, saved: Result<(), ConfigError>| self.saves(&data, saved),
            |scope: Result<ConfigScopeInput, ScopeError>| self.asks(scope),
            |name: Result<String, ScopeError>| self.fetches(name),
            result,
        )
    }
}

/// The message with which loading the configuration fails.
pub open spec fn load_failure() -> Seq<char> {
    "設定の読み込みに失敗しました"@
}

/// The message with which saving the configuration fails.
pub open spec fn save_failure() -> Seq<char> {
    "設定の保存に失敗しました"@
}

/// Whether `result` is what is made of a configuration that was loaded: the
/// configuration as it is, or one error for every failure.
pub open spec fn is_loaded(
    loaded: Result<ConfigData, ConfigError>,
    result: Result<ConfigData, ScopeError>,
) -> bool {
    match loaded {
        Ok(data) => result matches Ok(same) && same == data,
        Err(_) => fails(result, ScopeErrorKind::Other, load_failure()),
    }
}

/// Whether `result` is what is made of the outcome of saving: success, or
/// one error for every failure.
pub open spec fn is_saved(saved: Result<(), ConfigError>, result: Result<(), ScopeError>) -> bool {
    match saved {
        Ok(_) => result is Ok,
        Err(_) => fails(result, ScopeErrorKind::Other, save_failure()),
    }
}

/// Makes of a configuration that was loaded what the command goes on with.
pub fn loaded_data(loaded: Result<ConfigData, ConfigError>) -> (result: Result<
    ConfigData,
    ScopeError,
>)
    ensures
        is_loaded(loaded, result),
{
    match loaded {
        Ok(data) => Ok(data),
        Err(_) => Err(ScopeError::new(ScopeErrorKind::Other, "設定の読み込みに失敗しました")),
    }
}

/// Makes of the outcome of saving what the command goes on with.
pub fn saved_data(saved: Result<(), ConfigError>) -> (result: Result<(), ScopeError>)
    ensures
        is_saved(saved, result),
{
    match saved {
        Ok(()) => Ok(()),
        Err(_) => Err(ScopeError::new(ScopeErrorKind::Other, "設定の保存に失敗しました")),
    }
}

/// A value of the configuration as it is shown: the value, or a word that
/// says that it is not set.
pub open spec fn shown_value(value: Option<Seq<char>>) -> Seq<char> {
    match value {
        Some(text) => text,
        None => "未設定"@,
    }
}

/// What is shown when the scope is set.
pub open spec fn completion_text(data: ConfigView) -> Seq<char> {
    "\n設定が完了しました！\n- ブランチ: "@ + shown_value(data.current_branch) + "\n- 古いパス: "@
        + shown_value(data.old_file_path) + "\n- 新しいパス: "@ + shown_value(data.new_file_path)
        + "\n"@
}

fn append_value(text: &mut String, value: Option<String>)
    ensures
        final(text)@ == old(text)@ + shown_value(value.deep_view()),
{
    match value {
        Some(value) => text.append(value.as_str()),
        None => text.append("未設定"),
    }
}

/// Writes what is shown when the scope is set.
pub fn completion(new_data: &ConfigData) -> (text: String)
    ensures
        text@ == completion_text(new_data.deep_view()),
{
    let mut text = "\n設定が完了しました！\n- ブランチ: ".to_string();
    append_value(&mut text, new_data.current_branch());
    text.append("\n- 古いパス: ");
    append_value(&mut text, new_data.old_file_path());
    text.append("\n- 新しいパス: ");
    append_value(&mut text, new_data.new_file_path());
    text.append("\n");
    text
}

/// Whether `result` is the scope with these values.
pub open spec fn is_scope(
    result: Result<ConfigScopeInput, ScopeError>,
    branch: Option<Seq<char>>,
    old_path: Option<Seq<char>>,
    new_path: Option<Seq<char>>,
) -> bool {
    &&& result matches Ok(scope)
    &&& scope.current_branch.deep_view() == branch
    &&& scope.old_file_path.deep_view() == old_path
    &&& scope.new_file_path.deep_view() == new_path
}

/// Whether `result` is what the paths of the command resolve to, the branch
/// being resolved already: the scope, or the refusal of a path that is given
/// twice.
pub open spec fn paths_resolve(
    cmd: ScopeCommand,
    branch: Option<Seq<char>>,
    result: Result<ConfigScopeInput, ScopeError>,
) -> bool {
    match (
        resolved_path(cmd.old.deep_view(), cmd.path.deep_view()),
        resolved_path(cmd.new.deep_view(), cmd.path.deep_view()),
    ) {
        (Some(old_path), Some(new_path)) => is_scope(result, branch, old_path, new_path),
        _ => fails(
            result,
            ScopeErrorKind::InvalidInput,
            "new または old と path は併用できません"@,
        ),
    }
}

/// Whether `result` is the scope that the options of the command give, where
/// `names` says what may come back as the name of the current branch: the branch is resolved first, then the
/// old path, then the new one, and the first that is refused is reported.
/// Where the current branch is asked for, the branch of the scope is a name
/// that may come back, and an error may be one that may come back.
pub open spec fn command_resolves(
    cmd: ScopeCommand,
    names: spec_fn(Result<String, ScopeError>) -> bool,
    result: Result<ConfigScopeInput, ScopeError>,
) -> bool {
    match cmd.branch_choice() {
        BranchChoice::Refused(message) => fails(result, ScopeErrorKind::InvalidInput, message),
        BranchChoice::Given(branch) => paths_resolve(cmd, branch, result),
        BranchChoice::Current => match result {
            Ok(scope) => {
                &&& scope.current_branch matches Some(name)
                &&& names(Ok(name))
                &&& paths_resolve(cmd, Some(name@), result)
            },
            Err(error) => names(Err(error)) || paths_resolve(cmd, None, result),
        },
    }
}

/// The scope that the options of a command give.
pub fn scope_of_command(cmd: &ScopeCommand, fetcher: &dyn BranchNameFetcher) -> (result: Result<
    ConfigScopeInput,
    ScopeError,
>)
    requires
        fetcher.ready(),
    ensures
        command_resolves(*cmd, |name: Result<String, ScopeError>| fetcher.names(name), result),
{
    let get_fn = || -> (name: Result<String, ScopeError>)
        requires
            fetcher.ready(),
        ensures
            fetcher.names(name),
        { fetcher.fetch() };
    let current_branch = match cmd.resolve_branch(get_fn) {
        Ok(branch) => branch,
        Err(error) => {
            return Err(error);
        },
    };
    let old_file_path = match cmd.resolve_old_path() {
        Ok(path) => path,
        Err(error) => {
            let result = Err(error);
            proof {
                lemma_paths_settle(
                    *cmd,
                    |name: Result<String, ScopeError>| fetcher.names(name),
                    current_branch,
                    result,
                );
            }
            return result;
        },
    };
    let new_file_path = match cmd.resolve_new_path() {
        Ok(path) => path,
        Err(error) => {
            let result = Err(error);
            proof {
                lemma_paths_settle(
                    *cmd,
                    |name: Result<String, ScopeError>| fetcher.names(name),
                    current_branch,
                    result,
                );
            }
            return result;
        },
    };
    let result = Ok(ConfigScopeInput { current_branch, old_file_path, new_file_path });
    proof {
        lemma_paths_settle(
                    *cmd,
                    |name: Result<String, ScopeError>| fetcher.names(name),
                    current_branch,
                    result,
                );
    }
    result
}

/// Once the branch is resolved, what the paths resolve to is what the
/// command resolves to.
proof fn lemma_paths_settle(
    cmd: ScopeCommand,
    names: spec_fn(Result<String, ScopeError>) -> bool,
    branch: Option<String>,
    result: Result<ConfigScopeInput, ScopeError>,
)
    requires
        paths_resolve(cmd, branch.deep_view(), result),
        match cmd.branch_choice() {
            BranchChoice::Refused(_) => false,
            BranchChoice::Given(given) => branch.deep_view() == given,
            BranchChoice::Current => branch is Some && names(Ok(branch->0)),
        },
        result matches Ok(scope) ==> scope.current_branch == branch,
    ensures
        command_resolves(cmd, names, result),
{
    if cmd.branch_choice() is Current {
        let name = branch->0;
        assert(branch.deep_view() == Some(name@));
    }

}

/// What the configuration holds once a scope is put in: each value that
/// the scope gives, and the stored value where it gives none.
pub open spec fn with_scope(data: ConfigView, scope: ConfigScopeInput) -> ConfigView {
    ConfigView {
        base_branch: data.base_branch,
        current_branch: or_else(scope.current_branch.deep_view(), data.current_branch),
        old_file_path: or_else(scope.old_file_path.deep_view(), data.old_file_path),
        new_file_path: or_else(scope.new_file_path.deep_view(), data.new_file_path),
    }
}

/// Whether `input` is a scope that the command may take: what asking the
/// user ends with where no option is given, else what the options resolve
/// to.
pub open spec fn is_input(
    cmd: ScopeCommand,
    asks: spec_fn(Result<ConfigScopeInput, ScopeError>) -> bool,
    names: spec_fn(Result<String, ScopeError>) -> bool,
    input: Result<ConfigScopeInput, ScopeError>,
) -> bool {
    if cmd.nothing_given() {
        asks(input)
    } else {
        command_resolves(cmd, names, input)
    }
}

/// Whether `result` is what the command ends with once the configuration
/// is saved: it is loaded again, and what is shown, unless the command is
/// silent, tells of what was loaded.
pub open spec fn shows_scope(
    silent: bool,
    loads: spec_fn(Result<ConfigData, ConfigError>) -> bool,
    result: Result<String, ScopeError>,
) -> bool {
    exists|reloaded: Result<ConfigData, ConfigError>|
        #![trigger loads(reloaded)]
        loads(reloaded) && (match reloaded {
            Ok(data) => result matches Ok(text) && text@ == (if silent {
                Seq::<char>::empty()
            } else {
                completion_text(data.deep_view())
            }),
            Err(_) => fails(result, ScopeErrorKind::Other, load_failure()),
        })
}

/// Whether `result` is what the command ends with once the scope is taken:
/// the configuration that was loaded is saved with the scope put in.
pub open spec fn saves_scope(
    silent: bool,
    loads: spec_fn(Result<ConfigData, ConfigError>) -> bool,
    saves: spec_fn(ConfigData, Result<(), ConfigError>) -> bool,
    data: ConfigView,
    scope: ConfigScopeInput,
    result: Result<String, ScopeError>,
) -> bool {
    exists|changed: ConfigData, saved: Result<(), ConfigError>|
        #![trigger saves(changed, saved)]
        {
            &&& changed.deep_view() == with_scope(data, scope)
            &&& saves(changed, saved)
            &&& match saved {
                Ok(_) => shows_scope(silent, loads, result),
                Err(_) => fails(result, ScopeErrorKind::Other, save_failure()),
            }
        }
}

/// Whether `result` is what the command ends with once the configuration
/// is loaded: the scope is taken, and a failure to take it ends the command.
pub open spec fn takes_scope(
    cmd: ScopeCommand,
    silent: bool,
    loads: spec_fn(Result<ConfigData, ConfigError>) -> bool,
    saves: spec_fn(ConfigData, Result<(), ConfigError>) -> bool,
    asks: spec_fn(Result<ConfigScopeInput, ScopeError>) -> bool,
    names: spec_fn(Result<String, ScopeError>) -> bool,
    data: ConfigView,
    result: Result<String, ScopeError>,
) -> bool {
    exists|input: Result<ConfigScopeInput, ScopeError>|
        #![trigger is_input(cmd, asks, names, input)]
        is_input(cmd, asks, names, input) && (match input {
            Ok(scope) => saves_scope(silent, loads, saves, data, scope, result),
            Err(error) => result matches Err(same) && same == error,
        })
}

/// Whether `result` is what the scope command ends with, where the
/// predicates say what the configuration, the user and the repository may
/// answer: the configuration is loaded, the scope is taken from the options
/// or from the user and put in, the configuration is saved and loaded
/// again, and what it then holds is shown. The first step that fails ends
/// the command, and the steps behind it are not taken.
pub open spec fn sets_scope(
    cmd: ScopeCommand,
    silent: bool,
    loads: spec_fn(Result<ConfigData, ConfigError>) -> bool,
    saves: spec_fn(ConfigData, Result<(), ConfigError>) -> bool,
    asks: spec_fn(Result<ConfigScopeInput, ScopeError>) -> bool,
    names: spec_fn(Result<String, ScopeError>) -> bool,
    result: Result<String, ScopeError>,
) -> bool {
    exists|loaded: Result<ConfigData, ConfigError>|
        #![trigger loads(loaded)]
        loads(loaded) && (match loaded {
            Ok(data) => takes_scope(
                cmd,
                silent,
                loads,
                saves,
                asks,
                names,
                data.deep_view(),
                result,
            ),
            Err(_) => fails(result, ScopeErrorKind::Other, load_failure()),
        })
}

/// What the scope command ends with is an outcome of it in the shape that
/// `is_outcome` describes.
pub proof fn lemma_sets_scope_is_outcome(
    cmd: ScopeCommand,
    silent: bool,
    loads: spec_fn(Result<ConfigData, ConfigError>) -> bool,
    saves: spec_fn(ConfigData, Result<(), ConfigError>) -> bool,
    asks: spec_fn(Result<ConfigScopeInput, ScopeError>) -> bool,
    names: spec_fn(Result<String, ScopeError>) -> bool,
    result: Result<String, ScopeError>,
)
    requires
        sets_scope(cmd, silent, loads, saves, asks, names, result),
    ensures
        is_outcome(cmd, silent, names, asks, result),
{
    let loaded = choose|loaded: Result<ConfigData, ConfigError>|
        #![trigger loads(loaded)]
        loads(loaded) && (match loaded {
            Ok(data) => takes_scope(
                cmd,
                silent,
                loads,
                saves,
                asks,
                names,
                data.deep_view(),
                result,
            ),
            Err(_) => fails(result, ScopeErrorKind::Other, load_failure()),
        });
    if let Ok(data) = loaded {
        let input = choose|input: Result<ConfigScopeInput, ScopeError>|
            #![trigger is_input(cmd, asks, names, input)]
            is_input(cmd, asks, names, input) && (match input {
                Ok(scope) => saves_scope(silent, loads, saves, data.deep_view(), scope, result),
                Err(error) => result matches Err(same) && same == error,
            });
        if let Ok(scope) = input {
            let (changed, saved) = choose|changed: ConfigData, saved: Result<(), ConfigError>|
                #![trigger saves(changed, saved)]
                {
                    &&& changed.deep_view() == with_scope(data.deep_view(), scope)
                    &&& saves(changed, saved)
                    &&& match saved {
                        Ok(_) => shows_scope(silent, loads, result),
                        Err(_) => fails(result, ScopeErrorKind::Other, save_failure()),
                    }
                };
            if saved is Ok {
                let reloaded = choose|reloaded: Result<ConfigData, ConfigError>|
                    #![trigger loads(reloaded)]
                    loads(reloaded) && (match reloaded {
                        Ok(shown) => result matches Ok(text) && text@ == (if silent {
                            Seq::<char>::empty()
                        } else {
                            completion_text(shown.deep_view())
                        }),
                        Err(_) => fails(result, ScopeErrorKind::Other, load_failure()),
                    });
                if let Ok(shown) = reloaded {
                    assert(result->Ok_0@ == (if silent {
                        Seq::<char>::empty()
                    } else {
                        completion_text(shown.deep_view())
                    }));
                }
            }
        }
    }
}

/// Whether `result` is an outcome of the scope command for these options:
/// what is shown, which is nothing for a silent command, or one of the
/// failures. The configuration may fail to load or to save. With options
/// given, another failure is the one that the options resolve to, where
/// `names` says what may come back as the current branch; without, it is
/// one that asking the user may end with, as `asks` says.
pub open spec fn is_outcome(
    cmd: ScopeCommand,
    silent: bool,
    names: spec_fn(Result<String, ScopeError>) -> bool,
    asks: spec_fn(Result<ConfigScopeInput, ScopeError>) -> bool,
    result: Result<String, ScopeError>,
) -> bool {
    match result {
        Ok(text) => if silent {
            text@ == Seq::<char>::empty()
        } else {
            exists|data: ConfigView| text@ == #[trigger] completion_text(data)
        },
        Err(error) => {
            ||| error.is(ScopeErrorKind::Other, load_failure())
            ||| error.is(ScopeErrorKind::Other, save_failure())
            ||| cmd.nothing_given() && asks(Err(error))
            ||| !cmd.nothing_given() && command_resolves(cmd, names, Err(error))
        },
    }
}

impl<'a, M: Manager + ?Sized, R: Runner + ?Sized> Handler<'a, M, R> {
    /// Sets the scope: loads the configuration, puts in the scope that the
    /// options give or that the user is asked for, saves it, loads it again
    /// and, unless silent, writes what is to be shown.
    pub fn exec(&mut self) -> (result: Result<String, ScopeError>)
        requires
            old(self).well_formed(),
        ensures
            old(self).runs(result),
            is_outcome(
                old(self).command(),
                old(self).silent(),
                |name: Result<String, ScopeError>| old(self).fetches(name),
                |scope: Result<ConfigScopeInput, ScopeError>| old(self).asks(scope),
                result,
            ),
    {
        let ghost cmd = self.command();
        let ghost silent = self.silent();
        let ghost loads = |data: Result<ConfigData, ConfigError>| old(self).loads(data);
        let ghost saves = |data: ConfigData, saved: Result<(), ConfigError>|
            old(self).saves(&data, saved);
        let ghost asks = |scope: Result<ConfigScopeInput, ScopeError>| old(self).asks(scope);
        let ghost names = |name: Result<String, ScopeError>| old(self).fetches(name);
        let ghost start = self.config;
        let answer = self.config.load();
        assert(start.loads(answer));
        assert(old(self).loads(answer));
        assert(loads(answer));
        let ghost mut now = self.config;
        assert(same_answers(now, start));
        let mut data = match loaded_data(answer) {
            Ok(data) => data,
            Err(error) => {
                let result = Err(error);
                proof {
                    lemma_sets_scope_is_outcome(cmd, silent, loads, saves, asks, names, result);
                }
                return result;
            },
        };
        let ghost before = data.deep_view();
        let input = self.get_input();
        assert forall|name: Result<String, ScopeError>| self.fetches(name) == old(self).fetches(
            name,
        ) by {}
        assert(names =~= (|name: Result<String, ScopeError>| self.fetches(name)));
        assert forall|scope: Result<ConfigScopeInput, ScopeError>| self.asks(scope) == old(
            self,
        ).asks(scope) by {}
        assert(self.command() == cmd);
        assert(is_input(cmd, asks, names, input));
        let scope = match input {
            Ok(scope) => scope,
            Err(error) => {
                let result = Err(error);
                assert(takes_scope(cmd, silent, loads, saves, asks, names, before, result));
                proof {
                    lemma_sets_scope_is_outcome(cmd, silent, loads, saves, asks, names, result);
                }
                return result;
            },
        };
        data.set_scope(scope);
        assert(data.deep_view() == with_scope(before, scope));
        let saved = self.config.save(&data);
        assert(now.saves(&data, saved));
        assert(now.saves(&data, saved) == start.saves(&data, saved));
        assert(start.saves(&data, saved));
        assert(old(self).saves(&data, saved));
        assert(saves(data, saved));
        proof {
            let then = self.config;
            assert(same_answers(then, now));
            assert(same_answers(then, start));
            now = then;
        }
        match saved_data(saved) {
            Ok(()) => {},
            Err(error) => {
                let result = Err(error);
                assert(saves_scope(silent, loads, saves, before, scope, result));
                assert(is_input(cmd, asks, names, input));
                assert(takes_scope(cmd, silent, loads, saves, asks, names, before, result));
                proof {
                    lemma_sets_scope_is_outcome(cmd, silent, loads, saves, asks, names, result);
                }
                return result;
            },
        }
        let reloaded = self.config.load();
        assert(now.loads(reloaded));
        assert(start.loads(reloaded));
        assert(old(self).loads(reloaded));
        assert(loads(reloaded));
        let result = match loaded_data(reloaded) {
            Ok(new_data) => Ok(self.display_completion(&new_data)),
            Err(error) => Err(error),
        };
        assert(shows_scope(silent, loads, result));
        assert(saves_scope(silent, loads, saves, before, scope, result));
        assert(is_input(cmd, asks, names, input));
        assert(takes_scope(cmd, silent, loads, saves, asks, names, before, result));
        proof {
            lemma_sets_scope_is_outcome(cmd, silent, loads, saves, asks, names, result);
        }
        result
    }

    /// Loads the configuration. A failure, whatever it is, comes back as one error.
    pub fn get_current_data(&mut self) -> (result: Result<ConfigData, ScopeError>)
        ensures
            exists|loaded: Result<ConfigData, ConfigError>|
                #![trigger old(self).loads(loaded)]
                old(self).loads(loaded) && is_loaded(loaded, result),
            result matches Err(error) ==> error.is(ScopeErrorKind::Other, load_failure()),
            final(self).same_answers(old(self)),
    {
        let loaded = self.config.load();
        assert(old(self).loads(loaded));
        loaded_data(loaded)
    }

    /// The scope to set: what the user is asked for where no option is
    /// given, else what the options give.
    pub fn get_input(&self) -> (result: Result<ConfigScopeInput, ScopeError>)
        requires
            self.well_formed(),
        ensures
            self.command().nothing_given() ==> self.asks(result),
            !self.command().nothing_given() ==> command_resolves(
                self.command(),
                |name: Result<String, ScopeError>| self.fetches(name),
                result,
            ),
    {
        if self.cmd.is_empty() {
            self.prompt_input.exec()
        } else {
            scope_of_command(&self.cmd, &*self.get_current_branch_name)
        }
    }

    /// Saves the configuration. A failure, whatever it is, comes back as one error.
    pub fn save_data(&mut self, data: &ConfigData) -> (result: Result<(), ScopeError>)
        ensures
            exists|saved: Result<(), ConfigError>|
                #![trigger old(self).saves(data, saved)]
                old(self).saves(data, saved) && is_saved(saved, result),
            result matches Err(error) ==> error.is(ScopeErrorKind::Other, save_failure()),
            final(self).same_answers(old(self)),
    {
        let saved = self.config.save(data);
        assert(old(self).saves(data, saved));
        saved_data(saved)
    }

    /// What is shown when the scope is set: nothing for a silent command.
    pub fn display_completion(&self, new_data: &ConfigData) -> (text: String)
        ensures
            self.silent() ==> text@ == Seq::<char>::empty(),
            !self.silent() ==> text@ == completion_text(new_data.deep_view()),
    {
        if self.no_display {
            return String::new();
        }
        completion(new_data)
    }
}

} // verus!
