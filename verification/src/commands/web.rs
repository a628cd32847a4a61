//! The web command: what the server is started with, and what it answers.
//!
//! Sockets and requests are the caller's. What is decided here is the state
//! that the server works on, the origins it admits, the file that a request
//! path names, and the diff of a file of which a side may be missing.

use std::sync::Arc;
use vstd::prelude::*;
use vstd::string::*;

use crate::commands::error::CommandError;
use crate::config::data::ConfigData;
use crate::config::error::ConfigError;
use crate::config::manager::Manager;
use crate::diff::engine::slice_changes;
use crate::diff::model::LineDiff;
use crate::diff::structured::structured_lines;
use crate::diff::{Diff, DiffProvider};
use crate::git::error::GitError;
use crate::git::provider::{GitProvider, SourceKind};
use crate::number::{decimal, write_number};
use crate::text::{chars_of, without_leading};

verus! {

/// The options of the web command.
pub struct WebCommand {
    pub port: u16,
}

/// What the server works on: the repository and the two branches compared.
pub struct WebServerState<G: GitProvider + ?Sized> {
    pub git: Arc<G>,
    pub base_branch: String,
    pub target_branch: String,
}

/// What the server is started with.
pub struct ServerStart<G: GitProvider + ?Sized> {
    pub port: u16,
    pub state: WebServerState<G>,
    /// The origins whose requests are admitted.
    pub origins: Vec<String>,
    /// The address of the server, which is also opened in a browser.
    pub url: String,
}

/// The message that says which port the server is started on.
pub open spec fn announcement(port: u16) -> Seq<char> {
    "Webサーバーを起動しています。ポート: "@ + decimal(port as nat) + "\n"@
}

/// The origins whose requests the server on `port` admits: the development
/// server of the pages, and the server itself.
pub open spec fn admitted_origins(port: u16) -> Seq<Seq<char>> {
    seq!["http://localhost:4321"@, "http://localhost:"@ + decimal(port as nat)]
}

/// The address of the server on `port`.
pub open spec fn server_url(port: u16) -> Seq<char> {
    "http://127.0.0.1:"@ + decimal(port as nat)
}

/// The message with which the server refuses to start without a base branch.
pub open spec fn base_branch_missing() -> Seq<char> {
    "base_branchが設定されていません。mirudi init を先に実行してください"@
}

/// Writes the message that says which port the server is started on.
pub fn announce(cmd: &WebCommand) -> (text: String)
    ensures
        text@ == announcement(cmd.port),
{
    let mut text = "Webサーバーを起動しています。ポート: ".to_string();
    text.append(write_number(cmd.port as usize).as_str());
    text.append("\n");
    text
}

/// Whether `result` is the failure to start the server with this message.
pub open spec fn refuses_start<G: GitProvider + ?Sized>(
    result: Result<ServerStart<G>, CommandError>,
    message: Seq<char>,
) -> bool {
    result matches Err(CommandError::WebServerError(text)) && text@ == message
}

/// Whether `result` is what the server on `port` is started with, where
/// `loaded` is what loading the configuration gave: a configuration that
/// did not load and one without a base branch keep the server from
/// starting. Else the repository is asked for the branch checked out, which
/// becomes the target; where it does not name one, the server does not
/// start either.
pub open spec fn start_outcome<G: GitProvider + ?Sized>(
    port: u16,
    git: Arc<G>,
    loaded: Result<ConfigData, ConfigError>,
    result: Result<ServerStart<G>, CommandError>,
) -> bool {
    match loaded {
        Err(error) => refuses_start(result, "Failed to load config: "@ + error.message()),
        Ok(data) => match data.deep_view().base_branch {
            None => refuses_start(result, base_branch_missing()),
            Some(base) => match result {
                Ok(start) => {
                    &&& start.port == port
                    &&& start.state.git == git
                    &&& start.state.base_branch@ == base
                    &&& git.names_current_branch(Ok(start.state.target_branch))
                    &&& start.origins.deep_view() == admitted_origins(port)
                    &&& start.url@ == server_url(port)
                },
                Err(_) => exists|cause: GitError|
                    #![trigger git.names_current_branch(Err(cause))]
                    git.names_current_branch(Err(cause)) && refuses_start(
                        result,
                        cause.message(),
                    ),
            },
        },
    }
}

/// Decides what the server is started with: the base branch of the
/// configuration, which must be set, and the branch checked out as the
/// target. A configuration that does not load, a base branch that is not
/// set and a repository that does not name its branch keep the server from
/// starting.
pub fn start_server<M: Manager + ?Sized, G: GitProvider + ?Sized>(
    port: u16,
    config: &mut M,
    git: Arc<G>,
) -> (result: Result<ServerStart<G>, CommandError>)
    ensures
        exists|loaded: Result<ConfigData, ConfigError>|
            #![trigger old(config).loads(loaded)]
            old(config).loads(loaded) && start_outcome(port, git, loaded, result),
        result matches Ok(start) ==> {
            &&& start.port == port
            &&& start.state.git == git
            &&& start.origins.deep_view() == admitted_origins(port)
            &&& start.url@ == server_url(port)
        },
        result matches Err(error) ==> error is WebServerError,
{
    let loaded = config.load();
    assert(old(config).loads(loaded));
    let data = match loaded {
        Ok(data) => data,
        Err(error) => {
            let mut message = "Failed to load config: ".to_string();
            message.append(error.to_string().as_str());
            return Err(CommandError::WebServerError(message));
        },
    };
    let base_branch = match data.base_branch() {
        Some(base) => base,
        None => {
            return Err(
                CommandError::WebServerError(
                    "base_branchが設定されていません。mirudi init を先に実行してください".to_string(),
                ),
            );
        },
    };
    let target_branch = match git.get_current_branch() {
        Ok(target) => target,
        Err(error) => {
            assert(git.names_current_branch(Err(error)));
            return Err(CommandError::WebServerError(error.to_string()));
        },
    };
    let number = write_number(port as usize);
    let mut origin = "http://localhost:".to_string();
    origin.append(number.as_str());
    let mut origins: Vec<String> = Vec::new();
    origins.push("http://localhost:4321".to_string());
    origins.push(origin);
    assert(origins.deep_view() =~= admitted_origins(port));
    let mut url = "http://127.0.0.1:".to_string();
    url.append(number.as_str());
    Ok(ServerStart { port, state: WebServerState { git, base_branch, target_branch }, origins, url })
}

/// The lines of a side that was read, or no lines where reading failed.
pub open spec fn side_lines(side: Result<Vec<String>, GitError>) -> Seq<Seq<char>> {
    match side {
        Ok(lines) => lines.deep_view(),
        Err(_) => Seq::empty(),
    }
}

/// Whether `diff` is what the two sides give: no diff where both failed to
/// be read, else the structured diff, with three lines of context, of the
/// lines of the sides, a side that failed counting as empty.
pub open spec fn sides_give(
    old: Result<Vec<String>, GitError>,
    new: Result<Vec<String>, GitError>,
    diff: Option<Vec<LineDiff>>,
) -> bool {
    if old is Err && new is Err {
        diff is None
    } else {
        diff is Some && diff->0.deep_view() == structured_lines(
            slice_changes(side_lines(old), side_lines(new)),
            3,
        )
    }
}

/// The structured diff of a file of which each side was read or failed to
/// be read. A side that failed counts as empty, so that a file which only
/// one branch has shows as added or removed. Where both failed there is no
/// diff.
pub fn diff_of_sides(old: Result<Vec<String>, GitError>, new: Result<Vec<String>, GitError>) -> (diff:
    Option<Vec<LineDiff>>)
    ensures
        sides_give(old, new, diff),
{
    let (old_lines, new_lines) = match (old, new) {
        (Ok(old_lines), Ok(new_lines)) => (old_lines, new_lines),
        (Ok(old_lines), Err(_)) => (old_lines, Vec::new()),
        (Err(_), Ok(new_lines)) => (Vec::new(), new_lines),
        (Err(_), Err(_)) => {
            return None;
        },
    };
    assert(new_lines.deep_view() =~= side_lines(new));
    assert(old_lines.deep_view() =~= side_lines(old));
    Some(Diff::new(old_lines, new_lines).lines_structured())
}

/// Reads both sides of a file whole, each at its branch, and gives their
/// structured diff, or none where neither side can be read.
pub fn get_diff<G: GitProvider + ?Sized>(state: &WebServerState<G>, file_path: &str) -> (diff: Option<
    Vec<LineDiff>,
>)
    ensures
        exists|old: Result<Vec<String>, GitError>, new: Result<Vec<String>, GitError>|
            #![trigger sides_give(old, new, diff)]
            {
                &&& state.git.extracts(
                    state.base_branch@,
                    file_path@,
                    1,
                    usize::MAX,
                    Some(SourceKind::Commit),
                    old,
                )
                &&& state.git.extracts(
                    state.target_branch@,
                    file_path@,
                    1,
                    usize::MAX,
                    Some(SourceKind::Commit),
                    new,
                )
                &&& sides_give(old, new, diff)
            },
{
    let old_lines = state.git.extract_lines(
        state.base_branch.as_str(),
        file_path,
        1,
        usize::MAX,
        Some(SourceKind::Commit),
    );
    let new_lines = state.git.extract_lines(
        state.target_branch.as_str(),
        file_path,
        1,
        usize::MAX,
        Some(SourceKind::Commit),
    );
    let diff = diff_of_sides(old_lines, new_lines);
    assert(sides_give(old_lines, new_lines, diff));
    diff
}

/// The changed files between the two branches of the state, as the
/// repository lists them.
pub fn get_changed_files<G: GitProvider + ?Sized>(state: &WebServerState<G>) -> (files: Result<
    Vec<String>,
    GitError,
>)
    ensures
        state.git.lists_changed_files(state.base_branch@, state.target_branch@, files),
{
    state.git.list_changed_files(state.base_branch.as_str(), state.target_branch.as_str())
}

/// The name of the asset that a request path asks for: the path without the
/// slashes in front of it, or the index page where nothing is left.
pub open spec fn asset_of(path: Seq<char>) -> Seq<char> {
    let name = without_leading(path, '/');
    if name.len() == 0 {
        "index.html"@
    } else {
        name
    }
}

/// The name of the asset that a request path asks for.
pub fn asset_name(path: &str) -> (name: String)
    ensures
        name@ == asset_of(path@),
{
    let chars = chars_of(path);
    let mut from: usize = 0;
    assert(path@.subrange(0, path@.len() as int) =~= path@);
    while from < chars.len() && chars[from] == '/'
        invariant
            from <= chars.len(),
            chars@ == path@,
            without_leading(path@, '/') == without_leading(
                path@.subrange(from as int, path@.len() as int),
                '/',
            ),
        decreases chars.len() - from,
    {
        proof {
            let rest = path@.subrange(from as int, path@.len() as int);
            assert(rest.drop_first() =~= path@.subrange(from + 1, path@.len() as int));
        }
        from += 1;
    }
    if from == chars.len() {
        "index.html".to_string()
    } else {
        path.substring_char(from, chars.len()).to_string()
    }
}

} // verus!
