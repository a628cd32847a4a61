//! Asking the user for the scope: which branch, which paths.
//!
//! The questions are put by the caller. What is decided here is which
//! question comes next and what the answers amount to.

use vstd::prelude::*;
use vstd::string::*;

use crate::commands::error::{ScopeError, ScopeErrorKind};
use crate::config::data::ConfigScopeInput;
use crate::git::error::GitError;
use crate::git::provider::GitProvider;
use crate::text::{blank, is_blank, push_text};

verus! {

/// Something that asks the user for the scope.
pub trait Runner {
    /// Whether `scope` is an answer that the asking may end with.
    open spec fn answers(&self, scope: Result<ConfigScopeInput, ScopeError>) -> bool {
        true
    }

    fn exec(&self) -> (scope: Result<ConfigScopeInput, ScopeError>)
        ensures
            self.answers(scope),
    ;
}

/// What the user is asked next, or what the asking ended with.
pub enum PromptAction {
    /// Let the user pick one of `items`; the first is picked beforehand.
    SelectBranch { prompt: String, items: Vec<String> },
    /// Let the user type a path, which may be empty.
    InputPath { prompt: String },
    /// The scope that the answers give.
    Done(ConfigScopeInput),
    /// The asking failed.
    Fail(ScopeError),
}

/// What came back from the user.
pub enum PromptEvent {
    /// The position of the item picked.
    Selected(usize),
    /// The text typed.
    Typed(String),
    /// The terminal failed, with this description.
    Failed(String),
}

/// How far the asking has come.
pub enum PromptState {
    /// The branch is being picked, among the current one and all branches.
    Branch { current: String, branches: Vec<String> },
    /// The branch is picked, the old path is being typed.
    OldPath { branch: Option<String> },
    /// The old path is typed, the new path is being typed.
    NewPath { branch: Option<String>, old_path: Option<String> },
    /// Nothing more is asked.
    Finished,
}

/// The items among which the branch is picked: the current branch, marked as
/// such, in front of all branches.
pub open spec fn branch_items(current: Seq<char>, branches: Seq<Seq<char>>) -> Seq<Seq<char>> {
    seq!["現在のブランチ: "@ + current] + branches
}

/// The branch at a position of the items: the current one at the first, and
/// behind it the branches in their order.
pub open spec fn branch_at(current: Seq<char>, branches: Seq<Seq<char>>, index: int) -> Seq<char> {
    if index == 0 {
        current
    } else {
        branches[index - 1]
    }
}

/// What a typed path amounts to: nothing where it is blank, else the text as
/// it was typed.
pub open spec fn path_of_answer(answer: Seq<char>) -> Option<Seq<char>> {
    if is_blank(answer) {
        None
    } else {
        Some(answer)
    }
}

/// The question for the path of the old file.
pub open spec fn old_path_prompt() -> Seq<char> {
    "古いファイルパスを入力してください [Enter でスキップ]"@
}

/// The question for the path of the new file.
pub open spec fn new_path_prompt() -> Seq<char> {
    "新しいファイルパスを入力してください [Enter でスキップ]"@
}

/// What a typed path amounts to.
pub fn answer_path(answer: String) -> (path: Option<String>)
    ensures
        path.deep_view() == path_of_answer(answer@),
{
    if blank(answer.as_str()) {
        None
    } else {
        Some(answer)
    }
}

/// The items among which the branch is picked.
pub fn branch_choices(current: &str, branches: &Vec<String>) -> (items: Vec<String>)
    ensures
        items.deep_view() == branch_items(current@, branches.deep_view()),
{
    let mut first = "現在のブランチ: ".to_string();
    first.append(current);
    let mut items: Vec<String> = Vec::new();
    push_text(&mut items, first);
    let ghost head = items.deep_view();
    let mut i: usize = 0;
    assert(head + branches.deep_view().take(0) =~= head);
    while i < branches.len()
        invariant
            i <= branches.len(),
            items.deep_view() == head + branches.deep_view().take(i as int),
        decreases branches.len() - i,
    {
        push_text(&mut items, branches[i].clone());
        assert(head + branches.deep_view().take(i as int + 1) =~= (head
            + branches.deep_view().take(i as int)).push(branches[i as int]@));
        i += 1;
    }
    assert(branches.deep_view().take(i as int) =~= branches.deep_view());
    assert(head =~= seq!["現在のブランチ: "@ + current@]);
    items
}

fn invalid_path_input(description: &str) -> (error: ScopeError)
    ensures
        error.is(ScopeErrorKind::InvalidInput, "無効なパス入力です: "@ + description@),
{
    let mut message = "無効なパス入力です: ".to_string();
    message.append(description);
    ScopeError::new(ScopeErrorKind::InvalidInput, message.as_str())
}

/// Whether a step ends the asking because the repository did not answer,
/// with this message.
pub open spec fn gives_up(step: (PromptState, PromptAction), message: Seq<char>) -> bool {
    step.0 is Finished && (step.1 matches PromptAction::Fail(error) && error.is(
        ScopeErrorKind::Other,
        message,
    ))
}

/// Whether a step asks the user to pick among the current branch and the
/// branches.
pub open spec fn offers(
    step: (PromptState, PromptAction),
    current: String,
    branches: Vec<String>,
) -> bool {
    &&& step.0 matches PromptState::Branch { current: kept, branches: listed }
    &&& kept == current
    &&& listed == branches
    &&& step.1 matches PromptAction::SelectBranch { prompt, items }
    &&& prompt@ == "ブランチを選択してください"@
    &&& items.deep_view() == branch_items(current@, branches.deep_view())
}

/// Asks the user for a branch and two paths, one question at a time.
pub struct PromptInputRunner<'a, G: GitProvider + ?Sized> {
    git: &'a G,
}

impl<'a, G: GitProvider + ?Sized> PromptInputRunner<'a, G> {
    /// The repository that is asked.
    pub closed spec fn provider(&self) -> &'a G {
        self.git
    }

    /// Whether `step` is what the asking starts with once the current
    /// branch is named: the repository lists its branches, and the user is
    /// to pick among them and the current one.
    pub open spec fn starts_with(&self, current: String, step: (PromptState, PromptAction)) -> bool {
        exists|names: Result<Vec<String>, GitError>|
            #![trigger self.provider().names_branches(names)]
            self.provider().names_branches(names) && (match names {
                Ok(branches) => offers(step, current, branches),
                Err(_) => gives_up(step, "Git のブランチ一覧の取得に失敗しました"@),
            })
    }

    /// Whether `step` is what the asking starts with: the repository names
    /// the current branch and lists the branches, and the user is to pick
    /// among them. Where the repository does not answer, the asking ends.
    pub open spec fn starts(&self, step: (PromptState, PromptAction)) -> bool {
        exists|name: Result<String, GitError>|
            #![trigger self.provider().names_current_branch(name)]
            self.provider().names_current_branch(name) && (match name {
                Ok(current) => self.starts_with(current, step),
                Err(_) => gives_up(step, "Git のブランチ名の取得に失敗しました"@),
            })
    }

    pub fn new(git: &'a G) -> (runner: Self)
        ensures
            runner.provider() == git,
    {
        Self { git }
    }

    /// Starts the asking.
    pub fn start(&self) -> (step: (PromptState, PromptAction))
        ensures
            self.starts(step),
    {
        let name = self.git.get_current_branch();
        assert(self.provider().names_current_branch(name));
        let current = match name {
            Ok(current) => current,
            Err(_) => {
                return (
                    PromptState::Finished,
                    PromptAction::Fail(
                        ScopeError::new(
                            ScopeErrorKind::Other,
                            "Git のブランチ名の取得に失敗しました",
                        ),
                    ),
                );
            },
        };
        let names = self.git.list_branches();
        assert(self.provider().names_branches(names));
        let branches = match names {
            Ok(branches) => branches,
            Err(_) => {
                let step = (
                    PromptState::Finished,
                    PromptAction::Fail(
                        ScopeError::new(
                            ScopeErrorKind::Other,
                            "Git のブランチ一覧の取得に失敗しました",
                        ),
                    ),
                );
                assert(self.starts_with(current, step));
                return step;
            },
        };
        let items = branch_choices(current.as_str(), &branches);
        let step = (
            PromptState::Branch { current, branches },
            PromptAction::SelectBranch { prompt: "ブランチを選択してください".to_string(), items },
        );
        assert(offers(step, current, branches));
        assert(self.starts_with(current, step));
        step
    }
}

/// Whether an action fails the asking for an input that cannot be used,
/// with this message.
pub open spec fn fails_with(step: (PromptState, PromptAction), message: Seq<char>) -> bool {
    step.0 is Finished && (step.1 matches PromptAction::Fail(error) && error.is(
        ScopeErrorKind::InvalidInput,
        message,
    ))
}

/// Whether a step asks for a path with this question, the state being `state`.
pub open spec fn asks_path(action: PromptAction, question: Seq<char>) -> bool {
    action matches PromptAction::InputPath { prompt } && prompt@ == question
}

/// Whether `step` is the step that follows `state` when `event` comes back.
///
/// A branch picked leads to the question for the old path, a path typed to
/// the question for the new path, and that one typed to the scope. A pick
/// that is no position of the items, an answer of the wrong kind and a
/// failure of the terminal end the asking.
pub open spec fn follows(
    state: PromptState,
    event: PromptEvent,
    step: (PromptState, PromptAction),
) -> bool {
    match state {
        PromptState::Branch { current, branches } => match event {
            PromptEvent::Selected(index) if index <= branches.len() => {
                &&& step.0 matches PromptState::OldPath { branch }
                &&& branch.deep_view() == Some(
                    branch_at(current@, branches.deep_view(), index as int),
                )
                &&& asks_path(step.1, old_path_prompt())
            },
            _ => fails_with(step, "無効なブランチ選択です"@),
        },
        PromptState::OldPath { branch } => match event {
            PromptEvent::Typed(answer) => {
                &&& step.0 matches PromptState::NewPath { branch: kept, old_path }
                &&& kept.deep_view() == branch.deep_view()
                &&& old_path.deep_view() == path_of_answer(answer@)
                &&& asks_path(step.1, new_path_prompt())
            },
            PromptEvent::Failed(description) => fails_with(
                step,
                "無効なパス入力です: "@ + description@,
            ),
            PromptEvent::Selected(_) => fails_with(step, "無効なパス入力です: "@),
        },
        PromptState::NewPath { branch, old_path } => match event {
            PromptEvent::Typed(answer) => {
                &&& step.0 is Finished
                &&& step.1 matches PromptAction::Done(scope)
                &&& scope.current_branch.deep_view() == branch.deep_view()
                &&& scope.old_file_path.deep_view() == old_path.deep_view()
                &&& scope.new_file_path.deep_view() == path_of_answer(answer@)
            },
            PromptEvent::Failed(description) => fails_with(
                step,
                "無効なパス入力です: "@ + description@,
            ),
            PromptEvent::Selected(_) => fails_with(step, "無効なパス入力です: "@),
        },
        PromptState::Finished => true,
    }
}

fn fail(error: ScopeError) -> (step: (PromptState, PromptAction))
    ensures
        step.0 is Finished,
        step.1 matches PromptAction::Fail(e) && e == error,
{
    (PromptState::Finished, PromptAction::Fail(error))
}

/// Takes what came back from the user and says what comes next.
pub fn advance(state: PromptState, event: PromptEvent) -> (step: (PromptState, PromptAction))
    requires
        !(state is Finished),
    ensures
        follows(state, event, step),
{
    match state {
        PromptState::Branch { current, branches } => {
            let picked = match event {
                PromptEvent::Selected(index) => {
                    if index == 0 {
                        Some(current)
                    } else if index <= branches.len() {
                        Some(branches[index - 1].clone())
                    } else {
                        None
                    }
                },
                _ => None,
            };
            match picked {
                Some(branch) => (
                    PromptState::OldPath { branch: Some(branch) },
                    PromptAction::InputPath {
                        prompt: "古いファイルパスを入力してください [Enter でスキップ]".to_string(),
                    },
                ),
                None => fail(
                    ScopeError::new(ScopeErrorKind::InvalidInput, "無効なブランチ選択です"),
                ),
            }
        },
        PromptState::OldPath { branch } => match event {
            PromptEvent::Typed(answer) => (
                PromptState::NewPath { branch, old_path: answer_path(answer) },
                PromptAction::InputPath {
                    prompt: "新しいファイルパスを入力してください [Enter でスキップ]".to_string(),
                },
            ),
            PromptEvent::Failed(description) => fail(invalid_path_input(description.as_str())),
            PromptEvent::Selected(_) => {
                proof {
                    reveal_strlit("");
                    assert("無効なパス入力です: "@ + ""@ =~= "無効なパス入力です: "@);
                }
                fail(invalid_path_input(""))
            },
        },
        PromptState::NewPath { branch, old_path } => match event {
            PromptEvent::Typed(answer) => (
                PromptState::Finished,
                PromptAction::Done(
                    ConfigScopeInput {
                        current_branch: branch,
                        old_file_path: old_path,
                        new_file_path: answer_path(answer),
                    },
                ),
            ),
            PromptEvent::Failed(description) => fail(invalid_path_input(description.as_str())),
            PromptEvent::Selected(_) => {
                proof {
                    reveal_strlit("");
                    assert("無効なパス入力です: "@ + ""@ =~= "無効なパス入力です: "@);
                }
                fail(invalid_path_input(""))
            },
        },
        PromptState::Finished => fail(ScopeError::new(ScopeErrorKind::Other, "")),
    }
}

} // verus!
