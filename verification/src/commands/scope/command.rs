//! What the user gives to the scope command, and what it resolves to.

use vstd::prelude::*;
use vstd::string::*;

use crate::commands::error::{ScopeError, ScopeErrorKind};
use crate::text::{blank, is_blank};

verus! {

/// The options of the scope command.
#[derive(Debug, PartialEq)]
pub struct ScopeCommand {
    /// Take the branch that is checked out.
    pub current: bool,
    /// Take this branch.
    pub branch: Option<String>,
    /// The path of the old file.
    pub old: Option<String>,
    /// The path of the new file.
    pub new: Option<String>,
    /// The path of both files.
    pub path: Option<String>,
}

/// How the options of a scope command resolve to a branch and two paths.
pub trait ScopeInputResolver {
    fn resolve_old_path(&self) -> Result<Option<String>, ScopeError>;

    fn resolve_new_path(&self) -> Result<Option<String>, ScopeError>;

    fn resolve_branch<F>(&self, get_fn: F) -> Result<Option<String>, ScopeError> where
        F: Fn() -> Result<String, ScopeError>,

        requires
            get_fn.requires(()),
    ;

    fn is_empty(&self) -> bool;
}

/// What a path of one side and the path of both sides resolve to: the path of
/// the side, else the path of both. None where both are given.
pub open spec fn resolved_path(primary: Option<Seq<char>>, shared: Option<Seq<char>>) -> Option<
    Option<Seq<char>>,
> {
    if primary is Some && shared is Some {
        None
    } else if primary is Some {
        Some(primary)
    } else {
        Some(shared)
    }
}

/// What the options of a scope command say of the branch.
pub ghost enum BranchChoice {
    /// The options contradict each other or name no branch; the message says which.
    Refused(Seq<char>),
    /// The branch that is checked out is to be taken.
    Current,
    /// This branch is to be taken, or the branch is to stay as it is.
    Given(Option<Seq<char>>),
}

/// Whether `result` refuses the input with this message.
pub open spec fn refuses(result: Result<Option<String>, ScopeError>, message: Seq<char>) -> bool {
    result matches Err(error) && error.is(ScopeErrorKind::InvalidInput, message)
}

/// Whether `result` is this value.
pub open spec fn gives(result: Result<Option<String>, ScopeError>, value: Option<Seq<char>>) -> bool {
    result matches Ok(found) && found.deep_view() == value
}

/// Whether `result` is what the two paths resolve to.
pub open spec fn path_resolves(
    result: Result<Option<String>, ScopeError>,
    primary: Option<Seq<char>>,
    shared: Option<Seq<char>>,
) -> bool {
    match resolved_path(primary, shared) {
        Some(path) => gives(result, path),
        None => refuses(result, "new または old と path は併用できません"@),
    }
}

impl ScopeCommand {
    /// Resolves the path of one side from its own option and the option for
    /// both sides, which cannot both be given.
    pub fn resolve_path(&self, primary: &Option<String>, shared: &Option<String>) -> (result:
        Result<Option<String>, ScopeError>)
        ensures
            path_resolves(result, primary.deep_view(), shared.deep_view()),
    {
        if primary.is_some() && shared.is_some() {
            return Err(
                ScopeError::new(
                    ScopeErrorKind::InvalidInput,
                    "new または old と path は併用できません",
                ),
            );
        }
        match primary {
            Some(path) => Ok(Some(path.clone())),
            None => Ok(shared.clone()),
        }
    }

    /// What the options say of the branch.
    pub open spec fn branch_choice(&self) -> BranchChoice {
        if self.current && self.branch is Some {
            BranchChoice::Refused("current と branch は同時に指定できません"@)
        } else if self.current {
            BranchChoice::Current
        } else if self.branch is Some && is_blank(self.branch->0@) {
            BranchChoice::Refused("空のブランチ名は無効です"@)
        } else {
            BranchChoice::Given(self.branch.deep_view())
        }
    }

    /// No option is given.
    pub open spec fn nothing_given(&self) -> bool {
        !self.current && self.branch is None && self.old is None && self.new is None
            && self.path is None
    }
}

impl ScopeInputResolver for ScopeCommand {
    fn resolve_old_path(&self) -> (result: Result<Option<String>, ScopeError>)
        ensures
            path_resolves(result, self.old.deep_view(), self.path.deep_view()),
    {
        self.resolve_path(&self.old, &self.path)
    }

    fn resolve_new_path(&self) -> (result: Result<Option<String>, ScopeError>)
        ensures
            path_resolves(result, self.new.deep_view(), self.path.deep_view()),
    {
        self.resolve_path(&self.new, &self.path)
    }

    /// Resolves the branch: the one that is checked out, which `get_fn`
    /// names, or the one given. Both cannot be asked for, and a branch given
    /// has a name that is not blank.
    fn resolve_branch<F>(&self, get_fn: F) -> (result: Result<Option<String>, ScopeError>) where
        F: Fn() -> Result<String, ScopeError>,

        ensures
            match self.branch_choice() {
                BranchChoice::Refused(message) => refuses(result, message),
                BranchChoice::Given(branch) => gives(result, branch),
                BranchChoice::Current => match result {
                    Ok(Some(name)) => get_fn.ensures((), Ok(name)),
                    Ok(None) => false,
                    Err(error) => get_fn.ensures((), Err(error)),
                },
            },
    {
        match &self.branch {
            Some(branch) => {
                if self.current {
                    Err(
                        ScopeError::new(
                            ScopeErrorKind::InvalidInput,
                            "current と branch は同時に指定できません",
                        ),
                    )
                } else if blank(branch.as_str()) {
                    Err(ScopeError::new(ScopeErrorKind::InvalidInput, "空のブランチ名は無効です"))
                } else {
                    Ok(Some(branch.clone()))
                }
            },
            None => {
                if self.current {
                    match get_fn() {
                        Ok(name) => Ok(Some(name)),
                        Err(error) => Err(error),
                    }
                } else {
                    Ok(None)
                }
            },
        }
    }

    fn is_empty(&self) -> (empty: bool)
        ensures
            empty == self.nothing_given(),
    {
        !self.current && self.branch.is_none() && self.old.is_none() && self.new.is_none()
            && self.path.is_none()
    }
}

} // verus!
