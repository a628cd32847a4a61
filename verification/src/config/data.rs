//! The configuration as it is stored, and as the diff command needs it.

use vstd::prelude::*;
use vstd::string::*;

use crate::config::error::ConfigError;

verus! {

/// The configuration as it is stored: each value may be missing.
#[derive(Debug, PartialEq)]
pub struct ConfigData {
    base_branch: Option<String>,
    current_branch: Option<String>,
    old_file_path: Option<String>,
    new_file_path: Option<String>,
}

/// The mathematical value of a `ConfigData`.
pub ghost struct ConfigView {
    pub base_branch: Option<Seq<char>>,
    pub current_branch: Option<Seq<char>>,
    pub old_file_path: Option<Seq<char>>,
    pub new_file_path: Option<Seq<char>>,
}

/// The configuration with every value present, as the diff command needs it.
pub struct ValidatedConfigData {
    base_branch: String,
    current_branch: String,
    old_file_path: String,
    new_file_path: String,
}

/// What a scope command sets: a value that is missing leaves the stored one.
pub struct ConfigScopeInput {
    pub current_branch: Option<String>,
    pub old_file_path: Option<String>,
    pub new_file_path: Option<String>,
}

/// `given` where there is one, else `kept`.
pub open spec fn or_else(given: Option<Seq<char>>, kept: Option<Seq<char>>) -> Option<Seq<char>> {
    if given is Some {
        given
    } else {
        kept
    }
}

fn given_or_kept(given: Option<String>, kept: &Option<String>) -> (value: Option<String>)
    ensures
        value.deep_view() == or_else(given.deep_view(), kept.deep_view()),
{
    match given {
        Some(text) => Some(text),
        None => kept.clone(),
    }
}

impl DeepView for ConfigData {
    type V = ConfigView;

    closed spec fn deep_view(&self) -> ConfigView {
        ConfigView {
            base_branch: self.base_branch.deep_view(),
            current_branch: self.current_branch.deep_view(),
            old_file_path: self.old_file_path.deep_view(),
            new_file_path: self.new_file_path.deep_view(),
        }
    }
}

impl Default for ConfigData {
    fn default() -> (data: Self)
        ensures
            data.deep_view() == ConfigData::unset(),
    {
        ConfigData {
            base_branch: None,
            current_branch: None,
            old_file_path: None,
            new_file_path: None,
        }
    }
}

impl ConfigData {
    /// The value of a configuration in which nothing is set.
    pub open spec fn unset() -> ConfigView {
        ConfigView {
            base_branch: None,
            current_branch: None,
            old_file_path: None,
            new_file_path: None,
        }
    }

    /// The configuration that holds these values, as they were read from
    /// where the configuration is kept.
    pub fn from_values(
        base_branch: Option<String>,
        current_branch: Option<String>,
        old_file_path: Option<String>,
        new_file_path: Option<String>,
    ) -> (data: Self)
        ensures
            data.deep_view() == (ConfigView {
                base_branch: base_branch.deep_view(),
                current_branch: current_branch.deep_view(),
                old_file_path: old_file_path.deep_view(),
                new_file_path: new_file_path.deep_view(),
            }),
    {
        ConfigData { base_branch, current_branch, old_file_path, new_file_path }
    }

    pub fn base_branch(&self) -> (value: Option<String>)
        ensures
            value.deep_view() == self.deep_view().base_branch,
    {
        self.base_branch.clone()
    }

    pub fn current_branch(&self) -> (value: Option<String>)
        ensures
            value.deep_view() == self.deep_view().current_branch,
    {
        self.current_branch.clone()
    }

    pub fn old_file_path(&self) -> (value: Option<String>)
        ensures
            value.deep_view() == self.deep_view().old_file_path,
    {
        self.old_file_path.clone()
    }

    pub fn new_file_path(&self) -> (value: Option<String>)
        ensures
            value.deep_view() == self.deep_view().new_file_path,
    {
        self.new_file_path.clone()
    }

    /// Sets the base branch. An empty name is refused and changes nothing.
    pub fn set_base_branch(&mut self, branch: String) -> (result: Result<(), ConfigError>)
        ensures
            branch@.len() == 0 ==> result == Err::<(), ConfigError>(ConfigError::EmptyBranchName)
                && final(self).deep_view() == old(self).deep_view(),
            branch@.len() > 0 ==> result is Ok && final(self).deep_view() == (ConfigView {
                base_branch: Some(branch@),
                ..old(self).deep_view()
            }),
    {
        if branch.as_str().is_empty() {
            return Err(ConfigError::EmptyBranchName);
        }
        self.base_branch = Some(branch);
        Ok(())
    }

    /// Sets the current branch and the two paths, each where the scope gives
    /// one. The base branch stays.
    pub fn set_scope(&mut self, scope: ConfigScopeInput)
        ensures
            final(self).deep_view() == (ConfigView {
                base_branch: old(self).deep_view().base_branch,
                current_branch: or_else(
                    scope.current_branch.deep_view(),
                    old(self).deep_view().current_branch,
                ),
                old_file_path: or_else(
                    scope.old_file_path.deep_view(),
                    old(self).deep_view().old_file_path,
                ),
                new_file_path: or_else(
                    scope.new_file_path.deep_view(),
                    old(self).deep_view().new_file_path,
                ),
            }),
    {
        self.current_branch = given_or_kept(scope.current_branch, &self.current_branch);
        self.old_file_path = given_or_kept(scope.old_file_path, &self.old_file_path);
        self.new_file_path = given_or_kept(scope.new_file_path, &self.new_file_path);
    }
}

impl ConfigView {
    /// The first field that is not set, in the order in which they are
    /// checked, or none where all are set.
    pub open spec fn first_missing(self) -> Option<Seq<char>> {
        if self.base_branch is None {
            Some("base_branch"@)
        } else if self.current_branch is None {
            Some("current_branch"@)
        } else if self.old_file_path is None {
            Some("old_file_path"@)
        } else if self.new_file_path is None {
            Some("new_file_path"@)
        } else {
            None
        }
    }
}

/// Whether `result` is what checking a configuration with these values
/// gives: the same values where every field is set, else the error that
/// names the first field that is not.
pub open spec fn is_checked(
    values: ConfigView,
    result: Result<ValidatedConfigData, ConfigError>,
) -> bool {
    match values.first_missing() {
        Some(field) => result matches Err(ConfigError::MissingField(name)) && name@ == field,
        None => result matches Ok(data) && data.values() == values,
    }
}

impl ValidatedConfigData {
    /// The value of the configuration; every field of it is set.
    pub closed spec fn values(&self) -> ConfigView {
        ConfigView {
            base_branch: Some(self.base_branch@),
            current_branch: Some(self.current_branch@),
            old_file_path: Some(self.old_file_path@),
            new_file_path: Some(self.new_file_path@),
        }
    }

    /// Every field of the value is set.
    pub proof fn lemma_values_complete(&self)
        ensures
            self.values().first_missing() is None,
    {
    }

    pub fn base_branch(&self) -> (value: &String)
        ensures
            Some(value@) == self.values().base_branch,
    {
        &self.base_branch
    }

    pub fn current_branch(&self) -> (value: &String)
        ensures
            Some(value@) == self.values().current_branch,
    {
        &self.current_branch
    }

    pub fn old_file_path(&self) -> (value: &String)
        ensures
            Some(value@) == self.values().old_file_path,
    {
        &self.old_file_path
    }

    pub fn new_file_path(&self) -> (value: &String)
        ensures
            Some(value@) == self.values().new_file_path,
    {
        &self.new_file_path
    }

    /// Checks that every field is set. The first field that is not is named
    /// in the error.
    pub fn validate(config: ConfigData) -> (result: Result<ValidatedConfigData, ConfigError>)
        ensures
            is_checked(config.deep_view(), result),
    {
        let base_branch = match config.base_branch {
            Some(value) => value,
            None => {
                return Err(ConfigError::MissingField("base_branch".to_string()));
            },
        };
        let current_branch = match config.current_branch {
            Some(value) => value,
            None => {
                return Err(ConfigError::MissingField("current_branch".to_string()));
            },
        };
        let old_file_path = match config.old_file_path {
            Some(value) => value,
            None => {
                return Err(ConfigError::MissingField("old_file_path".to_string()));
            },
        };
        let new_file_path = match config.new_file_path {
            Some(value) => value,
            None => {
                return Err(ConfigError::MissingField("new_file_path".to_string()));
            },
        };
        Ok(ValidatedConfigData { base_branch, current_branch, old_file_path, new_file_path })
    }
}

impl TryFrom<ConfigData> for ValidatedConfigData {
    type Error = ConfigError;

    fn try_from(config: ConfigData) -> (result: Result<Self, ConfigError>)
        ensures
            is_checked(config.deep_view(), result),
    {
        ValidatedConfigData::validate(config)
    }
}

/// The result of `try_from` holds strings, so it is not written down here
/// as one value: what `try_from` returns is stated on `try_from` itself,
/// over the views.
impl vstd::std_specs::convert::TryFromSpecImpl<ConfigData> for ValidatedConfigData {
    open spec fn obeys_try_from_spec() -> bool {
        false
    }

    open spec fn try_from_spec(config: ConfigData) -> Result<Self, ConfigError> {
        Err(ConfigError::EmptyBranchName)
    }
}

} // verus!
