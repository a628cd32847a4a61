//! The configuration as the diff command needs it: loaded and complete.

use vstd::prelude::*;

use crate::commands::error::CommandError;
use crate::config::data::{ConfigData, ConfigView, ValidatedConfigData};
use crate::config::error::ConfigError;
use crate::config::manager::Manager;

verus! {

/// Whether `result` is what checking a configuration with these values
/// gives: the same values where every field is set, else the error that
/// names the first field that is not.
pub open spec fn is_validated(
    values: ConfigView,
    result: Result<ValidatedConfigData, CommandError>,
) -> bool {
    match values.first_missing() {
        Some(field) => result matches Err(CommandError::Config(ConfigError::MissingField(name)))
            && name@ == field,
        None => result matches Ok(valid) && valid.values() == values,
    }
}

/// Whether `result` is what is made of a configuration that was loaded: a
/// failure to load is handed on as it is, and what was loaded is checked.
pub open spec fn is_loaded(
    loaded: Result<ConfigData, ConfigError>,
    result: Result<ValidatedConfigData, CommandError>,
) -> bool {
    match loaded {
        Ok(data) => is_validated(data.deep_view(), result),
        Err(error) => result matches Err(CommandError::Config(cause)) && cause == error,
    }
}

/// Checks that the configuration is complete. The first field that is not
/// set is named in the error.
pub fn validated(data: ConfigData) -> (result: Result<ValidatedConfigData, CommandError>)
    ensures
        is_validated(data.deep_view(), result),
{
    match ValidatedConfigData::validate(data) {
        Ok(valid) => Ok(valid),
        Err(error) => Err(CommandError::from(error)),
    }
}

/// Loads the configuration and checks that it is complete.
pub fn load<M: Manager + ?Sized>(config: &mut M) -> (result: Result<
    ValidatedConfigData,
    CommandError,
>)
    ensures
        exists|loaded: Result<ConfigData, ConfigError>|
            #![trigger old(config).loads(loaded)]
            old(config).loads(loaded) && is_loaded(loaded, result),
        result matches Err(error) ==> error is Config,
{
    let loaded = config.load();
    assert(old(config).loads(loaded));
    match loaded {
        Ok(data) => validated(data),
        Err(error) => Err(CommandError::from(error)),
    }
}

} // verus!
