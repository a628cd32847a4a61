//! The configuration that the commands share: the branches and the paths to
//! compare.

pub mod data;
pub mod error;
pub mod manager;
pub mod storage;

pub use data::{ConfigData, ConfigScopeInput, ConfigView, ValidatedConfigData};
pub use error::ConfigError;
pub use manager::{ConfigManager, Manager};
pub use storage::{ConfigStorage, FileSystem, Serializer, Storage};

use std::path::PathBuf;
use vstd::prelude::*;

use crate::config::storage::filesystem::joined_path;

verus! {

/// The name of the file that holds the configuration.
pub const CONFIG_FILE_NAME: &'static str = "config.yaml";

/// A manager of the configuration that is kept in the directory `dir`, in
/// the file of the name `CONFIG_FILE_NAME`, with this file system and this
/// serializer.
pub fn init<S: Serializer, F: FileSystem>(dir: PathBuf, fs: F, serializer: S) -> (result: Result<
    ConfigManager<ConfigStorage<S, F>>,
    ConfigError,
>)
    ensures
        match result {
            Ok(manager) => {
                &&& manager.storage().file_system() == fs
                &&& manager.storage().format() == serializer
                &&& manager.storage().file_ensured(Ok(()))
            },
            Err(error) => error is IoKind,
        },
{
    let path = joined_path(&dir, CONFIG_FILE_NAME);
    let storage = match storage::init(path, fs, serializer) {
        Ok(storage) => storage,
        Err(error) => {
            return Err(error);
        },
    };
    ConfigManager::new(storage)
}

} // verus!
