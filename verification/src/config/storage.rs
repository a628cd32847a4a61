//! Where the configuration is kept.

pub mod filesystem;
pub mod serializer;
pub mod store;

pub use filesystem::FileSystem;
pub use serializer::Serializer;
pub use store::ConfigStorage;

use std::path::PathBuf;
use std::sync::Arc;
use vstd::prelude::*;

use crate::config::data::ConfigData;
use crate::config::error::ConfigError;

verus! {

/// A place that keeps one value and gives it back.
///
/// Beside each request stands a predicate that says which outcomes the
/// place may have for it; it holds of every outcome.
pub trait Storage<T = ConfigData, E = ConfigError> {
    /// Whether `result` may come back when `data` is saved.
    open spec fn saves(&self, data: &T, result: Result<(), E>) -> bool {
        true
    }

    /// Whether `data` may come back when the value is loaded.
    open spec fn loads(&self, data: Result<T, E>) -> bool {
        true
    }

    fn save(&self, data: &T) -> (result: Result<(), E>)
        ensures
            self.saves(data, result),
    ;

    fn load(&self) -> (data: Result<T, E>)
        ensures
            self.loads(data),
    ;
}

/// A storage of the configuration in the file at `path`, with this file
/// system and this serializer.
pub fn init<S: Serializer, F: FileSystem>(path: PathBuf, fs: F, serializer: S) -> (result: Result<
    ConfigStorage<S, F>,
    ConfigError,
>)
    ensures
        match result {
            Ok(storage) => {
                &&& storage.path() == path
                &&& storage.file_system() == fs
                &&& storage.format() == serializer
                &&& storage.file_ensured(Ok(()))
            },
            Err(error) => error is IoKind,
        },
{
    ConfigStorage::new(path, Arc::new(fs), Arc::new(serializer))
}

} // verus!
