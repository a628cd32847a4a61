//! The manager of the configuration, through which the commands reach it.

use vstd::prelude::*;

use crate::config::data::ConfigData;
use crate::config::error::ConfigError;
use crate::config::storage::Storage;

verus! {

/// What the commands ask of the configuration.
///
/// Beside each request stands a predicate that says which outcomes the
/// manager may have for it; it holds of every outcome. The predicates say
/// what may come back at any time: a request leaves them as they are.
pub trait Manager<D: 'static = ConfigData, E: 'static = ConfigError> {
    /// Whether `result` may come back when `data` is saved.
    open spec fn saves(&self, data: &D, result: Result<(), E>) -> bool {
        true
    }

    /// Whether `data` may come back when the configuration is loaded.
    open spec fn loads(&self, data: Result<D, E>) -> bool {
        true
    }

    /// Whether `data` may come back as the configuration to start from.
    open spec fn gives_default(&self, data: Result<D, E>) -> bool {
        true
    }

    fn save(&mut self, data: &D) -> (result: Result<(), E>)
        ensures
            old(self).saves(data, result),
            forall|other: &D, saved: Result<(), E>|
                #![trigger final(self).saves(other, saved)]
                #![trigger old(self).saves(other, saved)]
                final(self).saves(other, saved) == old(self).saves(other, saved),
            forall|loaded: Result<D, E>|
                #![trigger final(self).loads(loaded)]
                #![trigger old(self).loads(loaded)]
                final(self).loads(loaded) == old(self).loads(loaded),
            forall|start: Result<D, E>|
                #![trigger final(self).gives_default(start)]
                #![trigger old(self).gives_default(start)]
                final(self).gives_default(start) == old(self).gives_default(start),
    ;

    fn load(&mut self) -> (data: Result<D, E>)
        ensures
            old(self).loads(data),
            forall|other: &D, saved: Result<(), E>|
                #![trigger final(self).saves(other, saved)]
                #![trigger old(self).saves(other, saved)]
                final(self).saves(other, saved) == old(self).saves(other, saved),
            forall|loaded: Result<D, E>|
                #![trigger final(self).loads(loaded)]
                #![trigger old(self).loads(loaded)]
                final(self).loads(loaded) == old(self).loads(loaded),
            forall|start: Result<D, E>|
                #![trigger final(self).gives_default(start)]
                #![trigger old(self).gives_default(start)]
                final(self).gives_default(start) == old(self).gives_default(start),
    ;

    fn get_default(&self) -> (data: Result<D, E>)
        ensures
            self.gives_default(data),
    ;
}

/// Whether a manager may have the same outcomes as another.
pub open spec fn same_answers<D: 'static, E: 'static, M: Manager<D, E> + ?Sized>(
    one: &M,
    other: &M,
) -> bool {
    &&& forall|data: &D, result: Result<(), E>|
        #![trigger one.saves(data, result)]
        #![trigger other.saves(data, result)]
        one.saves(data, result) == other.saves(data, result)
    &&& forall|data: Result<D, E>|
        #![trigger one.loads(data)]
        #![trigger other.loads(data)]
        one.loads(data) == other.loads(data)
    &&& forall|data: Result<D, E>|
        #![trigger one.gives_default(data)]
        #![trigger other.gives_default(data)]
        one.gives_default(data) == other.gives_default(data)
}

/// A manager that keeps the configuration in a storage.
pub struct ConfigManager<S: Storage> {
    storage: S,
}

impl<S: Storage> ConfigManager<S> {
    /// The storage that the manager keeps the configuration in.
    pub closed spec fn storage(&self) -> S {
        self.storage
    }

    pub fn new(storage: S) -> (manager: Result<Self, ConfigError>)
        ensures
            manager matches Ok(made) && made.storage() == storage,
    {
        Ok(Self { storage })
    }
}

impl<S: Storage> Manager for ConfigManager<S> {
    /// Saving is the storage's saving.
    open spec fn saves(&self, data: &ConfigData, result: Result<(), ConfigError>) -> bool {
        self.storage().saves(data, result)
    }

    /// Loading is the storage's loading.
    open spec fn loads(&self, data: Result<ConfigData, ConfigError>) -> bool {
        self.storage().loads(data)
    }

    /// The configuration to start from is the one in which nothing is set.
    open spec fn gives_default(&self, data: Result<ConfigData, ConfigError>) -> bool {
        data matches Ok(unset) && unset.deep_view() == ConfigData::unset()
    }

    /// Hands the configuration to the storage. The storage stays the same.
    fn save(&mut self, data: &ConfigData) -> (result: Result<(), ConfigError>)
        ensures
            final(self).storage() == old(self).storage(),
    {
        self.storage.save(data)
    }

    /// Asks the storage for the configuration. The storage stays the same.
    fn load(&mut self) -> (data: Result<ConfigData, ConfigError>)
        ensures
            final(self).storage() == old(self).storage(),
    {
        self.storage.load()
    }

    /// The configuration in which nothing is set.
    fn get_default(&self) -> (data: Result<ConfigData, ConfigError>) {
        Ok(ConfigData::default())
    }
}

} // verus!
