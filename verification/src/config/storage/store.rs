//! The storage of the configuration in one file.

use std::path::PathBuf;
use std::sync::Arc;
use vstd::prelude::*;

use crate::config::data::ConfigData;
use crate::config::error::{error_kind, ConfigError};
use crate::config::storage::filesystem::{parent_of, parent_path, FileSystem};
use crate::config::storage::serializer::Serializer;
use crate::config::storage::Storage;

verus! {

/// Keeps the configuration in a file, written by a serializer.
pub struct ConfigStorage<S: Serializer, F: FileSystem> {
    file_path: PathBuf,
    fs: Arc<F>,
    serializer: Arc<S>,
}

/// Whether `result` reports the failure of the file system, if there is
/// one, by its kind.
pub open spec fn is_done(done: Result<(), std::io::Error>, result: Result<(), ConfigError>) -> bool {
    match done {
        Ok(_) => result is Ok,
        Err(err) => result == Err::<(), ConfigError>(ConfigError::IoKind(error_kind(err))),
    }
}

/// Whether `result` is what making sure of a path gives, where `finds` and
/// `creates` say what the file system may answer: a path that is found is
/// left alone, and one that is not is created.
pub open spec fn is_ensured(
    finds: spec_fn(bool) -> bool,
    creates: spec_fn(Result<(), std::io::Error>) -> bool,
    result: Result<(), ConfigError>,
) -> bool {
    exists|found: bool|
        #![trigger finds(found)]
        finds(found) && (if found {
            result is Ok
        } else {
            exists|done: Result<(), std::io::Error>|
                #![trigger creates(done)]
                creates(done) && is_done(done, result)
        })
}

impl<S: Serializer, F: FileSystem> ConfigStorage<S, F> {
    /// The path of the file.
    pub closed spec fn path(&self) -> PathBuf {
        self.file_path
    }

    /// The file system.
    pub closed spec fn file_system(&self) -> F {
        *self.fs
    }

    /// The serializer.
    pub closed spec fn format(&self) -> S {
        *self.serializer
    }

    /// Whether `result` is what making sure of a directory gives: where
    /// there is none to make sure of, nothing is asked of the file system;
    /// else the directory is left alone where it is found and created where
    /// it is not.
    pub open spec fn directory_outcome(
        &self,
        parent: Option<PathBuf>,
        result: Result<(), ConfigError>,
    ) -> bool {
        match parent {
            None => result is Ok,
            Some(dir) => is_ensured(
                |found: bool| self.file_system().finds(dir, found),
                |done: Result<(), std::io::Error>| self.file_system().creates_dir(dir, done),
                result,
            ),
        }
    }

    /// Whether `result` is what making sure of the directory of the file
    /// gives: the directory is the path of the file without its last
    /// component, and a file without a directory needs none.
    pub open spec fn directory_ensured(&self, result: Result<(), ConfigError>) -> bool {
        self.directory_outcome(parent_path(self.path()), result)
    }

    /// Whether `result` is what making sure of the file gives.
    pub open spec fn file_ensured(&self, result: Result<(), ConfigError>) -> bool {
        is_ensured(
            |found: bool| self.file_system().finds(self.path(), found),
            |done: Result<(), std::io::Error>| self.file_system().creates_file(self.path(), done),
            result,
        )
    }

    /// A storage in the file at `file_path`. The directory of the file and
    /// the file itself are created where they are not there; where that
    /// fails, there is no storage.
    pub fn new(file_path: PathBuf, fs: Arc<F>, serializer: Arc<S>) -> (result: Result<
        Self,
        ConfigError,
    >)
        ensures
            match result {
                Ok(storage) => {
                    &&& storage.path() == file_path
                    &&& storage.file_system() == *fs
                    &&& storage.format() == *serializer
                    &&& storage.file_ensured(Ok(()))
                },
                Err(error) => error is IoKind,
            },
    {
        let storage = Self { file_path, fs, serializer };
        match storage.ensure_directory_exists() {
            Ok(()) => {},
            Err(error) => {
                return Err(error);
            },
        }
        match storage.ensure_file_exists() {
            Ok(()) => {},
            Err(error) => {
                return Err(error);
            },
        }
        Ok(storage)
    }

    /// Creates the directory of the file where it is not there.
    pub fn ensure_directory_exists(&self) -> (result: Result<(), ConfigError>)
        ensures
            self.directory_ensured(result),
            result matches Err(error) ==> error is IoKind,
    {
        let parent = parent_of(&self.file_path);
        self.ensure_directory(parent)
    }

    /// Makes sure of the directory `parent`, if there is one: it is created
    /// where the file system does not find it.
    pub fn ensure_directory(&self, parent: Option<PathBuf>) -> (result: Result<(), ConfigError>)
        ensures
            self.directory_outcome(parent, result),
            result matches Err(error) ==> error is IoKind,
    {
        let dir = match parent {
            Some(dir) => dir,
            None => {
                return Ok(());
            },
        };
        let found = self.fs.path_exists(&dir);
        let ghost finds = |found: bool| self.file_system().finds(dir, found);
        let ghost creates = |done: Result<(), std::io::Error>|
            self.file_system().creates_dir(dir, done);
        assert(finds(found));
        if found {
            assert(is_ensured(finds, creates, Ok(())));
            return Ok(());
        }
        let done = self.fs.create_dir_all(&dir);
        assert(creates(done));
        let result = match done {
            Ok(()) => Ok(()),
            Err(error) => Err(ConfigError::from_io(error)),
        };
        assert(is_done(done, result));
        assert(is_ensured(finds, creates, result));
        result
    }

    /// Creates the file where it is not there.
    pub fn ensure_file_exists(&self) -> (result: Result<(), ConfigError>)
        ensures
            self.file_ensured(result),
            result matches Err(error) ==> error is IoKind,
    {
        let found = self.fs.path_exists(&self.file_path);
        let ghost finds = |found: bool| self.file_system().finds(self.path(), found);
        let ghost creates = |done: Result<(), std::io::Error>|
            self.file_system().creates_file(self.path(), done);
        assert(finds(found));
        if found {
            assert(is_ensured(finds, creates, Ok(())));
            return Ok(());
        }
        let done = self.fs.create_file(&self.file_path);
        assert(creates(done));
        let result = match done {
            Ok(()) => Ok(()),
            Err(error) => Err(ConfigError::from_io(error)),
        };
        assert(is_done(done, result));
        assert(is_ensured(finds, creates, result));
        result
    }
}

impl<S: Serializer, F: FileSystem> Storage for ConfigStorage<S, F> {
    /// Saving writes the configuration as text and the text to the file. A
    /// configuration that cannot be written as text is reported and the
    /// file is left alone.
    open spec fn saves(&self, data: &ConfigData, result: Result<(), ConfigError>) -> bool {
        exists|text: Result<String, serde_yaml::Error>|
            #![trigger self.format().writes(data, text)]
            self.format().writes(data, text) && (match text {
                Ok(yaml) => exists|done: Result<(), std::io::Error>|
                    #![trigger self.file_system().writes(self.path(), yaml@, done)]
                    self.file_system().writes(self.path(), yaml@, done) && is_done(done, result),
                Err(_) => result matches Err(error) && error is Yaml,
            })
    }

    /// Loading reads the file and the configuration from its text. A file
    /// that cannot be read is reported and nothing is made of it.
    open spec fn loads(&self, data: Result<ConfigData, ConfigError>) -> bool {
        exists|content: Result<String, std::io::Error>|
            #![trigger self.file_system().reads(self.path(), content)]
            self.file_system().reads(self.path(), content) && (match content {
                Ok(text) => exists|read: Result<ConfigData, serde_yaml::Error>|
                    #![trigger self.format().reads(text@, read)]
                    self.format().reads(text@, read) && (match read {
                        Ok(found) => data matches Ok(same) && same == found,
                        Err(_) => data matches Err(error) && error is Yaml,
                    }),
                Err(_) => data matches Err(error) && error is IoKind,
            })
    }

    fn save(&self, data: &ConfigData) -> (result: Result<(), ConfigError>) {
        let text = self.serializer.serialize(data);
        assert(self.format().writes(data, text));
        let yaml = match text {
            Ok(yaml) => yaml,
            Err(error) => {
                return Err(ConfigError::from_yaml(error));
            },
        };
        let done = self.fs.write_file(&self.file_path, yaml.as_str());
        assert(self.file_system().writes(self.path(), yaml@, done));
        let result = match done {
            Ok(()) => Ok(()),
            Err(error) => Err(ConfigError::from_io(error)),
        };
        assert(is_done(done, result));
        result
    }

    fn load(&self) -> (data: Result<ConfigData, ConfigError>) {
        let content = self.fs.read_to_string(&self.file_path);
        assert(self.file_system().reads(self.path(), content));
        let text = match content {
            Ok(text) => text,
            Err(error) => {
                return Err(ConfigError::from_io(error));
            },
        };
        let read = self.serializer.deserialize(text.as_str());
        assert(self.format().reads(text@, read));
        match read {
            Ok(found) => Ok(found),
            Err(error) => Err(ConfigError::from_yaml(error)),
        }
    }
}

} // verus!
