use mirudi::config::{ConfigData, ConfigError, ConfigStorage, FileSystem, Serializer, Storage};
use serde::de::Error as SerdeError;
use std::cell::RefCell;
use std::io;
use std::path::PathBuf;
use std::sync::Arc;

const TEST_FILE_PATH: &str = "/test/dir/config.yaml";

/// A file system that answers from what it is told and keeps what it was
/// asked to do.
struct MockFileSystem {
    found: bool,
    fail: Option<&'static str>,
    content: &'static str,
    calls: RefCell<Vec<String>>,
}

impl MockFileSystem {
    fn new(found: bool) -> Self {
        MockFileSystem { found, fail: None, content: "base_branch: null\n", calls: RefCell::new(Vec::new()) }
    }

    fn failing(found: bool, request: &'static str) -> Self {
        MockFileSystem { found, fail: Some(request), content: "", calls: RefCell::new(Vec::new()) }
    }

    fn answer(&self, request: &str, call: String) -> io::Result<()> {
        self.calls.borrow_mut().push(call);
        if self.fail == Some(request) {
            Err(io::Error::new(io::ErrorKind::Other, "File system error"))
        } else {
            Ok(())
        }
    }
}

impl FileSystem for MockFileSystem {
    fn create_dir_all(&self, path: &PathBuf) -> io::Result<()> {
        self.answer("create_dir_all", format!("create_dir_all {}", path.display()))
    }

    fn create_file(&self, path: &PathBuf) -> io::Result<()> {
        self.answer("create_file", format!("create_file {}", path.display()))
    }

    fn write_file(&self, path: &PathBuf, content: &str) -> io::Result<()> {
        self.answer("write_file", format!("write_file {} {:?}", path.display(), content))
    }

    fn read_to_string(&self, path: &PathBuf) -> io::Result<String> {
        self.answer("read_to_string", format!("read_to_string {}", path.display()))
            .map(|_| self.content.to_string())
    }

    fn path_exists(&self, _path: &PathBuf) -> bool {
        self.found
    }
}

/// A serializer that writes one text and reads one configuration, or fails.
struct MockSerializer {
    fail: bool,
    read: RefCell<Vec<String>>,
    base: Option<&'static str>,
}

impl MockSerializer {
    fn new() -> Self {
        MockSerializer { fail: false, read: RefCell::new(Vec::new()), base: None }
    }
}

impl Serializer for MockSerializer {
    fn serialize(&self, _data: &ConfigData) -> Result<String, serde_yaml::Error> {
        if self.fail {
            Err(serde_yaml::Error::custom("Serialization error"))
        } else {
            Ok("base_branch: null\n".to_string())
        }
    }

    fn deserialize(&self, content: &str) -> Result<ConfigData, serde_yaml::Error> {
        self.read.borrow_mut().push(content.to_string());
        if self.fail {
            Err(serde_yaml::Error::custom("Deserialization error"))
        } else {
            Ok(ConfigData::from_values(self.base.map(|s| s.to_string()), None, None, None))
        }
    }
}

fn storage(fs: &Arc<MockFileSystem>, serializer: &Arc<MockSerializer>) -> ConfigStorage<MockSerializer, MockFileSystem> {
    ConfigStorage::new(PathBuf::from(TEST_FILE_PATH), fs.clone(), serializer.clone()).ok().unwrap()
}

fn calls(fs: &MockFileSystem) -> Vec<String> {
    fs.calls.borrow().clone()
}

#[test]
fn test_config_storage_new_returns_ok() {
    let result = ConfigStorage::new(
        PathBuf::from(TEST_FILE_PATH),
        Arc::new(MockFileSystem::new(false)),
        Arc::new(MockSerializer::new()),
    );

    assert!(result.is_ok());
}

#[test]
fn test_config_storage_new_creates_directory() {
    let fs = Arc::new(MockFileSystem::new(false));
    let _ = ConfigStorage::new(PathBuf::from(TEST_FILE_PATH), fs.clone(), Arc::new(MockSerializer::new()));
    let made: Vec<String> = calls(&fs).into_iter().filter(|c| c.starts_with("create_dir_all")).collect();
    assert_eq!(made, vec!["create_dir_all /test/dir".to_string()]);
}

#[test]
fn test_config_storage_new_does_not_create_directory_if_exists() {
    let fs = Arc::new(MockFileSystem::new(true));
    let _ = ConfigStorage::new(PathBuf::from(TEST_FILE_PATH), fs.clone(), Arc::new(MockSerializer::new()));
    assert!(calls(&fs).iter().all(|c| !c.starts_with("create_dir_all")));
}

#[test]
fn test_config_storage_new_creates_file() {
    let fs = Arc::new(MockFileSystem::new(false));
    let _ = ConfigStorage::new(PathBuf::from(TEST_FILE_PATH), fs.clone(), Arc::new(MockSerializer::new()));
    let made: Vec<String> = calls(&fs).into_iter().filter(|c| c.starts_with("create_file")).collect();
    assert_eq!(made, vec!["create_file /test/dir/config.yaml".to_string()]);
}

#[test]
fn test_config_storage_new_does_not_create_file_if_exists() {
    let fs = Arc::new(MockFileSystem::new(true));
    let _ = ConfigStorage::new(PathBuf::from(TEST_FILE_PATH), fs.clone(), Arc::new(MockSerializer::new()));
    assert!(calls(&fs).is_empty());
}

#[test]
fn test_config_storage_save() {
    let fs = Arc::new(MockFileSystem::new(true));
    let serializer = Arc::new(MockSerializer::new());
    let storage = storage(&fs, &serializer);
    let data = ConfigData::default();
    assert!(storage.save(&data).is_ok());
    assert_eq!(
        calls(&fs),
        vec!["write_file /test/dir/config.yaml \"base_branch: null\\n\"".to_string()]
    );
}

#[test]
fn test_config_storage_save_invalid_data() {
    let fs = Arc::new(MockFileSystem::new(true));
    let serializer = Arc::new(MockSerializer { fail: true, read: RefCell::new(Vec::new()), base: None });
    let storage = storage(&fs, &serializer);
    let data = ConfigData::default();
    let result = storage.save(&data);
    assert!(result.is_err());
    assert_eq!(result, Err(ConfigError::Yaml("Serialization error".to_string())));
    assert!(calls(&fs).is_empty());
}

#[test]
fn test_config_storage_save_file_system_error() {
    let fs = Arc::new(MockFileSystem::failing(true, "write_file"));
    let serializer = Arc::new(MockSerializer::new());
    let storage = storage(&fs, &serializer);
    let data = ConfigData::default();
    let result = storage.save(&data);
    assert!(result.is_err());
    assert_eq!(result, Err(ConfigError::IoKind(io::ErrorKind::Other)));
}

#[test]
fn test_config_storage_load() {
    let fs = Arc::new(MockFileSystem::new(true));
    let serializer = Arc::new(MockSerializer::new());
    let storage = storage(&fs, &serializer);
    let result = storage.load();
    assert!(result.is_ok());
    let data = result.unwrap();
    assert_eq!(data.base_branch(), None);
    assert_eq!(calls(&fs), vec!["read_to_string /test/dir/config.yaml".to_string()]);
    assert_eq!(serializer.read.borrow().clone(), vec!["base_branch: null\n".to_string()]);
}

#[test]
fn test_config_storage_load_has_value() {
    let fs = Arc::new(MockFileSystem::new(true));
    let serializer = Arc::new(MockSerializer { fail: false, read: RefCell::new(Vec::new()), base: Some("main") });
    let storage = storage(&fs, &serializer);
    let result = storage.load();
    assert!(result.is_ok());
    let data = result.unwrap();
    assert_eq!(data.base_branch(), Some("main".to_string()));
}

#[test]
fn test_config_storage_load_file_system_error() {
    let fs = Arc::new(MockFileSystem::failing(true, "read_to_string"));
    let serializer = Arc::new(MockSerializer::new());
    let storage = storage(&fs, &serializer);
    let result = storage.load();
    assert!(result.is_err());
    assert_eq!(result.err(), Some(ConfigError::IoKind(io::ErrorKind::Other)));
    assert!(serializer.read.borrow().is_empty());
}

#[test]
fn test_config_storage_load_deserialization_error() {
    let fs = Arc::new(MockFileSystem::new(true));
    let serializer = Arc::new(MockSerializer { fail: true, read: RefCell::new(Vec::new()), base: None });
    let storage = storage(&fs, &serializer);
    let result = storage.load();
    assert!(result.is_err());
    assert_eq!(result.err(), Some(ConfigError::Yaml("Deserialization error".to_string())));
}

#[test]
fn storage_that_cannot_be_made_ready_is_none() {
    let no_dir = ConfigStorage::new(
        PathBuf::from(TEST_FILE_PATH),
        Arc::new(MockFileSystem::failing(false, "create_dir_all")),
        Arc::new(MockSerializer::new()),
    );
    assert_eq!(no_dir.err(), Some(ConfigError::IoKind(io::ErrorKind::Other)));
    let fs = Arc::new(MockFileSystem::failing(false, "create_file"));
    let no_file = ConfigStorage::new(PathBuf::from(TEST_FILE_PATH), fs.clone(), Arc::new(MockSerializer::new()));
    assert_eq!(no_file.err(), Some(ConfigError::IoKind(io::ErrorKind::Other)));
    assert_eq!(
        calls(&fs),
        vec!["create_dir_all /test/dir".to_string(), "create_file /test/dir/config.yaml".to_string()]
    );
}

#[test]
fn file_without_a_directory_needs_none() {
    let fs = Arc::new(MockFileSystem::new(false));
    let _ = ConfigStorage::new(PathBuf::from("/"), fs.clone(), Arc::new(MockSerializer::new()));
    assert_eq!(calls(&fs), vec!["create_file /".to_string()]);
}

#[test]
fn init_keeps_the_configuration_in_its_file() {
    let manager = mirudi::config::init(
        PathBuf::from("/home/user"),
        MockFileSystem::new(true),
        MockSerializer::new(),
    );
    assert!(manager.is_ok());
    let storage = mirudi::config::storage::init(
        PathBuf::from("/home/user/config.yaml"),
        MockFileSystem::failing(false, "create_file"),
        MockSerializer::new(),
    );
    assert_eq!(storage.err(), Some(ConfigError::IoKind(io::ErrorKind::Other)));
    assert_eq!(
        ConfigError::from(io::Error::new(io::ErrorKind::NotFound, "gone")),
        ConfigError::IoKind(io::ErrorKind::NotFound)
    );
    assert_eq!(
        ConfigError::from(serde_yaml::Error::custom("bad")),
        ConfigError::Yaml("bad".to_string())
    );
}

#[test]
fn directory_is_made_sure_of_where_there_is_one() {
    let fs = Arc::new(MockFileSystem::new(true));
    let storage = storage(&fs, &Arc::new(MockSerializer::new()));
    assert_eq!(storage.ensure_directory(None), Ok(()));
    assert_eq!(storage.ensure_directory(Some(PathBuf::from("/other"))), Ok(()));
    assert_eq!(storage.ensure_directory_exists(), Ok(()));
    assert!(calls(&fs).is_empty());

    let fs = Arc::new(MockFileSystem::new(false));
    let storage = storage_in(&fs);
    fs.calls.borrow_mut().clear();
    assert_eq!(storage.ensure_directory(None), Ok(()));
    assert!(calls(&fs).is_empty());
    assert_eq!(storage.ensure_directory(Some(PathBuf::from("/other/place"))), Ok(()));
    assert_eq!(storage.ensure_directory_exists(), Ok(()));
    assert_eq!(
        calls(&fs),
        vec!["create_dir_all /other/place".to_string(), "create_dir_all /test/dir".to_string()]
    );
}

#[test]
fn directory_that_cannot_be_created_is_reported_by_its_kind() {
    let fs = Arc::new(MockFileSystem::new(true));
    let storage = storage_in(&fs);
    let broken = ConfigStorage::new(
        PathBuf::from(TEST_FILE_PATH),
        Arc::new(MockFileSystem::failing(false, "create_dir_all")),
        Arc::new(MockSerializer::new()),
    );
    assert_eq!(broken.err(), Some(ConfigError::IoKind(io::ErrorKind::Other)));
    assert_eq!(storage.ensure_directory_exists(), Ok(()));
    assert_eq!(
        ConfigError::from_io(io::Error::new(io::ErrorKind::PermissionDenied, "no")),
        ConfigError::IoKind(io::ErrorKind::PermissionDenied)
    );
    assert_eq!(
        ConfigError::from_io(io::Error::from(io::ErrorKind::AlreadyExists)),
        ConfigError::IoKind(io::ErrorKind::AlreadyExists)
    );
    assert_eq!(
        ConfigError::from_yaml(serde_yaml::Error::custom("not a map")),
        ConfigError::Yaml("not a map".to_string())
    );
}

fn storage_in(fs: &Arc<MockFileSystem>) -> ConfigStorage<MockSerializer, MockFileSystem> {
    ConfigStorage::new(PathBuf::from(TEST_FILE_PATH), fs.clone(), Arc::new(MockSerializer::new()))
        .ok()
        .unwrap()
}
