use std::cell::{Cell, RefCell};

use huelight::config::{Config, FileHandler};
use huelight::error::{ConfigError, CoreError};
use huelight::logger::{ILogger, Logger};

/// A file layer that keeps files in memory.
#[derive(Default)]
struct MemoryFiles {
    files: RefCell<Vec<(String, String)>>,
    fail_create: bool,
    fail_write: bool,
    writes: Cell<usize>,
}

impl FileHandler for MemoryFiles {
    fn read_file(&mut self, path: &str) -> Result<String, CoreError> {
        self.files
            .borrow()
            .iter()
            .rev()
            .find(|(p, _)| p == path)
            .map(|(_, c)| c.clone())
            .ok_or_else(|| CoreError::UnexpectedResponse("no such file".to_string()))
    }

    fn write_file(&mut self, path: &str, content: &str) -> Result<(), CoreError> {
        self.writes.set(self.writes.get() + 1);
        if self.fail_write {
            return Err(CoreError::UnexpectedResponse("write failed".to_string()));
        }
        self.files
            .borrow_mut()
            .push((path.to_string(), content.to_string()));
        Ok(())
    }

    fn create_dir_all(&mut self, _path: &str) -> Result<(), CoreError> {
        if self.fail_create {
            Err(CoreError::UnexpectedResponse(
                "create directory error".to_string(),
            ))
        } else {
            Ok(())
        }
    }
}

/// A file layer whose reads return fixed text.
struct FixedFile(&'static str);

impl FileHandler for FixedFile {
    fn read_file(&mut self, _path: &str) -> Result<String, CoreError> {
        Ok(self.0.to_string())
    }

    fn write_file(&mut self, _path: &str, _content: &str) -> Result<(), CoreError> {
        Ok(())
    }

    fn create_dir_all(&mut self, _path: &str) -> Result<(), CoreError> {
        Ok(())
    }
}

fn home() -> Option<Option<String>> {
    Some(Some("/home/someone/.config".to_string()))
}

#[test]
fn save_config_write_success_expect_success_log() {
    let config = Config::new("192.168.1.1".to_string(), "user".to_string());
    let mut logger = Logger::default();
    let mut files = MemoryFiles::default();

    config.save_in(home(), &mut logger, &mut files).unwrap();

    assert!(logger
        .entries()
        .iter()
        .any(|entry| entry.contains("Saving config to")));
    assert_eq!(
        logger.entries()[0],
        "Saving config to /home/someone/.config/huelightcli/config.json: {\"bridge_ip\":\"192.168.1.1\",\"username\":\"user\"}\n"
    );
}

#[test]
fn save_config_write_fail_expect_error_from_write_error() {
    let config = Config::new("192.168.1.1".to_string(), "user".to_string());
    let mut logger = Logger::default();
    let mut files = MemoryFiles {
        fail_write: true,
        ..Default::default()
    };

    let result = config.save_in(home(), &mut logger, &mut files);

    assert!(matches!(result, Err(CoreError::UnexpectedResponse(msg)) if msg == "write failed"))
}

#[test]
fn save_config_create_dir_failed_expect_config_dir_create_error() {
    let config = Config::new("192.168.1.1".to_string(), "user".to_string());
    let mut logger = Logger::default();
    let mut files = MemoryFiles {
        fail_create: true,
        ..Default::default()
    };

    let result = config.save_in(home(), &mut logger, &mut files);

    assert!(matches!(
        result,
        Err(CoreError::Config(ConfigError::ConfigDirectoryCreateError))
    ));
    assert_eq!(files.writes.get(), 0);
    assert_eq!(logger.entries().len(), 1);
}

#[test]
fn load_config_success_expect_valid_config() {
    let mut files = FixedFile("{ \"bridge_ip\": \"192.168.1.1\", \"username\": \"user\" }");

    let result = Config::load_in(home(), &mut files).unwrap();

    assert_eq!(result.bridge_ip, "192.168.1.1");
    assert_eq!(result.username, "user");
}

#[test]
fn load_config_fail_expect_serialization_error() {
    let mut files = FixedFile("{ \"not_bridge_ip\": \"192.168.1.1\", \"not_username\": \"user\" }");

    let result = Config::load_in(home(), &mut files);

    assert!(matches!(result, Err(CoreError::Serialization(_))));
}

#[test]
fn saved_config_loads_back_equal() {
    let config = Config::new("10.0.0.7".to_string(), "a \"quoted\" user\u{e9}".to_string());
    let mut logger = Logger::default();
    let mut files = MemoryFiles::default();

    config.save_in(home(), &mut logger, &mut files).unwrap();
    let loaded = Config::load_in(home(), &mut files).unwrap();

    assert_eq!(loaded.bridge_ip, config.bridge_ip);
    assert_eq!(loaded.username, config.username);
}

#[test]
fn missing_or_unusable_config_directory_is_reported() {
    let config = Config::new("1.2.3.4".to_string(), "u".to_string());
    let mut logger = Logger::default();
    let mut files = MemoryFiles::default();
    assert!(matches!(
        config.save_in(None, &mut logger, &mut files),
        Err(CoreError::Config(ConfigError::ConfigDirectoryNotFoundError))
    ));
    assert!(matches!(
        config.save_in(Some(None), &mut logger, &mut files),
        Err(CoreError::Config(ConfigError::ConfigPathInvalidError))
    ));
    assert!(matches!(
        Config::load_in(None, &mut files),
        Err(CoreError::Config(ConfigError::ConfigDirectoryNotFoundError))
    ));
    assert!(matches!(
        Config::load_in(home(), &mut files),
        Err(CoreError::UnexpectedResponse(_))
    ));
    assert_eq!(files.writes.get(), 0);
    assert!(logger.entries().is_empty());
}

#[test]
fn config_file_text_is_a_json_object() {
    let config = Config::new("192.168.1.1".to_string(), "user".to_string());
    assert_eq!(
        config.to_json_text(),
        "{\"bridge_ip\":\"192.168.1.1\",\"username\":\"user\"}"
    );
    assert!(matches!(Config::from_text("[1]"), Err(CoreError::Serialization(_))));
}

#[test]
fn config_error_messages() {
    assert_eq!(
        ConfigError::ConfigDirectoryCreateError.message(),
        "failed to create config directory"
    );
}
