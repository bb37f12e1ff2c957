use kelvin::config::{default_thaw_days, Config, DefaultsConfig, StorageConfig};
use kelvin::date::Date;
use kelvin::error::Error;
use kelvin::models::{Task, TaskState};
use kelvin::storage::TaskStore;
use std::path::PathBuf;

fn sample_task(id: u32) -> Task {
    Task {
        id,
        title: format!("Task {id}"),
        description: String::new(),
        state: TaskState::Melted,
        thaw_date: None,
        due_date: None,
        created_at: Date::from_ymd_opt(2026, 1, 1).unwrap(),
    }
}

#[test]
fn next_id_empty() {
    assert_eq!(TaskStore::next_id(&[]), 1);
}

#[test]
fn next_id_with_tasks() {
    let tasks = vec![sample_task(5), sample_task(3)];
    assert_eq!(TaskStore::next_id(&tasks), 6);
}

#[test]
fn next_id_after_three_and_five() {
    let tasks = vec![sample_task(3), sample_task(5)];
    assert_eq!(TaskStore::next_id(&tasks), 6);
}

#[test]
fn next_id_does_not_fill_gaps() {
    let tasks = vec![sample_task(1), sample_task(9), sample_task(2)];
    assert_eq!(TaskStore::next_id(&tasks), 10);
    let tasks = vec![sample_task(u32::MAX - 1)];
    assert_eq!(TaskStore::next_id(&tasks), u32::MAX);
}

#[test]
fn default_config_values() {
    let config = Config::default();
    assert_eq!(config.defaults.thaw_days, 7);
    assert!(config.storage.data_file.is_none());
}

#[test]
fn default_parts() {
    assert_eq!(default_thaw_days(), 7);
    assert_eq!(Config::default_defaults().thaw_days, 7);
    assert!(Config::default_storage().data_file.is_none());
}

#[test]
fn custom_data_file_path() {
    let config = Config {
        defaults: DefaultsConfig { thaw_days: 7 },
        storage: StorageConfig { data_file: Some("/tmp/custom.json".to_string()) },
    };
    let path = config.data_file_path(Some("/home/user")).unwrap();
    assert_eq!(PathBuf::from(path), PathBuf::from("/tmp/custom.json"));
    let path = config.data_file_path(None).unwrap();
    assert_eq!(PathBuf::from(path), PathBuf::from("/tmp/custom.json"));
}

fn config_with(data_file: Option<&str>) -> Config {
    Config {
        defaults: DefaultsConfig { thaw_days: 7 },
        storage: StorageConfig { data_file: data_file.map(|s| s.to_string()) },
    }
}

#[test]
fn data_file_path_expands_a_leading_tilde() {
    let home = Some("/home/user");
    assert_eq!(
        config_with(Some("~/notes/tasks.json")).data_file_path(home),
        Ok("/home/user/notes/tasks.json".to_string())
    );
    assert_eq!(config_with(Some("~")).data_file_path(home), Ok("/home/user".to_string()));
    assert_eq!(
        config_with(Some("~other/tasks.json")).data_file_path(home),
        Ok("~other/tasks.json".to_string())
    );
    assert_eq!(
        config_with(Some("/srv/~/tasks.json")).data_file_path(home),
        Ok("/srv/~/tasks.json".to_string())
    );
    assert_eq!(
        config_with(Some("~/tasks.json")).data_file_path(None),
        Ok("~/tasks.json".to_string())
    );
    assert_eq!(config_with(Some("")).data_file_path(home), Ok(String::new()));
}

#[test]
fn data_file_path_defaults_to_the_home_directory() {
    let path = config_with(None).data_file_path(Some("/home/user")).unwrap();
    assert_eq!(
        PathBuf::from(path),
        PathBuf::from("/home/user").join(".config").join("kelvin").join("tasks.json")
    );
    assert_eq!(config_with(None).data_file_path(None), Err(Error::NoHomeDirectory));
}

#[test]
fn kelvin_dir_lies_under_the_home_directory() {
    let dir = Config::kelvin_dir(Some("/home/user")).unwrap();
    assert_eq!(PathBuf::from(dir), PathBuf::from("/home/user").join(".config").join("kelvin"));
    assert_eq!(Config::kelvin_dir(None), Err(Error::NoHomeDirectory));
    let file = Config::config_path(Some("/home/user")).unwrap();
    assert_eq!(
        PathBuf::from(file),
        PathBuf::from("/home/user").join(".config").join("kelvin").join("config.toml")
    );
    assert_eq!(Config::config_path(None), Err(Error::NoHomeDirectory));
}

#[test]
fn store_from_config() {
    let store = TaskStore::from_config(&config_with(Some("~/t.json")), Some("/home/user")).unwrap();
    assert_eq!(store.path(), "/home/user/t.json");
    let store = TaskStore::from_config(&config_with(None), Some("/home/user")).unwrap();
    assert_eq!(
        PathBuf::from(store.path()),
        PathBuf::from("/home/user").join(".config").join("kelvin").join("tasks.json")
    );
    assert!(matches!(
        TaskStore::from_config(&config_with(None), None),
        Err(Error::NoHomeDirectory)
    ));
}

#[test]
fn store_with_path() {
    let store = TaskStore::new_with_path("/tmp/tasks.json".to_string());
    assert_eq!(store.path(), "/tmp/tasks.json");
}
