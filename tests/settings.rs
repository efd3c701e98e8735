use xnote_sync::config::{AppConfig, ConfigManager, GitSyncConfig};
use xnote_sync::storage::FileStorageManager;
use xnote_sync::workspace;

#[test]
fn test_default_config() {
    let config = AppConfig::default();
    assert_eq!(config.window_width, 1200);
    assert_eq!(config.window_height, 800);
    assert_eq!(config.theme, "light");
}

#[test]
fn test_config_manager_paths() {
    let mut config = AppConfig::default();
    config.data_directory = "/tmp/notes-root".to_string();
    let manager = ConfigManager::with_config("/tmp/cfg/config.json".to_string(), config);
    assert_eq!(manager.get_attachments_directory(), "/tmp/notes-root/attachments");
    assert_eq!(manager.get_database_path(), "/tmp/notes-root/xnote.db");
}

#[test]
fn test_filename_sanitization() {
    let storage = FileStorageManager::new("/tmp/notes".to_string());
    let sanitized = storage.sanitize_filename("Test: <Invalid> Characters?");
    assert_eq!(sanitized, "Test_ _Invalid_ Characters_");
    let empty_sanitized = storage.sanitize_filename("");
    assert_eq!(empty_sanitized, "Untitled");
}

#[test]
fn test_unique_file_path_generation() {
    let storage = FileStorageManager::new("/tmp/notes".to_string());
    // "Test.md" was already saved
    let existing = vec!["Test.md".to_string()];
    let path = storage.generate_unique_file_path("Test", &existing).unwrap();
    assert!(path.ends_with("/Test(1).md"));
    assert_eq!(path, "/tmp/notes/Test(1).md");
}

#[test]
fn default_config_layout_and_logging() {
    let config = AppConfig::default();
    assert_eq!(config.sidebar_width, 240);
    assert_eq!(config.note_list_width, 320);
    assert_eq!(config.auto_save_interval, 5000);
    assert!(config.git_sync.is_none());
    let log = config.log_config.unwrap();
    assert!(log.enabled);
    assert_eq!(log.level, "info");
    assert_eq!(log.max_days, 7);
    assert!(log.console_output);
    assert!(config.data_directory.ends_with("Documents/xnote"));
}

#[test]
fn default_data_directory_with_and_without_home() {
    assert_eq!(
        xnote_sync::config::default_data_directory(Some("/home/ann".to_string())),
        "/home/ann/Documents/xnote"
    );
    assert_eq!(xnote_sync::config::default_data_directory(None), "./Documents/xnote");
    assert_eq!(
        xnote_sync::config::default_data_directory(Some("/".to_string())),
        "/Documents/xnote"
    );
}

#[test]
fn config_manager_updates() {
    let manager_config = AppConfig::default();
    let mut manager = ConfigManager::with_config("/c/config.json".to_string(), manager_config);
    manager.update_data_directory("/data".to_string());
    assert_eq!(manager.get_data_directory(), "/data");
    assert_eq!(manager.get_notes_directory(), "/data");
    let mut next = AppConfig::default();
    next.theme = "dark".to_string();
    next.data_directory = "/other".to_string();
    manager.update_config(next);
    assert_eq!(manager.get_config().theme, "dark");
    assert_eq!(manager.get_database_path(), "/other/xnote.db");
    let mut last = AppConfig::default();
    last.git_sync = Some(GitSyncConfig {
        enabled: true,
        repository_url: "git@example.com:n.git".to_string(),
        branch: "main".to_string(),
        username: None,
        password: None,
        ssh_key_path: None,
        auth_type: "ssh".to_string(),
    });
    manager.update_and_save_config(last);
    assert!(manager.get_config().git_sync.is_some());
    assert_eq!(manager.config_path, "/c/config.json");
}

#[test]
fn workspace_config_paths() {
    let mut config = workspace::AppConfig::default();
    assert!(config.is_first_run());
    assert_eq!(config.sidebar_width, 200);
    assert_eq!(config.note_list_width, 300);
    assert!(config.get_data_directory().is_none());
    assert!(config.get_attachments_directory().is_none());
    assert!(config.get_database_path().is_none());
    config.set_data_directory("/srv/notes/".to_string());
    assert!(!config.is_first_run());
    assert_eq!(config.get_data_directory().unwrap(), "/srv/notes/");
    assert_eq!(config.get_attachments_directory().unwrap(), "/srv/notes/attachments");
    assert_eq!(config.get_database_path().unwrap(), "/srv/notes/mdnote.db");
}

#[test]
fn storage_title_and_names() {
    let storage = FileStorageManager::new("/n".to_string());
    assert_eq!(storage.extract_title_from_file_name("Meeting notes.md"), "Meeting notes");
    assert_eq!(storage.extract_title_from_file_name("a.b.md"), "a.b");
    assert_eq!(storage.extract_title_from_file_name(".hidden"), ".hidden");
    assert_eq!(storage.extract_title_from_file_name("plain"), "plain");
    assert_eq!(storage.sanitize_filename("  \u{1}tab\tname  "), "_tab_name");
    assert_eq!(storage.sanitize_filename("   "), "Untitled");
    let long: String = std::iter::repeat('x').take(150).collect();
    assert_eq!(storage.sanitize_filename(&long).chars().count(), 100);
    assert_eq!(storage.generate_unique_file_path("Fresh", &vec![]).unwrap(), "/n/Fresh.md");
    let taken = vec!["A.md".to_string(), "A(1).md".to_string(), "A(2).md".to_string()];
    assert_eq!(storage.generate_unique_file_path("A", &taken).unwrap(), "/n/A(3).md");
}

#[test]
fn storage_unique_path_exhausted() {
    let storage = FileStorageManager::new("/n".to_string());
    let mut taken = vec!["Full.md".to_string()];
    for i in 1..=1000 {
        taken.push(format!("Full({}).md", i));
    }
    assert!(storage.generate_unique_file_path("Full", &taken).is_err());
    taken.pop();
    assert_eq!(storage.generate_unique_file_path("Full", &taken).unwrap(), "/n/Full(1000).md");
}
