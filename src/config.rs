//! Application settings: window layout, logging, the data directory and the
//! remote that notes are synchronised with.
use vstd::prelude::*;
use vstd::string::*;
use crate::text::{join_path, path_join};

verus! {

/// Logging settings.
#[derive(Debug, Clone)]
pub struct LogConfig {
    pub enabled: bool,
    pub level: String,
    pub max_days: u32,
    pub console_output: bool,
}

/// Remote repository and authentication settings for synchronisation.
#[derive(Debug, Clone)]
pub struct GitSyncConfig {
    pub enabled: bool,
    pub repository_url: String,
    pub branch: String,
    pub username: Option<String>,
    pub password: Option<String>,
    pub ssh_key_path: Option<String>,
    /// One of `none`, `basic` or `ssh`; any other value means no authentication.
    pub auth_type: String,
}

/// The settings of the application.
#[derive(Debug, Clone)]
pub struct AppConfig {
    pub data_directory: String,
    pub window_width: u32,
    pub window_height: u32,
    pub sidebar_width: u32,
    pub note_list_width: u32,
    pub auto_save_interval: u32,
    pub log_config: Option<LogConfig>,
    pub theme: String,
    pub git_sync: Option<GitSyncConfig>,
}

/// The data directory used when none is configured: `Documents/xnote` under
/// the home directory, or under the current directory when there is no home.
pub open spec fn default_data_dir_spec(home: Option<Seq<char>>) -> Seq<char> {
    let base = match home {
        Some(h) => h,
        None => seq!['.'],
    };
    path_join(path_join(base, "Documents"@), "xnote"@)
}

/// Relies on `dirs::home_dir`: the user's home directory, if the platform
/// reports one. Nothing is promised of its value.
#[verifier::external_body]
pub(crate) fn home_directory() -> (r: Option<String>) {
    dirs::home_dir().map(|p| p.to_string_lossy().into_owned())
}

/// The data directory used when none is configured, given the home directory.
pub fn default_data_directory(home: Option<String>) -> (r: String)
    ensures
        r@ == default_data_dir_spec(match home {
            Some(h) => Some(h@),
            None => None,
        }),
{
    let base = match home {
        Some(h) => h,
        None => String::from_str("."),
    };
    proof {
        reveal_strlit(".");
    }
    let docs = join_path(base.as_str(), "Documents");
    join_path(docs.as_str(), "xnote")
}

impl Default for AppConfig {
    fn default() -> (r: AppConfig)
        ensures
            r.window_width == 1200,
            r.window_height == 800,
            r.sidebar_width == 240,
            r.note_list_width == 320,
            r.auto_save_interval == 5000,
            r.theme@ == "light"@,
            r.git_sync.is_none(),
            r.log_config matches Some(l) && l.enabled && l.level@ == "info"@ && l.max_days == 7
                && l.console_output,
    {
        AppConfig {
            data_directory: default_data_directory(home_directory()),
            window_width: 1200,
            window_height: 800,
            sidebar_width: 240,
            note_list_width: 320,
            auto_save_interval: 5000,
            log_config: Some(
                LogConfig {
                    enabled: true,
                    level: String::from_str("info"),
                    max_days: 7,
                    console_output: true,
                },
            ),
            theme: String::from_str("light"),
            git_sync: None,
        }
    }
}

/// Holds the settings and the file they are kept in.
pub struct ConfigManager {
    pub config_path: String,
    pub config: AppConfig,
}

impl ConfigManager {
    /// A manager for settings read from, or to be written to, `config_path`.
    pub fn with_config(config_path: String, config: AppConfig) -> (r: ConfigManager)
        ensures
            r.config_path == config_path,
            r.config == config,
    {
        ConfigManager { config_path, config }
    }

    /// The settings.
    pub fn get_config(&self) -> (r: &AppConfig)
        ensures
            *r == self.config,
    {
        &self.config
    }

    /// Replaces the settings; the caller writes them to `config_path`.
    pub fn update_config(&mut self, new_config: AppConfig)
        ensures
            final(self).config == new_config,
            final(self).config_path == old(self).config_path,
    {
        self.config = new_config;
    }

    /// Replaces the settings at the end of first-run setup; the caller writes
    /// them and removes the setup flag file.
    pub fn update_and_save_config(&mut self, new_config: AppConfig)
        ensures
            final(self).config == new_config,
            final(self).config_path == old(self).config_path,
    {
        self.config = new_config;
    }

    /// Points the settings at another data directory, keeping the rest.
    pub fn update_data_directory(&mut self, new_path: String)
        ensures
            final(self).config == (AppConfig { data_directory: new_path, ..old(self).config }),
            final(self).config_path == old(self).config_path,
    {
        self.config.data_directory = new_path;
    }

    /// The data directory.
    pub fn get_data_directory(&self) -> (r: &String)
        ensures
            *r == self.config.data_directory,
    {
        &self.config.data_directory
    }

    /// The directory that holds the notes: the data directory itself.
    pub fn get_notes_directory(&self) -> (r: String)
        ensures
            r == self.config.data_directory,
    {
        self.config.data_directory.clone()
    }

    /// The directory that holds attachments.
    pub fn get_attachments_directory(&self) -> (r: String)
        ensures
            r@ == path_join(self.config.data_directory@, "attachments"@),
    {
        join_path(self.config.data_directory.as_str(), "attachments")
    }

    /// The path of the note database.
    pub fn get_database_path(&self) -> (r: String)
        ensures
            r@ == path_join(self.config.data_directory@, "xnote.db"@),
    {
        join_path(self.config.data_directory.as_str(), "xnote.db")
    }
}

} // verus!
