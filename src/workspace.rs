//! Settings of the single-window editor: layout and an optional data
//! directory, chosen on first run.
use vstd::prelude::*;
use vstd::string::*;
use crate::text::{join_path, path_join};

verus! {

/// The editor's settings.
#[derive(Debug, Clone)]
pub struct AppConfig {
    pub data_directory: Option<String>,
    pub window_width: u32,
    pub window_height: u32,
    pub sidebar_width: u32,
    pub note_list_width: u32,
    pub auto_save_interval: u32,
    pub theme: String,
}

impl Default for AppConfig {
    fn default() -> (r: AppConfig)
        ensures
            r.data_directory is None,
            r.window_width == 1200,
            r.window_height == 800,
            r.sidebar_width == 200,
            r.note_list_width == 300,
            r.auto_save_interval == 5000,
            r.theme@ == "light"@,
    {
        AppConfig {
            data_directory: None,
            window_width: 1200,
            window_height: 800,
            sidebar_width: 200,
            note_list_width: 300,
            auto_save_interval: 5000,
            theme: String::from_str("light"),
        }
    }
}

impl AppConfig {
    /// Whether no data directory has been chosen yet.
    pub fn is_first_run(&self) -> (r: bool)
        ensures
            r == self.data_directory is None,
    {
        self.data_directory.is_none()
    }

    /// Chooses the data directory; the caller creates it and its
    /// `attachments` subdirectory and saves the settings.
    pub fn set_data_directory(&mut self, path: String)
        ensures
            final(self).data_directory == Some(path),
            final(self).window_width == old(self).window_width,
            final(self).window_height == old(self).window_height,
            final(self).theme == old(self).theme,
    {
        self.data_directory = Some(path);
    }

    /// The data directory, if chosen.
    pub fn get_data_directory(&self) -> (r: Option<&String>)
        ensures
            r matches Some(d) ==> self.data_directory == Some(*d),
            r is None <==> self.data_directory is None,
    {
        self.data_directory.as_ref()
    }

    /// The attachments directory inside the data directory, if chosen.
    pub fn get_attachments_directory(&self) -> (r: Option<String>)
        ensures
            r is None <==> self.data_directory is None,
            r matches Some(p) ==> (self.data_directory matches Some(d) && p@ == path_join(d@, "attachments"@)),
    {
        match &self.data_directory {
            Some(d) => Some(join_path(d.as_str(), "attachments")),
            None => None,
        }
    }

    /// The database path inside the data directory, if chosen.
    pub fn get_database_path(&self) -> (r: Option<String>)
        ensures
            r is None <==> self.data_directory is None,
            r matches Some(p) ==> (self.data_directory matches Some(d) && p@ == path_join(d@, "mdnote.db"@)),
    {
        match &self.data_directory {
            Some(d) => Some(join_path(d.as_str(), "mdnote.db")),
            None => None,
        }
    }
}

} // verus!
