use vstd::prelude::*;
use vstd::string::*;

use crate::trusted;

verus! {

/// The configuration file's path under an application data directory:
/// the file name joined with a separator unless one is already there.
pub open spec fn joined_config_path(dir: Seq<char>) -> Seq<char> {
    if dir.len() == 0 {
        "config.json"@
    } else if dir.last() == '/' {
        dir + "config.json"@
    } else {
        dir + "/config.json"@
    }
}

/// Knows where the backend configuration file lives. Reading and
/// writing the file are I/O left to the caller; this type fixes the
/// path they use.
pub struct ConfigManager {
    config_path: String,
}

impl ConfigManager {
    pub closed spec fn spec_config_path(self) -> Seq<char> {
        self.config_path@
    }

    /// A manager for the configuration file under `app_dir`.
    pub fn new(app_dir: String) -> (m: ConfigManager)
        ensures
            m.spec_config_path() == joined_config_path(app_dir@),
    {
        let len: usize = app_dir.as_str().unicode_len();
        let config_path = if len == 0 {
            String::from_str("config.json")
        } else if app_dir.as_str().get_char(len - 1) == '/' {
            app_dir.concat("config.json")
        } else {
            app_dir.concat("/config.json")
        };
        ConfigManager { config_path }
    }

    /// The path of the configuration file.
    pub fn config_path(&self) -> (p: &String)
        ensures
            p@ == self.spec_config_path(),
    {
        &self.config_path
    }

    /// Whether the configuration file is on disk right now. The answer
    /// is the file system's; nothing is promised of it.
    pub fn config_exists(&self) -> bool {
        trusted::path_exists(self.config_path.as_str())
    }
}

} // verus!
