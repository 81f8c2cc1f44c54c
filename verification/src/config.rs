//! Settings with their defaults, and what becomes of a configuration file
//! once it has been read.

use vstd::prelude::*;
use vstd::string::*;

verus! {

/// The host a server binds to unless told otherwise.
pub const DEFAULT_HOST: &'static str = "127.0.0.1";

/// The port a server binds to unless told otherwise.
pub const DEFAULT_PORT: u16 = 7878;

/// How many artifacts the history keeps unless told otherwise.
pub const DEFAULT_HISTORY_LIMIT: usize = 200;

/// The comment lines that open a configuration file written with defaults.
pub const CONFIG_HEADER: &'static str =
    "# RileyViewer configuration\n# See https://github.com/rileyleff/rileyviewer for documentation\n\n";

/// The `server` section of the configuration.
#[derive(Debug, PartialEq, Eq)]
pub struct ServerConfig {
    /// Host to bind the server to.
    pub host: String,
    /// Port to bind the server to.
    pub port: u16,
    /// Maximum number of artifacts to keep in the history.
    pub history_limit: usize,
    /// Whether to open a browser when the server starts.
    pub open_browser: bool,
}

/// The configuration. Every field that a file leaves out has its default.
#[derive(Debug, PartialEq, Eq)]
pub struct Config {
    pub server: ServerConfig,
}

/// The settings as mathematics.
pub struct SettingsView {
    pub host: Seq<char>,
    pub port: u16,
    pub history_limit: usize,
    pub open_browser: bool,
}

/// The settings of a server that nothing configures.
pub open spec fn default_settings() -> SettingsView {
    SettingsView {
        host: DEFAULT_HOST@,
        port: DEFAULT_PORT,
        history_limit: DEFAULT_HISTORY_LIMIT,
        open_browser: true,
    }
}

impl View for ServerConfig {
    type V = SettingsView;

    open spec fn view(&self) -> SettingsView {
        SettingsView {
            host: self.host@,
            port: self.port,
            history_limit: self.history_limit,
            open_browser: self.open_browser,
        }
    }
}

impl View for Config {
    type V = SettingsView;

    open spec fn view(&self) -> SettingsView {
        self.server@
    }
}

impl Clone for ServerConfig {
    fn clone(&self) -> (copy: Self)
        ensures
            copy == *self,
    {
        ServerConfig {
            host: self.host.clone(),
            port: self.port,
            history_limit: self.history_limit,
            open_browser: self.open_browser,
        }
    }
}

impl Clone for Config {
    fn clone(&self) -> (copy: Self)
        ensures
            copy == *self,
    {
        Config { server: self.server.clone() }
    }
}

impl Default for ServerConfig {
    fn default() -> (settings: Self)
        ensures
            settings@ == default_settings(),
    {
        ServerConfig {
            host: String::from_str(DEFAULT_HOST),
            port: DEFAULT_PORT,
            history_limit: DEFAULT_HISTORY_LIMIT,
            open_browser: true,
        }
    }
}

impl Default for Config {
    fn default() -> (config: Self)
        ensures
            config@ == default_settings(),
    {
        Config { server: ServerConfig::default() }
    }
}

/// What was found where the configuration file is kept.
#[derive(Debug)]
pub enum ConfigFile {
    /// There is no file.
    Missing,
    /// The file could not be read.
    Unreadable,
    /// The file does not hold a valid configuration.
    Malformed,
    /// The file holds this configuration.
    Parsed(Config),
}

impl Config {
    /// The configuration that a file holds; `None` unless the file was
    /// there, readable and valid.
    pub fn load_from(file: ConfigFile) -> (config: Option<Config>)
        ensures
            match file {
                ConfigFile::Parsed(held) => config == Some(held),
                _ => config is None,
            },
    {
        match file {
            ConfigFile::Parsed(held) => Some(held),
            _ => None,
        }
    }

    /// The configuration to run with: what the file holds, or the defaults
    /// where it is missing, unreadable or malformed.
    pub fn load(file: ConfigFile) -> (config: Config)
        ensures
            match file {
                ConfigFile::Parsed(held) => config == held,
                _ => config@ == default_settings(),
            },
    {
        match Config::load_from(file) {
            Some(held) => held,
            None => Config::default(),
        }
    }

    /// The text of a configuration file written with defaults: the header
    /// comment, then `body`, the serialised default configuration.
    pub fn write_default(body: &str) -> (contents: String)
        ensures
            contents@ == CONFIG_HEADER@ + body@,
    {
        let mut contents = String::from_str(CONFIG_HEADER);
        contents.append(body);
        contents
    }
}

} // verus!
