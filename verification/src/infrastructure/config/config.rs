//! The configuration and the decisions that bring its file about.

use vstd::prelude::*;
use super::emby::EmbyConfig;

verus! {

/// The directory of the configuration file.
pub const CONFIG_DIR: &'static str = "config";

/// The configuration file.
pub const CONFIG_FILE: &'static str = "config/config.toml";

/// The template a missing configuration file is copied from.
pub const TEMPLATE_FILE: &'static str = "src/infrastructure/config/config.template";

/// The application's configuration.
#[derive(Debug, Clone, PartialEq, Eq)]
pub struct Config {
    pub emby: EmbyConfig,
}

/// Where the configuration file comes from.
#[derive(Debug, Clone, Copy, PartialEq, Eq, Structural)]
pub enum ConfigSource {
    /// The file is there.
    Existing,
    /// The file is missing and is copied from the template.
    Template,
    /// The file and the template are both missing: there is nothing to load.
    Missing,
}

/// What to do before the configuration file is read.
#[derive(Debug, Clone, Copy, PartialEq, Eq, Structural)]
pub struct ConfigSetup {
    /// Whether the directory of the file is created first.
    pub create_directory: bool,
    pub source: ConfigSource,
}

impl Config {
    /// Decides how the configuration file is brought about, given what is on
    /// disk: a missing directory is created, and a missing file is copied
    /// from the template if there is one.
    pub fn init(directory_exists: bool, file_exists: bool, template_exists: bool) -> (setup:
        ConfigSetup)
        ensures
            setup.create_directory == !directory_exists,
            setup.source == if file_exists {
                ConfigSource::Existing
            } else if template_exists {
                ConfigSource::Template
            } else {
                ConfigSource::Missing
            },
    {
        let source = if file_exists {
            ConfigSource::Existing
        } else if template_exists {
            ConfigSource::Template
        } else {
            ConfigSource::Missing
        };
        ConfigSetup { create_directory: !directory_exists, source }
    }
}

} // verus!
