//! The stored preference and the decisions around its file.
//!
//! The file holds one key, `update_interval`, in TOML. Reading and writing it
//! is the caller's part: `Config::load` takes what the caller found on disk
//! and says which configuration is in force and what, if anything, is to be
//! written; `Config::save` gives the text to write.

use vstd::prelude::*;
use crate::document::{integer_document, lookup_integer, toml_integer_document, toml_integer_lookup};

verus! {

/// The update interval of a fresh configuration, in milliseconds.
pub const DEFAULT_UPDATE_INTERVAL: u64 = 1000;

/// The qualifier under which the platform files the application.
pub const QUALIFIER: &'static str = "io.github";

/// The organization under which the platform files the application.
pub const ORGANIZATION: &'static str = "DitherWither";

/// The name under which the platform files the application.
pub const APPLICATION: &'static str = "icy-sysmonitor";

/// The name of the configuration file in the application's configuration
/// directory.
pub const FILE_NAME: &'static str = "config.toml";

/// The key under which the configuration file holds the update interval.
pub const INTERVAL_KEY: &'static str = "update_interval";

/// The application's configuration.
#[derive(Debug, Clone, Copy, PartialEq, Eq, Structural)]
pub struct Config {
    /// The time between two refreshes of the metrics, in milliseconds.
    pub update_interval: u64,
}

/// Why a configuration has no text.
#[derive(Debug, Clone, Copy, PartialEq, Eq, Structural)]
pub enum SaveError {
    /// The interval is larger than any integer a TOML document can hold.
    IntervalOutOfRange,
    /// The encoder refused the document.
    Unserializable,
}

/// What the caller found at the configuration file's path.
#[derive(Debug, Clone, PartialEq, Eq)]
pub enum ConfigFile {
    /// No file is there.
    Missing,
    /// A file is there and could not be read.
    Unreadable,
    /// A file is there, with this text.
    Contents(String),
}

/// Why a load fell back to the default configuration, or left no file behind.
#[derive(Debug, Clone, Copy, PartialEq, Eq, Structural)]
pub enum LoadWarning {
    /// The file could not be read.
    Unreadable,
    /// The file's text holds no usable update interval.
    Unparseable,
    /// No file was there, and the default configuration has no text.
    Unserializable,
}

/// The outcome of a load.
#[derive(Debug, Clone, PartialEq, Eq)]
pub struct Loaded {
    /// The configuration now in force.
    pub config: Config,
    /// The text with which the caller creates the file, if it is to create it.
    pub create: Option<String>,
    /// What the caller should report, if anything.
    pub warning: Option<LoadWarning>,
}

/// A `ConfigFile` with its text as a sequence of characters.
pub enum ConfigFileView {
    Missing,
    Unreadable,
    Contents(Seq<char>),
}

/// A `Loaded` with its text as a sequence of characters.
pub struct LoadedView {
    pub config: Config,
    pub create: Option<Seq<char>>,
    pub warning: Option<LoadWarning>,
}

impl View for ConfigFile {
    type V = ConfigFileView;

    open spec fn view(&self) -> ConfigFileView {
        match self {
            ConfigFile::Missing => ConfigFileView::Missing,
            ConfigFile::Unreadable => ConfigFileView::Unreadable,
            ConfigFile::Contents(text) => ConfigFileView::Contents(text@),
        }
    }
}

impl View for Loaded {
    type V = LoadedView;

    open spec fn view(&self) -> LoadedView {
        LoadedView {
            config: self.config,
            create: match self.create {
                Some(text) => Some(text@),
                None => None,
            },
            warning: self.warning,
        }
    }
}

/// The default configuration.
pub open spec fn default_config() -> Config {
    Config { update_interval: DEFAULT_UPDATE_INTERVAL }
}

/// The configuration that an entry of the file stands for: a non-negative
/// integer is the interval, anything else is no configuration.
pub open spec fn config_of_entry(entry: Option<i64>) -> Option<Config> {
    match entry {
        Some(n) => if n >= 0 {
            Some(Config { update_interval: n as u64 })
        } else {
            None
        },
        None => None,
    }
}

/// The configuration that a file's text stands for.
pub open spec fn decoded(text: Seq<char>) -> Option<Config> {
    match toml_integer_lookup(text, INTERVAL_KEY@) {
        Some(entry) => config_of_entry(entry),
        None => None,
    }
}

/// The text of a configuration, or why it has none.
pub open spec fn encoded(config: Config) -> Result<Seq<char>, SaveError> {
    if config.update_interval > i64::MAX {
        Err(SaveError::IntervalOutOfRange)
    } else {
        match toml_integer_document(INTERVAL_KEY@, config.update_interval as i64) {
            Some(text) => Ok(text),
            None => Err(SaveError::Unserializable),
        }
    }
}

/// The outcome of a load where the file holds text that decodes to `found`.
pub open spec fn loaded_from_decoded(found: Option<Config>) -> LoadedView {
    match found {
        Some(config) => LoadedView { config, create: None, warning: None },
        None => LoadedView {
            config: default_config(),
            create: None,
            warning: Some(LoadWarning::Unparseable),
        },
    }
}

/// The outcome of a load where no file is there and the default
/// configuration's text is `text`.
pub open spec fn loaded_from_default_text(text: Result<Seq<char>, SaveError>) -> LoadedView {
    match text {
        Ok(text) => LoadedView { config: default_config(), create: Some(text), warning: None },
        Err(_) => LoadedView {
            config: default_config(),
            create: None,
            warning: Some(LoadWarning::Unserializable),
        },
    }
}

/// The outcome of a load, for each thing the caller may have found.
pub open spec fn loaded(file: ConfigFileView) -> LoadedView {
    match file {
        ConfigFileView::Contents(text) => loaded_from_decoded(decoded(text)),
        ConfigFileView::Unreadable => LoadedView {
            config: default_config(),
            create: None,
            warning: Some(LoadWarning::Unreadable),
        },
        ConfigFileView::Missing => loaded_from_default_text(encoded(default_config())),
    }
}

impl Default for Config {
    /// A configuration with the default values.
    fn default() -> (config: Self)
        ensures
            config == default_config(),
            config.update_interval == 1000,
    {
        Config { update_interval: DEFAULT_UPDATE_INTERVAL }
    }
}

impl Config {
    /// The configuration that an entry of the file stands for.
    pub fn from_entry(entry: Option<i64>) -> (config: Option<Config>)
        ensures
            config == config_of_entry(entry),
    {
        match entry {
            Some(n) => {
                if n >= 0 {
                    Some(Config { update_interval: n as u64 })
                } else {
                    None
                }
            },
            None => None,
        }
    }

    /// Decodes a file's text. `None` where the text is no TOML document or
    /// holds no non-negative integer under `update_interval`.
    pub fn decode(text: &str) -> (config: Option<Config>)
        ensures
            config == decoded(text@),
    {
        match lookup_integer(text, INTERVAL_KEY) {
            Ok(entry) => Config::from_entry(entry),
            Err(_) => None,
        }
    }

    /// Decides a load from what the caller found at the file's path.
    ///
    /// Text that decodes is the configuration. Anything else gives the
    /// default configuration: with a warning and nothing to write where a
    /// file is there, so that a damaged file stays as it is; with the text
    /// of the new file where none is there.
    pub fn load(file: ConfigFile) -> (outcome: Loaded)
        ensures
            outcome@ == loaded(file@),
            file is Contents && decoded(file->Contents_0@) is Some ==> outcome.config == decoded(
                file->Contents_0@,
            )->Some_0,
            !(file is Contents && decoded(file->Contents_0@) is Some) ==> outcome.config.update_interval
                == 1000,
            !(file is Missing) ==> outcome.create is None,
    {
        match file {
            ConfigFile::Contents(text) => Loaded::from_decoded(Config::decode(text.as_str())),
            ConfigFile::Unreadable => Loaded {
                config: Config::default(),
                create: None,
                warning: Some(LoadWarning::Unreadable),
            },
            ConfigFile::Missing => Loaded::from_default_text(Config::default().save()),
        }
    }

    /// The text to write to the configuration file.
    ///
    /// A TOML document can hold no integer above `i64::MAX`: a larger
    /// interval has no text.
    pub fn save(&self) -> (text: Result<String, SaveError>)
        ensures
            match text {
                Ok(text) => encoded(*self) == Ok::<Seq<char>, SaveError>(text@),
                Err(error) => encoded(*self) == Err::<Seq<char>, SaveError>(error),
            },
            self.update_interval > i64::MAX ==> text == Err::<String, SaveError>(
                SaveError::IntervalOutOfRange,
            ),
    {
        if self.update_interval > 0x7fff_ffff_ffff_ffff {
            return Err(SaveError::IntervalOutOfRange);
        }
        match integer_document(INTERVAL_KEY, self.update_interval as i64) {
            Ok(text) => Ok(text),
            Err(_) => Err(SaveError::Unserializable),
        }
    }
}

impl Loaded {
    /// The outcome of a load where the file holds text that decodes to
    /// `found`.
    pub fn from_decoded(found: Option<Config>) -> (outcome: Loaded)
        ensures
            outcome@ == loaded_from_decoded(found),
    {
        match found {
            Some(config) => Loaded { config, create: None, warning: None },
            None => Loaded {
                config: Config::default(),
                create: None,
                warning: Some(LoadWarning::Unparseable),
            },
        }
    }

    /// The outcome of a load where no file is there and the default
    /// configuration's text is `text`.
    pub fn from_default_text(text: Result<String, SaveError>) -> (outcome: Loaded)
        ensures
            outcome@ == loaded_from_default_text(
                match text {
                    Ok(text) => Ok(text@),
                    Err(error) => Err(error),
                },
            ),
    {
        match text {
            Ok(text) => Loaded { config: Config::default(), create: Some(text), warning: None },
            Err(_) => Loaded {
                config: Config::default(),
                create: None,
                warning: Some(LoadWarning::Unserializable),
            },
        }
    }
}

} // verus!
