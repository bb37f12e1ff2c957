//! The settings of the tracker, and where its files lie.
//!
//! Reading the settings file and asking the system for the home directory is
//! the caller's part; what is decided from them is decided here.

use crate::error::Error;
use vstd::prelude::*;

verus! {

/// Defaults for operations that were given no value of their own.
#[derive(Debug)]
pub struct DefaultsConfig {
    /// For how many days a task is frozen when no thaw date is given.
    pub thaw_days: u32,
}

/// Where the tasks are kept.
#[derive(Debug)]
pub struct StorageConfig {
    /// The file that holds the tasks, in place of the one under the home
    /// directory. A leading `~` stands for the home directory.
    pub data_file: Option<String>,
}

/// The settings.
#[derive(Debug)]
pub struct Config {
    pub defaults: DefaultsConfig,
    pub storage: StorageConfig,
}

/// The number of days for which a task is frozen when nothing else is said.
pub fn default_thaw_days() -> (days: u32)
    ensures
        days == 7,
{
    7
}

/// The text behind a reference that may be absent.
pub open spec fn text_of(text: Option<&str>) -> Option<Seq<char>> {
    match text {
        Some(t) => Some(t@),
        None => None,
    }
}

/// Whether a path starts with a `~` that stands alone or before a `/`.
pub open spec fn has_tilde(path: Seq<char>) -> bool {
    path.len() > 0 && path[0] == '~' && (path.len() == 1 || path[1] == '/')
}

/// Whether a path starts with `~\`. Whether that `~` is replaced depends on
/// the system the program was built for.
pub open spec fn has_tilde_backslash(path: Seq<char>) -> bool {
    path.len() > 1 && path[0] == '~' && path[1] == '\\'
}

/// A path with its leading `~` replaced by the home directory, where it has
/// one and the home directory is known; the path itself otherwise.
pub open spec fn tilde_expansion(path: Seq<char>, home: Option<Seq<char>>) -> Seq<char> {
    if has_tilde(path) && home is Some {
        home->0 + path.subrange(1, path.len() as int)
    } else {
        path
    }
}

/// Calls shellexpand's `tilde_with_context` with a context that hands out
/// `home`. Trusted: a leading `~` that stands alone or before a `/` is
/// replaced by the home directory if one is given, and any other path comes
/// back as it is. Of a path that starts with `~\` nothing is claimed:
/// shellexpand replaces that `~` on Windows only.
#[verifier::external_body]
fn expand_tilde(path: &str, home: Option<&str>) -> (r: String)
    ensures
        !has_tilde_backslash(path@) ==> r@ == tilde_expansion(path@, text_of(home)),
{
    shellexpand::tilde_with_context(path, || home).into_owned()
}

/// Calls std's `Path::join` on `base` and hands the result back as text.
/// Nothing is claimed of it: how two parts are joined depends on the system.
#[verifier::external_body]
fn join(base: &str, name: &str) -> (r: String) {
    std::path::Path::new(base).join(name).to_string_lossy().into_owned()
}

impl Config {
    /// The defaults that hold when the settings name none.
    pub fn default_defaults() -> (defaults: DefaultsConfig)
        ensures
            defaults.thaw_days == 7,
    {
        DefaultsConfig { thaw_days: default_thaw_days() }
    }

    /// The storage settings that hold when the settings name none.
    pub fn default_storage() -> (storage: StorageConfig)
        ensures
            storage.data_file is None,
    {
        StorageConfig { data_file: None }
    }

    /// The directory of the tracker's own files, `.config/kelvin` under the
    /// home directory. Fails where the home directory is not known.
    pub fn kelvin_dir(home: Option<&str>) -> (r: Result<String, Error>)
        ensures
            home is Some ==> r is Ok,
            home is None ==> r == Err::<String, Error>(Error::NoHomeDirectory),
    {
        match home {
            Some(home) => {
                let config_dir: String = join(home, ".config");
                Ok(join(config_dir.as_str(), "kelvin"))
            },
            None => Err(Error::NoHomeDirectory),
        }
    }

    /// The settings file, `config.toml` in the tracker's directory.
    pub fn config_path(home: Option<&str>) -> (r: Result<String, Error>)
        ensures
            home is Some ==> r is Ok,
            home is None ==> r == Err::<String, Error>(Error::NoHomeDirectory),
    {
        match Config::kelvin_dir(home) {
            Ok(dir) => Ok(join(dir.as_str(), "config.toml")),
            Err(e) => Err(e),
        }
    }

    /// The file that holds the tasks: the configured one, with a leading `~`
    /// replaced by the home directory, or else `tasks.json` in the
    /// tracker's directory.
    pub fn data_file_path(&self, home: Option<&str>) -> (r: Result<String, Error>)
        ensures
            self.storage.data_file is Some || home is Some ==> r is Ok,
            self.storage.data_file is None && home is None ==> r == Err::<String, Error>(
                Error::NoHomeDirectory,
            ),
            self.storage.data_file matches Some(file) ==> (!has_tilde_backslash(file@) ==> r is Ok
                && r->Ok_0@ == tilde_expansion(file@, text_of(home))),
    {
        match &self.storage.data_file {
            Some(custom_path) => Ok(expand_tilde(custom_path.as_str(), home)),
            None => match Config::kelvin_dir(home) {
                Ok(dir) => Ok(join(dir.as_str(), "tasks.json")),
                Err(e) => Err(e),
            },
        }
    }
}

impl Default for Config {
    fn default() -> (config: Config)
        ensures
            config.defaults.thaw_days == 7,
            config.storage.data_file is None,
    {
        Config { defaults: Config::default_defaults(), storage: Config::default_storage() }
    }
}

} // verus!
