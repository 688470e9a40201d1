//! The holder of the current hotkey definition and of the place it is kept.
//!
//! Reading and writing the file is the caller's business: it reads before it
//! makes a manager and hands over what it found, and it writes the definition
//! back after each replacement.

use std::path::PathBuf;
use vstd::prelude::*;
use crate::config::{default_config, ConfigView, ShortcutConfig};

verus! {

/// `std::path::PathBuf`, carried through as an opaque value.
#[verifier::external_type_specification]
#[verifier::external_body]
pub struct ExPathBuf(PathBuf);

/// The path that the standard library makes of a directory and a name
/// adjoined to it. Adjoining goes by the text of the two alone: it looks at
/// no file system and at nothing else of the machine.
pub uninterp spec fn joined(directory: PathBuf, name: Seq<char>) -> PathBuf;

/// Adjoins a name to a directory with `Path::join`.
///
/// Trusted: the result is taken to be `joined` of the two arguments, which
/// only gives a name to what the standard library returns.
#[verifier::external_body]
fn join_path(directory: &PathBuf, name: &str) -> (path: PathBuf)
    ensures
        path == joined(*directory, name@),
{
    directory.join(name)
}

/// The file that stores the definition, inside the given directory: the
/// directory with the name `shortcut.json` adjoined.
pub open spec fn config_file_in(config_dir: PathBuf) -> PathBuf {
    joined(config_dir, "shortcut.json"@)
}

/// The current hotkey definition and the path of the file that stores it.
pub struct ShortcutManager {
    config: ShortcutConfig,
    config_path: PathBuf,
}

impl ShortcutManager {
    /// The definition held.
    pub closed spec fn config(&self) -> ConfigView {
        self.config@
    }

    /// The path of the file that stores the definition.
    pub closed spec fn path(&self) -> PathBuf {
        self.config_path
    }

    /// The file that stores the definition, inside the given directory.
    pub fn config_file(config_dir: &PathBuf) -> (path: PathBuf)
        ensures
            path == config_file_in(*config_dir),
    {
        join_path(config_dir, "shortcut.json")
    }

    /// A manager for the given file.
    ///
    /// `loaded` is what the file held: `None` when it was missing, could not
    /// be read or made no sense, and then the built-in definition is used.
    pub fn new(config_path: PathBuf, loaded: Option<ShortcutConfig>) -> (manager: Self)
        ensures
            manager.path() == config_path,
            manager.config() == match loaded {
                Some(config) => config@,
                None => default_config(),
            },
    {
        let config = match loaded {
            Some(config) => config,
            None => ShortcutConfig::default(),
        };
        ShortcutManager { config, config_path }
    }

    /// A copy of the definition held.
    pub fn get_config(&self) -> (config: ShortcutConfig)
        ensures
            config@ == self.config(),
    {
        self.config.clone()
    }

    /// Replaces the definition held, wholesale. The caller then writes it to
    /// the file at `config_path`.
    pub fn set_config(&mut self, config: ShortcutConfig)
        ensures
            final(self).config() == config@,
            final(self).path() == old(self).path(),
        no_unwind
    {
        self.config = config;
    }

    /// The path of the file that stores the definition.
    pub fn config_path(&self) -> (path: &PathBuf)
        ensures
            *path == self.path(),
    {
        &self.config_path
    }
}

} // verus!
