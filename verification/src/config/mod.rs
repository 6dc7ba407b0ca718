//! The configuration document: who the user is, whom they know, and the
//! targets they have named. Reading and writing the file is the caller's
//! part; this module holds the document and the changes made to it.

pub mod path;

use path::{default_config_path, get_config_path, path_bytes, path_from_text, path_of};
use std::path::PathBuf;
use vstd::prelude::*;
use vstd::string::StringExecFns;

verus! {

/// A user, known by the fingerprint of their key.
#[derive(Debug)]
pub struct UserConfig {
    pub fingerprint: String,
    pub name: String,
}

/// A [`UserConfig`] with its texts as sequences of characters.
pub struct UserConfigView {
    pub fingerprint: Seq<char>,
    pub name: Seq<char>,
}

impl View for UserConfig {
    type V = UserConfigView;

    open spec fn view(&self) -> UserConfigView {
        UserConfigView { fingerprint: self.fingerprint@, name: self.name@ }
    }
}

impl Clone for UserConfig {
    fn clone(&self) -> (copy: UserConfig)
        ensures
            copy@ == self@,
    {
        UserConfig { fingerprint: self.fingerprint.clone(), name: self.name.clone() }
    }
}

/// A named target.
#[derive(Debug)]
pub struct TargetConfig {
    pub id: String,
    pub host: String,
}

/// A [`TargetConfig`] with its texts as sequences of characters.
pub struct TargetConfigView {
    pub id: Seq<char>,
    pub host: Seq<char>,
}

impl View for TargetConfig {
    type V = TargetConfigView;

    open spec fn view(&self) -> TargetConfigView {
        TargetConfigView { id: self.id@, host: self.host@ }
    }
}

impl Clone for TargetConfig {
    fn clone(&self) -> (copy: TargetConfig)
        ensures
            copy@ == self@,
    {
        TargetConfig { id: self.id.clone(), host: self.host.clone() }
    }
}

/// The whole document.
#[derive(Debug)]
pub struct CulperConfig {
    pub targets: Option<Vec<TargetConfig>>,
    pub owners: Option<Vec<UserConfig>>,
    pub admins: Option<Vec<UserConfig>>,
    pub me: UserConfig,
}

/// A [`CulperConfig`] with its lists as sequences of views.
pub struct CulperConfigView {
    pub targets: Option<Seq<TargetConfigView>>,
    pub owners: Option<Seq<UserConfigView>>,
    pub admins: Option<Seq<UserConfigView>>,
    pub me: UserConfigView,
}

/// The views of a list of targets, in order.
pub open spec fn targets_view(targets: Option<Vec<TargetConfig>>) -> Option<Seq<TargetConfigView>> {
    match targets {
        Some(list) => Some(list@.map_values(|t: TargetConfig| t@)),
        None => None,
    }
}

/// The views of a list of users, in order.
pub open spec fn users_view(users: Option<Vec<UserConfig>>) -> Option<Seq<UserConfigView>> {
    match users {
        Some(list) => Some(list@.map_values(|u: UserConfig| u@)),
        None => None,
    }
}

impl View for CulperConfig {
    type V = CulperConfigView;

    open spec fn view(&self) -> CulperConfigView {
        CulperConfigView {
            targets: targets_view(self.targets),
            owners: users_view(self.owners),
            admins: users_view(self.admins),
            me: self.me@,
        }
    }
}

impl Clone for CulperConfig {
    fn clone(&self) -> (copy: CulperConfig)
        ensures
            copy@ == self@,
    {
        let copy = CulperConfig {
            targets: self.targets.clone(),
            owners: self.owners.clone(),
            admins: self.admins.clone(),
            me: self.me.clone(),
        };
        proof {
            assert(copy@.targets =~= self@.targets);
            assert(copy@.owners =~= self@.owners);
            assert(copy@.admins =~= self@.admins);
        }
        copy
    }
}

impl CulperConfigView {
    /// This document with one more target, behind those it has.
    pub open spec fn with_target(self, target: TargetConfigView) -> CulperConfigView {
        let listed = match self.targets {
            Some(targets) => targets,
            None => Seq::empty(),
        };
        CulperConfigView { targets: Some(listed.push(target)), ..self }
    }
}

/// Why the configuration could not be read, changed or written.
#[derive(Debug, PartialEq, Eq)]
pub enum ConfigError {
    /// The reader holds no document to change.
    NotSet,
    /// The reader holds no document to write.
    NothingToWrite,
    /// No file lies at the path, which is given as text.
    NotFound(String),
}

/// A [`ConfigError`] with its text as a sequence of characters.
pub enum ConfigErrorView {
    NotSet,
    NothingToWrite,
    NotFound(Seq<char>),
}

impl View for ConfigError {
    type V = ConfigErrorView;

    open spec fn view(&self) -> ConfigErrorView {
        match self {
            ConfigError::NotSet => ConfigErrorView::NotSet,
            ConfigError::NothingToWrite => ConfigErrorView::NothingToWrite,
            ConfigError::NotFound(path) => ConfigErrorView::NotFound(path@),
        }
    }
}

/// The sentence that reports an error to a person.
pub open spec fn config_error_message(error: ConfigErrorView) -> Seq<char> {
    match error {
        ConfigErrorView::NotSet => "Config is not set."@,
        ConfigErrorView::NothingToWrite => "No config available to write."@,
        ConfigErrorView::NotFound(path) => path
            + " not found. Create one or pass the --config_file option."@,
    }
}

impl ConfigError {
    /// The sentence that reports this error to a person.
    pub fn message(&self) -> (text: String)
        ensures
            text@ == config_error_message(self@),
    {
        match self {
            ConfigError::NotSet => "Config is not set.".to_owned(),
            ConfigError::NothingToWrite => "No config available to write.".to_owned(),
            ConfigError::NotFound(path) => {
                let mut text = path.clone();
                text.append(" not found. Create one or pass the --config_file option.");
                text
            },
        }
    }
}

/// The document a new user starts with: themselves, and nobody and nothing
/// else.
pub fn initial_config(name: String, fingerprint: String) -> (config: CulperConfig)
    ensures
        config@ == (CulperConfigView {
            targets: None,
            owners: None,
            admins: None,
            me: UserConfigView { fingerprint: fingerprint@, name: name@ },
        }),
{
    CulperConfig { me: UserConfig { name, fingerprint }, targets: None, owners: None, admins: None }
}

/// A configuration file's place, and its document once there is one.
#[derive(Debug)]
pub struct ConfigReader {
    pub path: PathBuf,
    pub config: Option<CulperConfig>,
}

impl Clone for ConfigReader {
    fn clone(&self) -> (copy: ConfigReader)
        ensures
            path_bytes(copy.path) == path_bytes(self.path),
            copy.document() == self.document(),
    {
        ConfigReader { path: self.path.clone(), config: self.config.clone() }
    }
}

impl ConfigReader {
    /// The document held, as a view.
    pub open spec fn document(&self) -> Option<CulperConfigView> {
        match self.config {
            Some(config) => Some(config@),
            None => None,
        }
    }

    /// A reader without a document, for the file at `raw_config_path`, or at
    /// the default place where none is given.
    pub fn new(raw_config_path: Option<&str>) -> (reader: ConfigReader)
        ensures
            reader.config is None,
            match raw_config_path {
                Some(text) => path_bytes(reader.path) == path_of(text@),
                None => exists|home: Option<Seq<u8>>|
                    path_bytes(reader.path) == #[trigger] default_config_path(home),
            },
    {
        let config_path = match raw_config_path {
            Some(val) => path_from_text(val),
            None => get_config_path(),
        };
        ConfigReader { path: config_path, config: None }
    }

    /// Adds a target behind those the document has. Without a document
    /// nothing changes and the call fails.
    pub fn add_target(&mut self, host: &str, id: &str) -> (added: Result<(), ConfigError>)
        ensures
            final(self).path == old(self).path,
            match old(self).document() {
                Some(document) => added is Ok && final(self).document() == Some(
                    document.with_target(TargetConfigView { id: id@, host: host@ }),
                ),
                None => added == Err::<(), ConfigError>(ConfigError::NotSet)
                    && final(self).config is None,
            },
    {
        let ghost wanted = TargetConfigView { id: id@, host: host@ };
        let added = match &mut self.config {
            Some(ref mut config) => match config.targets {
                None => {
                    let mut targets = Vec::new();
                    targets.push(TargetConfig { host: host.to_owned(), id: id.to_owned() });
                    config.targets = Some(targets);
                    Ok(())
                },
                Some(ref mut targets) => {
                    targets.push(TargetConfig { host: host.to_owned(), id: id.to_owned() });
                    Ok(())
                },
            },
            None => Err(ConfigError::NotSet),
        };
        proof {
            if let Some(document) = old(self).document() {
                let now = self.config.unwrap()@;
                assert(now.targets.unwrap() =~= document.with_target(wanted).targets.unwrap());
            }
        }
        added
    }

    /// Takes in a document that was read from the file: the reader keeps a
    /// copy, and the document is handed back.
    pub fn keep(&mut self, config: CulperConfig) -> (read: CulperConfig)
        ensures
            final(self).path == old(self).path,
            final(self).document() == Some(config@),
            read == config,
    {
        self.config = Some(config.clone());
        config
    }

    /// The document to write out. Without a document there is nothing to
    /// write.
    pub fn document_to_write(&self) -> (held: Result<&CulperConfig, ConfigError>)
        ensures
            match self.config {
                Some(config) => held == Ok::<&CulperConfig, ConfigError>(&config),
                None => held == Err::<&CulperConfig, ConfigError>(ConfigError::NothingToWrite),
            },
    {
        match &self.config {
            Some(config) => Ok(config),
            None => Err(ConfigError::NothingToWrite),
        }
    }

    /// Puts `new_config` in place of whatever document was held.
    pub fn update(&mut self, new_config: CulperConfig) -> (reader: &mut Self)
        ensures
            reader.config == Some(new_config),
            reader.path == old(self).path,
            *final(self) == *final(reader),
    {
        self.config = Some(new_config);
        self
    }
}

} // verus!
