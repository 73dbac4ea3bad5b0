//! The static configuration of the program, and how it is loaded from what
//! reading its file produced.

use vstd::prelude::*;
use vstd::string::StringExecFns;
use vstd::std_specs::cmp::PartialEqSpecImpl;

use crate::error::{Error, ErrorView};

verus! {

/// The static configuration of the program. It is built once, at start-up,
/// and offers no way to change it afterwards.
#[derive(Debug)]
pub struct Config {
    host_name: String,
}

/// The mathematical value of a [`Config`]: its fields, the strings as
/// sequences of characters.
pub struct ConfigView {
    pub host_name: Seq<char>,
}

impl View for Config {
    type V = ConfigView;

    closed spec fn view(&self) -> ConfigView {
        ConfigView { host_name: self.host_name@ }
    }
}

/// What became of an attempt to read a configuration file.
#[derive(Debug)]
pub enum ReadOutcome {
    /// The file could not be opened for reading.
    NotOpened,
    /// The file was opened, but its contents could not be parsed into a
    /// configuration.
    NotParsed,
    /// The file was opened and its contents parsed into this configuration.
    Parsed(Config),
}

/// The mathematical value of a [`ReadOutcome`].
pub enum ReadOutcomeView {
    NotOpened,
    NotParsed,
    Parsed(ConfigView),
}

impl View for ReadOutcome {
    type V = ReadOutcomeView;

    open spec fn view(&self) -> ReadOutcomeView {
        match *self {
            ReadOutcome::NotOpened => ReadOutcomeView::NotOpened,
            ReadOutcome::NotParsed => ReadOutcomeView::NotParsed,
            ReadOutcome::Parsed(config) => ReadOutcomeView::Parsed(config@),
        }
    }
}

impl ConfigView {
    /// The default configuration: the host is named "samuel".
    pub open spec fn default_value() -> ConfigView {
        ConfigView { host_name: "samuel"@ }
    }

    /// What loading the file at `path` yields, given what reading it
    /// produced: the parsed configuration, or the error that names the
    /// stage that failed together with the path.
    pub open spec fn load(path: Seq<char>, read: ReadOutcomeView) -> Result<
        ConfigView,
        ErrorView,
    > {
        match read {
            ReadOutcomeView::NotOpened => Err(ErrorView::ConfigFileBad(path)),
            ReadOutcomeView::NotParsed => Err(ErrorView::ConfigFileUnreadable(path)),
            ReadOutcomeView::Parsed(config) => Ok(config),
        }
    }
}

/// Loading succeeds exactly when the file was opened and parsed, and then
/// with the parsed configuration. It fails with `ConfigFileBad` exactly when
/// the file could not be opened, and with `ConfigFileUnreadable` exactly
/// when its contents could not be parsed; either error carries `path`.
pub proof fn lemma_load_cases(path: Seq<char>, read: ReadOutcomeView)
    ensures
        read matches ReadOutcomeView::Parsed(config) ==> ConfigView::load(path, read) == Ok::<
            ConfigView,
            ErrorView,
        >(config),
        ConfigView::load(path, read) is Ok <==> read is Parsed,
        ConfigView::load(path, read) == Err::<ConfigView, ErrorView>(
            ErrorView::ConfigFileBad(path),
        ) <==> read is NotOpened,
        ConfigView::load(path, read) == Err::<ConfigView, ErrorView>(
            ErrorView::ConfigFileUnreadable(path),
        ) <==> read is NotParsed,
{
}

/// The value of the result of loading a configuration.
pub open spec fn loaded_view(loaded: Result<Config, Error>) -> Result<ConfigView, ErrorView> {
    match loaded {
        Ok(config) => Ok(config@),
        Err(error) => Err(error@),
    }
}

impl Config {
    /// A configuration with the given host name.
    pub fn new(host_name: String) -> (config: Config)
        ensures
            config@ == (ConfigView { host_name: host_name@ }),
    {
        Config { host_name }
    }

    /// The host name.
    pub fn host_name(&self) -> (host_name: &str)
        ensures
            host_name@ == self@.host_name,
    {
        self.host_name.as_str()
    }

    /// The default configuration for the program, with values sensible
    /// enough to test with. Every call returns the same value.
    pub fn default() -> (config: Config)
        ensures
            config@ == ConfigView::default_value(),
    {
        Config { host_name: String::from_str("samuel") }
    }

    /// Loads the configuration of the file at `file_name` from what reading
    /// that file produced. A file that could not be opened gives
    /// [`Error::ConfigFileBad`], contents that could not be parsed give
    /// [`Error::ConfigFileUnreadable`], each with `file_name`; a parsed
    /// configuration is returned as it is.
    pub fn from_file(file_name: &'static str, read: ReadOutcome) -> (loaded: Result<Config, Error>)
        ensures
            loaded_view(loaded) == ConfigView::load(file_name@, read@),
    {
        match read {
            ReadOutcome::NotOpened => Err(Error::ConfigFileBad(file_name)),
            ReadOutcome::NotParsed => Err(Error::ConfigFileUnreadable(file_name)),
            ReadOutcome::Parsed(config) => Ok(config),
        }
    }
}

impl PartialEq for Config {
    /// Two configurations are equal when all their fields are.
    fn eq(&self, other: &Config) -> (equal: bool) {
        self.host_name == other.host_name
    }
}

impl PartialEqSpecImpl for Config {
    open spec fn obeys_eq_spec() -> bool {
        true
    }

    open spec fn eq_spec(&self, other: &Config) -> bool {
        self@ == other@
    }
}

} // verus!
