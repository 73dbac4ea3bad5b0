//! The context that the program runs in: the configuration it was started
//! with, the one place for whatever else the whole process shares.

use vstd::prelude::*;

use crate::config::{Config, ConfigView, ReadOutcome, ReadOutcomeView};
use crate::error::{Error, ErrorView};

verus! {

/// The dynamic context that the program needs to run. It owns exactly one
/// [`Config`], so there is no context without a configuration.
pub struct Context {
    /// The configuration which was used to create this context.
    config: Config,
}

/// The mathematical value of a [`Context`].
pub struct ContextView {
    pub config: ConfigView,
}

impl View for Context {
    type V = ContextView;

    closed spec fn view(&self) -> ContextView {
        ContextView { config: self.config@ }
    }
}

impl ContextView {
    /// What building a context from the file at `path` yields, given what
    /// reading the file produced: a context around the loaded
    /// configuration, or the error that loading gave.
    pub open spec fn build(path: Seq<char>, read: ReadOutcomeView) -> Result<
        ContextView,
        ErrorView,
    > {
        match ConfigView::load(path, read) {
            Ok(config) => Ok(ContextView { config }),
            Err(error) => Err(error),
        }
    }
}

/// The value of the result of building a context.
pub open spec fn built_view(built: Result<Context, Error>) -> Result<ContextView, ErrorView> {
    match built {
        Ok(context) => Ok(context@),
        Err(error) => Err(error@),
    }
}

impl Context {
    /// Creates a context from the configuration file at `file_name`, given
    /// what reading that file produced. It fails exactly when loading the
    /// configuration fails, and with the same error.
    pub fn from_file(file_name: &'static str, read: ReadOutcome) -> (built: Result<Context, Error>)
        ensures
            built_view(built) == ContextView::build(file_name@, read@),
    {
        match Config::from_file(file_name, read) {
            Ok(config) => Context::new(config),
            Err(error) => Err(error),
        }
    }

    /// Creates a context from a configuration. This always succeeds; the
    /// result type leaves room for resources whose acquisition can fail.
    pub fn new(config: Config) -> (built: Result<Context, Error>)
        ensures
            built_view(built) == Ok::<ContextView, ErrorView>(ContextView { config: config@ }),
    {
        let context = Context { config };
        Ok(context)
    }

    /// Creates a context around the default configuration. This always
    /// succeeds.
    pub fn default() -> (built: Result<Context, Error>)
        ensures
            built_view(built) == Ok::<ContextView, ErrorView>(
                ContextView { config: ConfigView::default_value() },
            ),
    {
        let config = Config::default();
        Context::new(config)
    }

    /// The configuration which was used to create this context.
    pub fn config(&self) -> (config: &Config)
        ensures
            config@ == self@.config,
    {
        &self.config
    }
}

/// Creates the context for a run of the program from the configuration file
/// at `config_file`, given what reading that file produced. The caller
/// installs the process-wide logger, once, before it reads the file; from
/// there on this is the one way in which a run obtains its context.
pub fn setup(config_file: &'static str, read: ReadOutcome) -> (built: Result<Context, Error>)
    ensures
        built_view(built) == ContextView::build(config_file@, read@),
{
    Context::from_file(config_file, read)
}

} // verus!
