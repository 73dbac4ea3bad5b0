//! The top of the program: from what reading the configuration file
//! produced to the status that the process ends with.

use vstd::prelude::*;

use crate::config::{ReadOutcome, ReadOutcomeView};
use crate::context::{setup, ContextView};
use crate::error::ErrorView;
use crate::program::entrypoint;

verus! {

/// The path of the configuration file.
pub const CONFIG_FILE: &'static str = "config.json";

/// How a run ends: the status that the process exits with and, where the
/// run failed, the one diagnostic to log at error level before it does.
#[derive(Debug)]
pub struct Exit {
    pub status: i32,
    pub diagnostic: Option<String>,
}

/// The mathematical value of an [`Exit`].
pub struct ExitView {
    pub status: int,
    pub diagnostic: Option<Seq<char>>,
}

impl View for Exit {
    type V = ExitView;

    open spec fn view(&self) -> ExitView {
        ExitView {
            status: self.status as int,
            diagnostic: match self.diagnostic {
                Some(text) => Some(text@),
                None => None,
            },
        }
    }
}

impl ExitView {
    /// A run that succeeded: status 0 and nothing to report.
    pub open spec fn success() -> ExitView {
        ExitView { status: 0, diagnostic: None }
    }

    /// A run that failed with `error`: status 1 and the diagnostic of the
    /// error.
    pub open spec fn failure(error: ErrorView) -> ExitView {
        ExitView { status: 1, diagnostic: Some(error.diagnostic()) }
    }

    /// How the run ends whose configuration file is at `path`, given what
    /// reading the file produced. The entrypoint fails on no context, so
    /// the run succeeds exactly when its context could be built.
    pub open spec fn of_run(path: Seq<char>, read: ReadOutcomeView) -> ExitView {
        match ContextView::build(path, read) {
            Ok(_) => ExitView::success(),
            Err(error) => ExitView::failure(error),
        }
    }
}

/// Every run ends with status 0 or 1: with 0 exactly when the configuration
/// file was opened and parsed, with 1 on any failure. A run carries a
/// diagnostic exactly when it failed, and then the diagnostic of the error
/// for the stage that failed, with `path`.
pub proof fn lemma_exit_cases(path: Seq<char>, read: ReadOutcomeView)
    ensures
        ExitView::of_run(path, read).status == 0 || ExitView::of_run(path, read).status == 1,
        ExitView::of_run(path, read).status == 0 <==> read is Parsed,
        ExitView::of_run(path, read).diagnostic is Some <==> ExitView::of_run(path, read).status
            == 1,
        read is NotOpened ==> ExitView::of_run(path, read).diagnostic == Some(
            ErrorView::ConfigFileBad(path).diagnostic(),
        ),
        read is NotParsed ==> ExitView::of_run(path, read).diagnostic == Some(
            ErrorView::ConfigFileUnreadable(path).diagnostic(),
        ),
{
}

/// Runs the program on the configuration file at [`CONFIG_FILE`], given
/// what reading that file produced: sets up the context and hands it to the
/// entrypoint. A failure of either ends the run with status 1 and the
/// diagnostic of the error; otherwise the run ends with status 0 and there
/// is nothing to report.
pub fn run(read: ReadOutcome) -> (exit: Exit)
    ensures
        exit@ == ExitView::of_run(CONFIG_FILE@, read@),
{
    match setup(CONFIG_FILE, read) {
        Err(error) => Exit { status: 1, diagnostic: Some(error.report()) },
        Ok(context) => match entrypoint(context) {
            Err(error) => Exit { status: 1, diagnostic: Some(error.report()) },
            Ok(()) => Exit { status: 0, diagnostic: None },
        },
    }
}

} // verus!
