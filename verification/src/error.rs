//! The ways in which loading the configuration fails, and the diagnostic
//! each of them is reported with.

use vstd::prelude::*;
use vstd::string::StringExecFns;

verus! {

/// Why the configuration could not be loaded. Each variant carries the path
/// of the file it is about.
#[derive(Debug)]
pub enum Error {
    /// The file could not be opened for reading.
    ConfigFileBad(&'static str),
    /// The file was opened, but its contents are not a configuration.
    ConfigFileUnreadable(&'static str),
}

/// The mathematical value of an [`Error`]: the same two cases, over the
/// path as a sequence of characters.
pub enum ErrorView {
    ConfigFileBad(Seq<char>),
    ConfigFileUnreadable(Seq<char>),
}

impl View for Error {
    type V = ErrorView;

    open spec fn view(&self) -> ErrorView {
        match *self {
            Error::ConfigFileBad(path) => ErrorView::ConfigFileBad(path@),
            Error::ConfigFileUnreadable(path) => ErrorView::ConfigFileUnreadable(path@),
        }
    }
}

/// The text that `format!("{:?}", s)` produces for a string slice with the
/// characters `s`: the characters between double quotes, with the escapes
/// that `Debug` applies.
pub uninterp spec fn debug_text(s: Seq<char>) -> Seq<char>;

impl ErrorView {
    /// The path of the file that the error is about.
    pub open spec fn path(self) -> Seq<char> {
        match self {
            ErrorView::ConfigFileBad(path) => path,
            ErrorView::ConfigFileUnreadable(path) => path,
        }
    }

    /// The diagnostic for this error, around an already rendered path.
    pub open spec fn describe(self, rendered_path: Seq<char>) -> Seq<char> {
        match self {
            ErrorView::ConfigFileBad(_) => "Error opening "@ + rendered_path
                + " for reading the Config"@,
            ErrorView::ConfigFileUnreadable(_) => "Error parsing the Config from "@
                + rendered_path,
        }
    }

    /// The diagnostic for this error: it names the stage that failed and
    /// the path, rendered as `Debug` renders a string.
    pub open spec fn diagnostic(self) -> Seq<char> {
        self.describe(debug_text(self.path()))
    }
}

/// Calls `format!("{:?}", s)`, that is `<str as Debug>::fmt`. Trusted: the
/// result is the `Debug` rendering of `s`, which depends on the characters
/// of `s` alone.
#[verifier::external_body]
fn debug_string(s: &str) -> (text: String)
    ensures
        text@ == debug_text(s@),
{
    format!("{:?}", s)
}

impl Error {
    /// The path of the file that the error is about.
    pub fn path(&self) -> (path: &'static str)
        ensures
            path@ == self@.path(),
    {
        match *self {
            Error::ConfigFileBad(path) => path,
            Error::ConfigFileUnreadable(path) => path,
        }
    }

    /// Builds the diagnostic for this error around `rendered_path`, the
    /// text that stands for the path in it.
    pub fn describe(&self, rendered_path: &str) -> (text: String)
        ensures
            text@ == self@.describe(rendered_path@),
    {
        match *self {
            Error::ConfigFileBad(_) => {
                let mut text = String::from_str("Error opening ");
                text.append(rendered_path);
                text.append(" for reading the Config");
                text
            },
            Error::ConfigFileUnreadable(_) => {
                let mut text = String::from_str("Error parsing the Config from ");
                text.append(rendered_path);
                text
            },
        }
    }

    /// Consumes the error and hands back the one diagnostic it is reported
    /// with, for the caller to log at error level. Taking the error by
    /// value means that it cannot be reported a second time.
    pub fn report(self) -> (text: String)
        ensures
            text@ == self@.diagnostic(),
    {
        let rendered = debug_string(self.path());
        self.describe(rendered.as_str())
    }
}

} // verus!
