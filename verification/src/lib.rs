//! The start-up path of a program: a configuration read from a file, the
//! context built around it, the entrypoint that receives the context, and the
//! driver that turns the outcome into an exit status.
//!
//! Nothing here touches a file, the logger or the process. The caller reads
//! the configuration file and hands over what became of the attempt as a
//! [`config::ReadOutcome`]; the library decides what follows from it and
//! hands back values: a [`context::Context`], an [`error::Error`], the text
//! of a diagnostic, an exit status.

pub mod config;
pub mod context;
pub mod driver;
pub mod error;
pub mod program;
