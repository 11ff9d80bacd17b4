//! Checked runs of external commands.
//!
//! A caller launches a child process, waits for it, and hands this library what
//! it saw: the text that renders the command and the way the launch ended. The
//! library decides whether that counts as success, as a command that could not
//! be started, or as a command that ended with a nonzero exit code, and it
//! words the error for the last two.

pub mod decimal;
pub mod error;
pub mod run;

pub use error::{CommandError, CommandErrorView};
pub use run::{Attempt, CheckRun, RunStatus};
