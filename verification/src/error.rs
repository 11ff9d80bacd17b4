//! The errors of a checked run and the messages that word them.

use vstd::prelude::*;
use vstd::string::*;

use crate::decimal::{decimal_string, decimal_text};

verus! {

/// Why a checked run did not succeed.
#[derive(Debug, PartialEq, Eq)]
pub enum CommandError {
    /// The process could not be started at all.
    CommandNotFound {
        /// The text that renders the command.
        command: String,
    },
    /// The process ran and ended with an exit code other than zero.
    NonZeroExitCode {
        /// The text that renders the command.
        command: String,
        /// The exit code that the process reported.
        exit_code: i32,
    },
}

/// What a [`CommandError`] says, with its text as a sequence of characters.
pub enum CommandErrorView {
    CommandNotFound { command: Seq<char> },
    NonZeroExitCode { command: Seq<char>, exit_code: int },
}

impl View for CommandError {
    type V = CommandErrorView;

    open spec fn view(&self) -> CommandErrorView {
        match *self {
            CommandError::CommandNotFound { command } => CommandErrorView::CommandNotFound {
                command: command@,
            },
            CommandError::NonZeroExitCode { command, exit_code } => {
                CommandErrorView::NonZeroExitCode { command: command@, exit_code: exit_code as int }
            },
        }
    }
}

impl CommandErrorView {
    /// The message of the error: a fixed phrase, the exit code in decimal where
    /// there is one, and the command's text.
    pub open spec fn message(self) -> Seq<char> {
        match self {
            CommandErrorView::CommandNotFound { command } => "Command not found: "@ + command,
            CommandErrorView::NonZeroExitCode { command, exit_code } => {
                "Non-zero exit-code = "@ + decimal_text(exit_code) + ": "@ + command
            },
        }
    }
}

impl CommandError {
    /// The human-readable message of this error.
    pub fn message(&self) -> (text: String)
        ensures
            text@ == self@.message(),
    {
        match self {
            CommandError::CommandNotFound { command } => {
                let mut text = String::from_str("Command not found: ");
                text.append(command.as_str());
                text
            },
            CommandError::NonZeroExitCode { command, exit_code } => {
                let mut text = String::from_str("Non-zero exit-code = ");
                let code = decimal_string(*exit_code);
                text.append(code.as_str());
                text.append(": ");
                text.append(command.as_str());
                text
            },
        }
    }
}

} // verus!
