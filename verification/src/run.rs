//! The rule of a checked run: from the way a launch ended to success or error.

use vstd::prelude::*;

use crate::error::{CommandError, CommandErrorView};

verus! {

/// How an attempt to start a child process and to wait for it ended.
#[derive(Debug, Clone, Copy, PartialEq, Eq)]
pub enum RunStatus {
    /// The process could not be started, whatever the cause.
    NotStarted,
    /// The process ran to its end.
    Finished {
        /// The exit code that it reported; `None` where it reported none, as
        /// a process that a signal has terminated.
        exit_code: Option<i32>,
    },
}

/// One finished attempt to run a command.
#[derive(Debug, PartialEq, Eq)]
pub struct Attempt {
    /// The text that renders the command: its program and its arguments.
    pub command: String,
    /// How the launch ended.
    pub status: RunStatus,
}

/// The result of a checked run, with the text of an error as a sequence of
/// characters.
pub open spec fn outcome(result: Result<(), CommandError>) -> Result<(), CommandErrorView> {
    match result {
        Ok(()) => Ok(()),
        Err(error) => Err(error@),
    }
}

/// The rule itself. A command that could not be started is an error that
/// carries the command's text. A command that reported an exit code succeeded
/// if the code is zero, and is otherwise an error that carries the code and
/// the command's text. A command that ended without an exit code counts as
/// a success.
pub open spec fn verdict(status: RunStatus, command: Seq<char>) -> Result<(), CommandErrorView> {
    match status {
        RunStatus::NotStarted => Err(CommandErrorView::CommandNotFound { command }),
        RunStatus::Finished { exit_code: Some(exit_code) } => if exit_code == 0 {
            Ok(())
        } else {
            Err(CommandErrorView::NonZeroExitCode { command, exit_code: exit_code as int })
        },
        RunStatus::Finished { exit_code: None } => Ok(()),
    }
}

/// A run whose end can be checked.
pub trait CheckRun {
    /// The text that renders the command.
    spec fn command_text(&self) -> Seq<char>;

    /// How the launch ended.
    spec fn status(&self) -> RunStatus;

    /// Checks the run: `Ok`, or the error that [`verdict`] gives for its status
    /// and its command text. The run itself is left as it was.
    fn check_run(&mut self) -> (result: Result<(), CommandError>)
        ensures
            outcome(result) == verdict(old(self).status(), old(self).command_text()),
            final(self).status() == old(self).status(),
            final(self).command_text() == old(self).command_text(),
    ;
}

impl CheckRun for Attempt {
    open spec fn command_text(&self) -> Seq<char> {
        self.command@
    }

    open spec fn status(&self) -> RunStatus {
        self.status
    }

    fn check_run(&mut self) -> (result: Result<(), CommandError>)
        ensures
            *final(self) == *old(self),
    {
        match self.status {
            RunStatus::NotStarted => Err(
                CommandError::CommandNotFound { command: self.command.clone() },
            ),
            RunStatus::Finished { exit_code: Some(exit_code) } => {
                if exit_code != 0 {
                    Err(CommandError::NonZeroExitCode { command: self.command.clone(), exit_code })
                } else {
                    Ok(())
                }
            },
            RunStatus::Finished { exit_code: None } => Ok(()),
        }
    }
}

/// Checking is repeatable: two runs whose commands render alike and whose
/// launches ended alike get the same verdict, whatever else tells them apart.
pub proof fn lemma_check_run_repeatable<A: CheckRun, B: CheckRun>(first: A, second: B)
    requires
        first.command_text() == second.command_text(),
        first.status() == second.status(),
    ensures
        verdict(first.status(), first.command_text()) == verdict(
            second.status(),
            second.command_text(),
        ),
{
}

} // verus!
