//! The slots through which a flow and a runtime hand things to each other.

use crate::command::Command;
use crate::io::Io;
use crate::output::{ExitStatus, Output};
use crate::stdio::Stdio;
use vstd::prelude::*;

verus! {

/// The state of a flow: the command that is still to be run, and the
/// pieces of the result that have arrived and have not been taken yet.
///
/// Each piece has a slot of its own, so that one can be taken now and
/// another later.
#[derive(Debug)]
pub struct State {
    /// The command, until it is handed out.
    pub command: Option<Command>,
    /// The exit status of the child process.
    pub status: Option<ExitStatus>,
    /// The exit status and the collected output of the child process.
    pub output: Option<Output>,
    /// The parent's end of the child's standard input.
    pub stdin: Option<Stdio>,
    /// The parent's end of the child's standard output.
    pub stdout: Option<Stdio>,
    /// The parent's end of the child's standard error.
    pub stderr: Option<Stdio>,
}

impl State {
    /// The state that holds `command` and no result.
    pub open spec fn fresh(command: Command) -> State {
        State {
            command: Some(command),
            status: None,
            output: None,
            stdin: None,
            stdout: None,
            stderr: None,
        }
    }

    /// Whether no piece of a result is held.
    pub open spec fn holds_no_result(&self) -> bool {
        &&& self.status is None
        &&& self.output is None
        &&& self.stdin is None
        &&& self.stdout is None
        &&& self.stderr is None
    }

    /// Builds the state that holds `command` and no result.
    pub fn new(command: Command) -> (state: State)
        ensures
            state == State::fresh(command),
    {
        State {
            command: Some(command),
            status: None,
            output: None,
            stdin: None,
            stdout: None,
            stderr: None,
        }
    }

    /// Takes the command out of the state, if it is still there.
    pub fn take_command_builder(&mut self) -> (command: Option<Command>)
        ensures
            command == old(self).command,
            *final(self) == (State { command: None, ..*old(self) }),
    {
        self.command.take()
    }

    /// Takes the command out of the state. Where it has been taken before,
    /// there is none to hand out, and the caller is told so with
    /// [`Io::UnavailableInput`].
    pub fn take_command(&mut self) -> (result: Result<Command, Io>)
        ensures
            result == match old(self).command {
                Some(held) => Ok::<Command, Io>(held),
                None => Err::<Command, Io>(Io::UnavailableInput),
            },
            *final(self) == (State { command: None, ..*old(self) }),
    {
        match self.command.take() {
            Some(command) => Ok(command),
            None => Err(Io::UnavailableInput),
        }
    }

    /// Puts the exit status of the child process into its slot.
    pub fn set_status(&mut self, status: ExitStatus)
        ensures
            *final(self) == (State { status: Some(status), ..*old(self) }),
    {
        self.status = Some(status);
    }

    /// Puts the output of the child process into its slot.
    pub fn set_output(&mut self, output: Output)
        ensures
            *final(self) == (State { output: Some(output), ..*old(self) }),
    {
        self.output = Some(output);
    }

    /// Puts the child's standard input into its slot.
    pub fn set_stdin(&mut self, stdin: Stdio)
        ensures
            *final(self) == (State { stdin: Some(stdin), ..*old(self) }),
    {
        self.set_some_stdin(Some(stdin));
    }

    /// Puts the child's standard input into its slot, if there is one;
    /// with `None` the slot keeps what it has.
    pub fn set_some_stdin(&mut self, stdin: Option<Stdio>)
        ensures
            *final(self) == match stdin {
                Some(stdin) => State { stdin: Some(stdin), ..*old(self) },
                None => *old(self),
            },
    {
        if let Some(stdin) = stdin {
            self.stdin = Some(stdin);
        }
    }

    /// Puts the child's standard output into its slot.
    pub fn set_stdout(&mut self, stdout: Stdio)
        ensures
            *final(self) == (State { stdout: Some(stdout), ..*old(self) }),
    {
        self.set_some_stdout(Some(stdout));
    }

    /// Puts the child's standard output into its slot, if there is one;
    /// with `None` the slot keeps what it has.
    pub fn set_some_stdout(&mut self, stdout: Option<Stdio>)
        ensures
            *final(self) == match stdout {
                Some(stdout) => State { stdout: Some(stdout), ..*old(self) },
                None => *old(self),
            },
    {
        if let Some(stdout) = stdout {
            self.stdout = Some(stdout);
        }
    }

    /// Puts the child's standard error into its slot.
    pub fn set_stderr(&mut self, stderr: Stdio)
        ensures
            *final(self) == (State { stderr: Some(stderr), ..*old(self) }),
    {
        self.set_some_stderr(Some(stderr));
    }

    /// Puts the child's standard error into its slot, if there is one;
    /// with `None` the slot keeps what it has.
    pub fn set_some_stderr(&mut self, stderr: Option<Stdio>)
        ensures
            *final(self) == match stderr {
                Some(stderr) => State { stderr: Some(stderr), ..*old(self) },
                None => *old(self),
            },
    {
        if let Some(stderr) = stderr {
            self.stderr = Some(stderr);
        }
    }
}

} // verus!
