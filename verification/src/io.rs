//! The messages that flows and runtimes exchange.

use crate::command::Command;
use crate::output::{Output, SpawnOutput};
use vstd::prelude::*;

verus! {

/// A message between a flow and a runtime.
///
/// A flow emits a request, which carries the command to run. The runtime
/// answers with the same variant, which then carries what the process
/// left behind. The two other variants report misuse.
#[derive(Debug)]
pub enum Io {
    /// The command was asked for a second time: it has been handed out
    /// already.
    UnavailableInput,
    /// The message held here arrived where another kind was expected.
    UnexpectedInput(Box<Io>),
    /// Spawn a process and wait for its exit status.
    ///
    /// As a request the variant holds the command (`Err`), as a response
    /// the exit status and the streams of the child (`Ok`).
    SpawnThenWait(Result<SpawnOutput, Command>),
    /// Spawn a process, wait for its exit status and collect what it
    /// writes to its standard output and standard error.
    ///
    /// As a request the variant holds the command (`Err`), as a response
    /// the exit status and the collected bytes (`Ok`).
    SpawnThenWaitWithOutput(Result<Output, Command>),
}

impl Io {
    /// Whether the message asks a runtime to run a command.
    pub open spec fn is_request(self) -> bool {
        self matches Io::SpawnThenWait(Err(_)) || self matches Io::SpawnThenWaitWithOutput(Err(_))
    }

    /// Whether the message holds what a process left behind.
    pub open spec fn is_response(self) -> bool {
        self matches Io::SpawnThenWait(Ok(_)) || self matches Io::SpawnThenWaitWithOutput(Ok(_))
    }

    /// Whether the message is the response to `request`: a response of the
    /// variant that the request has.
    pub open spec fn answers(self, request: Io) -> bool {
        ||| request matches Io::SpawnThenWait(Err(_)) && self matches Io::SpawnThenWait(Ok(_))
        ||| request matches Io::SpawnThenWaitWithOutput(Err(_))
            && self matches Io::SpawnThenWaitWithOutput(Ok(_))
    }
}

} // verus!
