//! What a runtime decides before it touches the operating system.
//!
//! A runtime is handed a message by a flow. Whether the message can be
//! served, and which process has to be spawned in which way, is settled
//! here. Spawning and waiting are then up to the runtime, which answers
//! with the variant of [`Io`] that it was asked with.

use crate::command::Command;
use crate::envs::{distinct_names, pairs_to_map};
use crate::io::Io;
use crate::launch::{build_command, env_pairs, launch_steps, Launch};
use crate::output::{Output, SpawnOutput};
use vstd::prelude::*;

verus! {

/// The work that a request asks of a runtime.
#[derive(Debug)]
pub enum Job {
    /// Spawn the process, detach its piped streams, then wait for its exit
    /// status.
    SpawnThenWait(Launch),
    /// Spawn the process and wait for it while collecting all that it
    /// writes to its standard output and standard error.
    SpawnThenWaitWithOutput(Launch),
}

/// Why a runtime cannot serve a message.
#[derive(Debug)]
pub enum HandlerError {
    /// The flow reported that its command has been handed out already.
    UnavailableInput,
    /// The flow reported that it was given the message held here, which it
    /// did not expect.
    UnexpectedInput(Box<Io>),
    /// The message is a response, not a request: it holds no command.
    MissingCommand,
}

impl HandlerError {
    /// What went wrong, in words.
    pub fn message(&self) -> (message: String)
        ensures
            message@ == match *self {
                HandlerError::UnavailableInput => "input has already been used"@,
                HandlerError::UnexpectedInput(_) => "unexpected input"@,
                HandlerError::MissingCommand => "missing command"@,
            },
    {
        match self {
            HandlerError::UnavailableInput => "input has already been used".to_owned(),
            HandlerError::UnexpectedInput(_) => "unexpected input".to_owned(),
            HandlerError::MissingCommand => "missing command".to_owned(),
        }
    }
}

/// `launch` sets up the process that `command` describes: the same
/// program, and the steps for its arguments, variables, working directory
/// and streams, in that order.
pub open spec fn launches(launch: Launch, command: Command) -> bool {
    &&& launch@.program == command@.program
    &&& launch@.steps == launch_steps(command@, env_pairs(command))
    &&& distinct_names(env_pairs(command))
    &&& pairs_to_map(env_pairs(command)) == command@.env_map()
}

/// Serves the payload of a spawn-then-wait message.
///
/// A request, which holds a command, gives the process to spawn. A
/// response is refused with [`HandlerError::MissingCommand`].
pub fn spawn_then_wait(input: Result<SpawnOutput, Command>) -> (result: Result<Launch, HandlerError>)
    ensures
        match input {
            Err(command) => result is Ok && launches(result->Ok_0, command),
            Ok(_) => result == Err::<Launch, HandlerError>(HandlerError::MissingCommand),
        },
{
    match input {
        Err(command) => Ok(build_command(command)),
        Ok(_) => Err(HandlerError::MissingCommand),
    }
}

/// Serves the payload of a spawn-then-wait-with-output message.
///
/// A request, which holds a command, gives the process to spawn. A
/// response is refused with [`HandlerError::MissingCommand`].
pub fn spawn_then_wait_with_output(input: Result<Output, Command>) -> (result: Result<
    Launch,
    HandlerError,
>)
    ensures
        match input {
            Err(command) => result is Ok && launches(result->Ok_0, command),
            Ok(_) => result == Err::<Launch, HandlerError>(HandlerError::MissingCommand),
        },
{
    match input {
        Err(command) => Ok(build_command(command)),
        Ok(_) => Err(HandlerError::MissingCommand),
    }
}

/// `result` is what a runtime decides on `io`.
///
/// A request gives the job of its own kind for the command it holds. The
/// two reports of misuse, and a response, are refused, each with the error
/// of its kind.
pub open spec fn handles(io: Io, result: Result<Job, HandlerError>) -> bool {
    match io {
        Io::UnavailableInput => result == Err::<Job, HandlerError>(HandlerError::UnavailableInput),
        Io::UnexpectedInput(unexpected) => result == Err::<Job, HandlerError>(
            HandlerError::UnexpectedInput(unexpected),
        ),
        Io::SpawnThenWait(Err(command)) => result matches Ok(Job::SpawnThenWait(launch))
            && launches(launch, command),
        Io::SpawnThenWaitWithOutput(Err(command)) => result matches Ok(
            Job::SpawnThenWaitWithOutput(launch),
        ) && launches(launch, command),
        Io::SpawnThenWait(Ok(_)) | Io::SpawnThenWaitWithOutput(Ok(_)) => result == Err::<
            Job,
            HandlerError,
        >(HandlerError::MissingCommand),
    }
}

/// Decides what a runtime does with `io`: a request is served, and nothing
/// else is.
pub fn handle(io: Io) -> (result: Result<Job, HandlerError>)
    ensures
        handles(io, result),
        result is Ok <==> io.is_request(),
        io.is_response() ==> result == Err::<Job, HandlerError>(HandlerError::MissingCommand),
{
    match io {
        Io::UnavailableInput => Err(HandlerError::UnavailableInput),
        Io::UnexpectedInput(unexpected) => Err(HandlerError::UnexpectedInput(unexpected)),
        Io::SpawnThenWait(input) => match spawn_then_wait(input) {
            Ok(launch) => Ok(Job::SpawnThenWait(launch)),
            Err(error) => Err(error),
        },
        Io::SpawnThenWaitWithOutput(input) => match spawn_then_wait_with_output(input) {
            Ok(launch) => Ok(Job::SpawnThenWaitWithOutput(launch)),
            Err(error) => Err(error),
        },
    }
}

/// The I/O-free half of a runtime.
///
/// A connector settles what a message asks for; the runtime that owns the
/// connector then does it, and answers the flow.
#[derive(Debug)]
pub struct Connector;

impl Connector {
    /// Creates a connector.
    pub fn new() -> (connector: Connector)
        ensures
            connector == Connector,
    {
        Connector
    }

    /// Decides what the runtime does with `io`, as [`handle`] does.
    pub fn execute(&self, io: Io) -> (result: Result<Job, HandlerError>)
        ensures
            handles(io, result),
            result is Ok <==> io.is_request(),
            io.is_response() ==> result == Err::<Job, HandlerError>(HandlerError::MissingCommand),
    {
        handle(io)
    }
}

impl Default for Connector {
    /// Creates a connector.
    fn default() -> (connector: Connector)
        ensures
            connector == Connector,
    {
        Connector
    }
}

} // verus!
