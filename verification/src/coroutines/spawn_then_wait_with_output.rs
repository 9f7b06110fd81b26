//! The coroutine that spawns a process and collects its output.

use crate::command::Command;
use crate::io::Io;
use crate::output::Output;
use vstd::prelude::*;

verus! {

/// Spawns a process, then waits for its exit status and for all that it
/// writes to its standard output and standard error.
///
/// Use it to collect the output of the process. Where the output does not
/// matter, or has to be piped into another process, see
/// [`super::SpawnThenWait`].
#[derive(Debug)]
pub struct SpawnThenWaitWithOutput {
    command: Option<Command>,
}

/// What resuming does to a coroutine that holds `command`, and what it
/// hands back.
///
/// Resumed with nothing, the coroutine hands its command out in a request,
/// once; after that it reports that the command is gone. Resumed with a
/// response, it hands the result on, unless it still holds the command: a
/// response to a request that was never made is refused. A request is handed
/// back as it came, and any other message is refused.
pub open spec fn resume_spawn_then_wait_with_output(command: Option<Command>, input: Option<Io>) -> (
    Option<Command>,
    Result<Output, Io>,
) {
    match input {
        None => match command {
            Some(pending) => (None, Err(Io::SpawnThenWaitWithOutput(Err(pending)))),
            None => (None, Err(Io::UnavailableInput)),
        },
        Some(Io::SpawnThenWaitWithOutput(Ok(output))) => if command is Some {
            (command, Err(Io::UnexpectedInput(Box::new(Io::SpawnThenWaitWithOutput(Ok(output))))))
        } else {
            (command, Ok(output))
        },
        Some(Io::SpawnThenWaitWithOutput(Err(request))) => (command, Err(Io::SpawnThenWaitWithOutput(Err(request)))),
        Some(other) => (command, Err(Io::UnexpectedInput(Box::new(other)))),
    }
}

impl SpawnThenWaitWithOutput {
    /// The command that has not been handed out yet.
    pub closed spec fn command(&self) -> Option<Command> {
        self.command
    }

    /// Creates the coroutine that will run `command`.
    pub fn new(command: Command) -> (coroutine: SpawnThenWaitWithOutput)
        ensures
            coroutine.command() == Some(command),
    {
        SpawnThenWaitWithOutput { command: Some(command) }
    }

    /// Makes the coroutine progress.
    ///
    /// `input` is `None` at the start, and later the answer of the runtime
    /// to the request that the last call returned.
    pub fn resume(&mut self, input: Option<Io>) -> (result: Result<Output, Io>)
        ensures
            (final(self).command(), result) == resume_spawn_then_wait_with_output(old(self).command(), input),
    {
        match input {
            None => match self.command.take() {
                Some(pending) => Err(Io::SpawnThenWaitWithOutput(Err(pending))),
                None => Err(Io::UnavailableInput),
            },
            Some(Io::SpawnThenWaitWithOutput(Ok(output))) => {
                if self.command.is_some() {
                    Err(Io::UnexpectedInput(Box::new(Io::SpawnThenWaitWithOutput(Ok(output)))))
                } else {
                    Ok(output)
                }
            },
            Some(Io::SpawnThenWaitWithOutput(Err(request))) => Err(Io::SpawnThenWaitWithOutput(Err(request))),
            Some(other) => Err(Io::UnexpectedInput(Box::new(other))),
        }
    }
}

/// A coroutine that has just been created hands its command out the first
/// time it is resumed with nothing. Resumed with nothing again, it reports
/// that the command is gone, and does not hand it out a second time.
pub proof fn lemma_command_is_handed_out_once(command: Command)
    ensures
        ({
            let (asked, first) = resume_spawn_then_wait_with_output(Some(command), None);
            let (asked_again, second) = resume_spawn_then_wait_with_output(asked, None);
            &&& first == Err::<Output, Io>(Io::SpawnThenWaitWithOutput(Err(command)))
            &&& asked is None
            &&& second == Err::<Output, Io>(Io::UnavailableInput)
            &&& asked_again is None
        }),
{
}

/// A message of another kind is refused: it comes back inside
/// [`Io::UnexpectedInput`], and the coroutine is unchanged.
pub proof fn lemma_other_message_is_refused(command: Option<Command>, message: Io)
    requires
        !(message is SpawnThenWaitWithOutput),
    ensures
        resume_spawn_then_wait_with_output(command, Some(message)) == (
            command,
            Err::<Output, Io>(Io::UnexpectedInput(Box::new(message))),
        ),
{
}

/// A response is taken only once the command has been handed out: the
/// result in it then comes out as it is. While the coroutine still holds
/// its command, the response is refused and the command stays.
pub proof fn lemma_response_follows_request(command: Option<Command>, output: Output)
    ensures
        resume_spawn_then_wait_with_output(command, Some(Io::SpawnThenWaitWithOutput(Ok(output)))) == (
            command,
            if command is None {
                Ok::<Output, Io>(output)
            } else {
                Err::<Output, Io>(Io::UnexpectedInput(Box::new(Io::SpawnThenWaitWithOutput(Ok(output)))))
            },
        ),
{
}

} // verus!
