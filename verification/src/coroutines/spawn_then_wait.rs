//! The coroutine that spawns a process and waits for its exit status.

use crate::command::Command;
use crate::io::Io;
use crate::output::SpawnOutput;
use vstd::prelude::*;

verus! {

/// Spawns a process, then waits for its exit status.
///
/// Use it when the output of the process does not matter, or has to be
/// piped into another process. To collect the output, see
/// [`super::SpawnThenWaitWithOutput`].
#[derive(Debug)]
pub struct SpawnThenWait {
    command: Option<Command>,
}

/// What resuming does to a coroutine that holds `command`, and what it
/// hands back.
///
/// Resumed with nothing, the coroutine hands its command out in a request,
/// once; after that it reports that the command is gone. Resumed with a
/// response, it hands the result on, unless it still holds the command: a
/// response to a request that was never made is refused. A request is handed
/// back as it came, and any other message is refused.
pub open spec fn resume_spawn_then_wait(command: Option<Command>, input: Option<Io>) -> (
    Option<Command>,
    Result<SpawnOutput, Io>,
) {
    match input {
        None => match command {
            Some(pending) => (None, Err(Io::SpawnThenWait(Err(pending)))),
            None => (None, Err(Io::UnavailableInput)),
        },
        Some(Io::SpawnThenWait(Ok(output))) => if command is Some {
            (command, Err(Io::UnexpectedInput(Box::new(Io::SpawnThenWait(Ok(output))))))
        } else {
            (command, Ok(output))
        },
        Some(Io::SpawnThenWait(Err(request))) => (command, Err(Io::SpawnThenWait(Err(request)))),
        Some(other) => (command, Err(Io::UnexpectedInput(Box::new(other)))),
    }
}

impl SpawnThenWait {
    /// The command that has not been handed out yet.
    pub closed spec fn command(&self) -> Option<Command> {
        self.command
    }

    /// Creates the coroutine that will run `command`.
    pub fn new(command: Command) -> (coroutine: SpawnThenWait)
        ensures
            coroutine.command() == Some(command),
    {
        SpawnThenWait { command: Some(command) }
    }

    /// Makes the coroutine progress.
    ///
    /// `input` is `None` at the start, and later the answer of the runtime
    /// to the request that the last call returned.
    pub fn resume(&mut self, input: Option<Io>) -> (result: Result<SpawnOutput, Io>)
        ensures
            (final(self).command(), result) == resume_spawn_then_wait(old(self).command(), input),
    {
        match input {
            None => match self.command.take() {
                Some(pending) => Err(Io::SpawnThenWait(Err(pending))),
                None => Err(Io::UnavailableInput),
            },
            Some(Io::SpawnThenWait(Ok(output))) => {
                if self.command.is_some() {
                    Err(Io::UnexpectedInput(Box::new(Io::SpawnThenWait(Ok(output)))))
                } else {
                    Ok(output)
                }
            },
            Some(Io::SpawnThenWait(Err(request))) => Err(Io::SpawnThenWait(Err(request))),
            Some(other) => Err(Io::UnexpectedInput(Box::new(other))),
        }
    }
}

/// A coroutine that has just been created hands its command out the first
/// time it is resumed with nothing. Resumed with nothing again, it reports
/// that the command is gone, and does not hand it out a second time.
pub proof fn lemma_command_is_handed_out_once(command: Command)
    ensures
        ({
            let (asked, first) = resume_spawn_then_wait(Some(command), None);
            let (asked_again, second) = resume_spawn_then_wait(asked, None);
            &&& first == Err::<SpawnOutput, Io>(Io::SpawnThenWait(Err(command)))
            &&& asked is None
            &&& second == Err::<SpawnOutput, Io>(Io::UnavailableInput)
            &&& asked_again is None
        }),
{
}

/// A message of another kind is refused: it comes back inside
/// [`Io::UnexpectedInput`], and the coroutine is unchanged.
pub proof fn lemma_other_message_is_refused(command: Option<Command>, message: Io)
    requires
        !(message is SpawnThenWait),
    ensures
        resume_spawn_then_wait(command, Some(message)) == (
            command,
            Err::<SpawnOutput, Io>(Io::UnexpectedInput(Box::new(message))),
        ),
{
}

/// A response is taken only once the command has been handed out: the
/// result in it then comes out as it is. While the coroutine still holds
/// its command, the response is refused and the command stays.
pub proof fn lemma_response_follows_request(command: Option<Command>, output: SpawnOutput)
    ensures
        resume_spawn_then_wait(command, Some(Io::SpawnThenWait(Ok(output)))) == (
            command,
            if command is None {
                Ok::<SpawnOutput, Io>(output)
            } else {
                Err::<SpawnOutput, Io>(Io::UnexpectedInput(Box::new(Io::SpawnThenWait(Ok(output)))))
            },
        ),
{
}

} // verus!
