//! The flow that spawns a process and collects its output.

use crate::command::Command;
use crate::io::Io;
use crate::output::Output;
use crate::state::State;
use crate::stdio::Stdio;
use vstd::prelude::*;

verus! {

/// Spawns a process, then waits for its exit status and for all that it
/// writes to its standard output and standard error.
///
/// The runtime drains both streams while it waits, so the result comes as
/// one piece of buffered bytes and no stream is handed out. Where a stream
/// has to be piped into another process, see
/// [`super::SpawnCommandThenWait`].
#[derive(Debug)]
pub struct SpawnCommandThenWaitWithOutput {
    state: State,
    completed: bool,
}

/// What a [`SpawnCommandThenWaitWithOutput`] holds, laid open.
pub struct SpawnCommandThenWaitWithOutputView {
    /// The command and the slots of the result.
    pub state: State,
    /// Whether a response has been accepted.
    pub completed: bool,
}

impl SpawnCommandThenWaitWithOutputView {
    /// The flow that has just been created for `command`.
    pub open spec fn fresh(command: Command) -> SpawnCommandThenWaitWithOutputView {
        SpawnCommandThenWaitWithOutputView { state: State::fresh(command), completed: false }
    }

    /// What holds of every flow: it never holds a command and a result at
    /// once, it holds no output before it has accepted a response, and it
    /// never holds a separate exit status or a stream.
    pub open spec fn inv(self) -> bool {
        &&& self.state.status is None
        &&& self.state.stdin is None
        &&& self.state.stdout is None
        &&& self.state.stderr is None
        &&& self.state.command is Some ==> !self.completed
        &&& !self.completed ==> self.state.output is None
    }

    /// Whether the flow has handed its command out and waits for the
    /// response.
    pub open spec fn awaiting(self) -> bool {
        !self.completed && self.state.command is None
    }

    /// Whether `io` is a response of the kind that this flow asks for.
    pub open spec fn is_answer(io: Io) -> bool {
        io matches Io::SpawnThenWaitWithOutput(Ok(_))
    }

    /// What the flow needs next, and the flow after it has said so.
    ///
    /// Before a response has been accepted, the flow hands its command out
    /// in a request, once; asked again, it reports that the command is
    /// gone. After a response has been accepted it needs nothing.
    pub open spec fn next(self) -> (SpawnCommandThenWaitWithOutputView, Option<Io>) {
        if self.completed {
            (self, None)
        } else {
            match self.state.command {
                Some(command) => (
                    SpawnCommandThenWaitWithOutputView {
                        state: State { command: None, ..self.state },
                        ..self
                    },
                    Some(Io::SpawnThenWaitWithOutput(Err(command))),
                ),
                None => (self, Some(Io::UnavailableInput)),
            }
        }
    }

    /// The flow after it has been given `response`, and whether it took it.
    ///
    /// A flow that waits for its response takes a response of its own kind:
    /// it stores the output. Any other message, and any message at another
    /// time, is refused and handed back inside [`Io::UnexpectedInput`], and
    /// the flow stays as it is.
    pub open spec fn accept(self, response: Io) -> (
        SpawnCommandThenWaitWithOutputView,
        Result<(), Io>,
    ) {
        if self.awaiting() && Self::is_answer(response) {
            let output = response->SpawnThenWaitWithOutput_0->Ok_0;
            (
                SpawnCommandThenWaitWithOutputView {
                    state: State { output: Some(output), ..self.state },
                    completed: true,
                },
                Ok(()),
            )
        } else {
            (self, Err(Io::UnexpectedInput(Box::new(response))))
        }
    }

    /// The output held, and the flow without it.
    pub open spec fn take_output(self) -> (SpawnCommandThenWaitWithOutputView, Option<Output>) {
        (
            SpawnCommandThenWaitWithOutputView {
                state: State { output: None, ..self.state },
                ..self
            },
            self.state.output,
        )
    }

    /// The standard input held, and the flow without it.
    pub open spec fn take_stdin(self) -> (SpawnCommandThenWaitWithOutputView, Option<Stdio>) {
        (
            SpawnCommandThenWaitWithOutputView {
                state: State { stdin: None, ..self.state },
                ..self
            },
            self.state.stdin,
        )
    }

    /// The flow after its output has been taken out of it `times` times.
    pub open spec fn without_output(self, times: nat) -> SpawnCommandThenWaitWithOutputView
        decreases times,
    {
        if times == 0 {
            self
        } else {
            self.without_output((times - 1) as nat).take_output().0
        }
    }
}

impl View for SpawnCommandThenWaitWithOutput {
    type V = SpawnCommandThenWaitWithOutputView;

    closed spec fn view(&self) -> SpawnCommandThenWaitWithOutputView {
        SpawnCommandThenWaitWithOutputView { state: self.state, completed: self.completed }
    }
}

impl SpawnCommandThenWaitWithOutput {
    #[verifier::type_invariant]
    closed spec fn holds_inv(&self) -> bool {
        self@.inv()
    }

    /// Creates the flow that will run `command`.
    pub fn new(command: Command) -> (flow: SpawnCommandThenWaitWithOutput)
        ensures
            flow@ == SpawnCommandThenWaitWithOutputView::fresh(command),
            flow@.inv(),
    {
        SpawnCommandThenWaitWithOutput { state: State::new(command), completed: false }
    }

    /// Says what the flow needs next: a request for the runtime, or `None`
    /// once a response has been accepted.
    pub fn next(&mut self) -> (io: Option<Io>)
        ensures
            (final(self)@, io) == old(self)@.next(),
            final(self)@.inv(),
    {
        proof {
            use_type_invariant(&*self);
        }
        if self.completed {
            return None;
        }
        let mut command: Option<Command> = None;
        std::mem::swap(&mut command, &mut self.state.command);
        match command {
            Some(command) => Some(Io::SpawnThenWaitWithOutput(Err(command))),
            None => Some(Io::UnavailableInput),
        }
    }

    /// Gives the flow the answer of the runtime.
    ///
    /// The flow takes the response to the request it has made, and nothing
    /// else: a message of another kind, or one that comes before the
    /// request or after the response, is handed back inside
    /// [`Io::UnexpectedInput`], and the flow stays as it is.
    pub fn accept(&mut self, response: Io) -> (result: Result<(), Io>)
        ensures
            (final(self)@, result) == old(self)@.accept(response),
            final(self)@.inv(),
    {
        proof {
            use_type_invariant(&*self);
        }
        if self.completed || self.state.command.is_some() {
            return Err(Io::UnexpectedInput(Box::new(response)));
        }
        match response {
            Io::SpawnThenWaitWithOutput(Ok(output)) => {
                let mut state = State {
                    command: None,
                    status: None,
                    output: None,
                    stdin: None,
                    stdout: None,
                    stderr: None,
                };
                state.set_output(output);
                *self = SpawnCommandThenWaitWithOutput { state, completed: true };
                Ok(())
            },
            other => Err(Io::UnexpectedInput(Box::new(other))),
        }
    }

    /// Takes the standard input away from the flow. This flow hands no
    /// stream out, so there is never one to take.
    pub fn take_stdin(&mut self) -> (stdin: Option<Stdio>)
        ensures
            (final(self)@, stdin) == old(self)@.take_stdin(),
            stdin is None,
            final(self)@ == old(self)@,
            final(self)@.inv(),
    {
        proof {
            use_type_invariant(&*self);
        }
        let mut stdin: Option<Stdio> = None;
        std::mem::swap(&mut stdin, &mut self.state.stdin);
        stdin
    }

    /// Takes the output away from the flow.
    pub fn take_output(&mut self) -> (output: Option<Output>)
        ensures
            (final(self)@, output) == old(self)@.take_output(),
            final(self)@.inv(),
    {
        proof {
            use_type_invariant(&*self);
        }
        let mut output: Option<Output> = None;
        std::mem::swap(&mut output, &mut self.state.output);
        output
    }
}

/// Nothing that can be done to a flow breaks what holds of every flow.
pub proof fn lemma_inv_is_kept(flow: SpawnCommandThenWaitWithOutputView, message: Io)
    requires
        flow.inv(),
    ensures
        flow.next().0.inv(),
        flow.accept(message).0.inv(),
        flow.take_output().0.inv(),
        flow.take_stdin().0.inv(),
{
}

/// A flow that has just been created hands its command out in its first
/// request. Asked again before it has been given a response, it reports
/// that the command is gone, and does not hand it out a second time.
pub proof fn lemma_command_is_handed_out_once(command: Command)
    ensures
        ({
            let fresh = SpawnCommandThenWaitWithOutputView::fresh(command);
            let (asked, first) = fresh.next();
            let (asked_again, second) = asked.next();
            &&& fresh.inv()
            &&& first == Some(Io::SpawnThenWaitWithOutput(Err(command)))
            &&& asked.awaiting()
            &&& second == Some(Io::UnavailableInput)
            &&& asked_again == asked
        }),
{
}

/// A flow that has made its request takes a message exactly if the message
/// answers that request: it is a response, and of the variant that the
/// request has.
pub proof fn lemma_takes_the_answer_only(command: Command, message: Io)
    ensures
        ({
            let (asked, request) = SpawnCommandThenWaitWithOutputView::fresh(command).next();
            &&& request is Some
            &&& request->0.is_request()
            &&& asked.accept(message).1 is Ok <==> message.answers(request->0)
        }),
{
}

/// A flow that has not completed refuses every message that is not a
/// response of its own kind: the message comes back inside
/// [`Io::UnexpectedInput`], the flow is unchanged, and it holds no piece of
/// a result.
pub proof fn lemma_other_message_is_refused(flow: SpawnCommandThenWaitWithOutputView, message: Io)
    requires
        flow.inv(),
        !flow.completed,
        !SpawnCommandThenWaitWithOutputView::is_answer(message),
    ensures
        flow.accept(message).1 == Err::<(), Io>(Io::UnexpectedInput(Box::new(message))),
        flow.accept(message).0 == flow,
        flow.accept(message).0.state.holds_no_result(),
{
}

/// A flow takes a response only while it waits for one: before it has
/// handed its command out, and after it has completed, the response is
/// refused and the flow is unchanged.
pub proof fn lemma_untimely_response_is_refused(
    flow: SpawnCommandThenWaitWithOutputView,
    message: Io,
)
    requires
        !flow.awaiting(),
    ensures
        flow.accept(message).1 == Err::<(), Io>(Io::UnexpectedInput(Box::new(message))),
        flow.accept(message).0 == flow,
{
}

/// Once a flow has accepted its response, it needs nothing more, and the
/// output comes out once: the first time it is taken it is what the
/// response held, and every later time there is none.
pub proof fn lemma_output_is_taken_once(
    flow: SpawnCommandThenWaitWithOutputView,
    output: Output,
    times: nat,
)
    requires
        flow.inv(),
        flow.awaiting(),
    ensures
        ({
            let (accepted, result) = flow.accept(Io::SpawnThenWaitWithOutput(Ok(output)));
            let later = accepted.without_output(times);
            &&& result is Ok
            &&& later.inv()
            &&& later.next().1 is None
            &&& later.take_stdin().1 is None
            &&& later.take_output().1 == if times == 0 {
                Some(output)
            } else {
                None
            }
        }),
    decreases times,
{
    if times > 0 {
        lemma_output_is_taken_once(flow, output, (times - 1) as nat);
    }
}

} // verus!
