//! The flow that spawns a process and waits for its exit status.

use crate::command::Command;
use crate::io::Io;
use crate::output::{ExitStatus, SpawnOutput};
use crate::state::State;
use crate::stdio::Stdio;
use vstd::prelude::*;

verus! {

/// Spawns a process, then waits for its exit status.
///
/// Use it when the output of the process does not matter, or has to be
/// piped into another process: the flow hands out the parent's ends of the
/// streams that were piped. To collect the output, see
/// [`super::SpawnCommandThenWaitWithOutput`].
#[derive(Debug)]
pub struct SpawnCommandThenWait {
    state: State,
    completed: bool,
}

/// What a [`SpawnCommandThenWait`] holds, laid open.
pub struct SpawnCommandThenWaitView {
    /// The command and the slots of the result.
    pub state: State,
    /// Whether a response has been accepted.
    pub completed: bool,
}

/// A piece of the result that can be taken out of a [`SpawnCommandThenWait`].
pub enum Piece {
    Status,
    Stdin,
    Stdout,
    Stderr,
}

impl SpawnCommandThenWaitView {
    /// The flow that has just been created for `command`.
    pub open spec fn fresh(command: Command) -> SpawnCommandThenWaitView {
        SpawnCommandThenWaitView { state: State::fresh(command), completed: false }
    }

    /// What holds of every flow: it never holds a command and a result at
    /// once, it holds no piece of a result before it has accepted a
    /// response, and it never holds collected output.
    pub open spec fn inv(self) -> bool {
        &&& self.state.output is None
        &&& self.state.command is Some ==> !self.completed
        &&& !self.completed ==> self.state.holds_no_result()
    }

    /// Whether the flow has handed its command out and waits for the
    /// response.
    pub open spec fn awaiting(self) -> bool {
        !self.completed && self.state.command is None
    }

    /// Whether `io` is a response of the kind that this flow asks for.
    pub open spec fn is_answer(io: Io) -> bool {
        io matches Io::SpawnThenWait(Ok(_))
    }

    /// What the flow needs next, and the flow after it has said so.
    ///
    /// Before a response has been accepted, the flow hands its command out
    /// in a request, once; asked again, it reports that the command is
    /// gone. After a response has been accepted it needs nothing.
    pub open spec fn next(self) -> (SpawnCommandThenWaitView, Option<Io>) {
        if self.completed {
            (self, None)
        } else {
            match self.state.command {
                Some(command) => (
                    SpawnCommandThenWaitView {
                        state: State { command: None, ..self.state },
                        ..self
                    },
                    Some(Io::SpawnThenWait(Err(command))),
                ),
                None => (self, Some(Io::UnavailableInput)),
            }
        }
    }

    /// The flow after it has been given `response`, and whether it took it.
    ///
    /// A flow that waits for its response takes a response of its own kind:
    /// it stores the exit status and the streams. Any other message, and
    /// any message at another time, is refused and handed back inside
    /// [`Io::UnexpectedInput`], and the flow stays as it is.
    pub open spec fn accept(self, response: Io) -> (SpawnCommandThenWaitView, Result<(), Io>) {
        if self.awaiting() && Self::is_answer(response) {
            let output = response->SpawnThenWait_0->Ok_0;
            (
                SpawnCommandThenWaitView {
                    state: State {
                        status: Some(output.status),
                        stdin: output.stdin,
                        stdout: output.stdout,
                        stderr: output.stderr,
                        ..self.state
                    },
                    completed: true,
                },
                Ok(()),
            )
        } else {
            (self, Err(Io::UnexpectedInput(Box::new(response))))
        }
    }

    /// The exit status held, and the flow without it.
    pub open spec fn take_status(self) -> (SpawnCommandThenWaitView, Option<ExitStatus>) {
        (
            SpawnCommandThenWaitView { state: State { status: None, ..self.state }, ..self },
            self.state.status,
        )
    }

    /// The standard input held, and the flow without it.
    pub open spec fn take_stdin(self) -> (SpawnCommandThenWaitView, Option<Stdio>) {
        (
            SpawnCommandThenWaitView { state: State { stdin: None, ..self.state }, ..self },
            self.state.stdin,
        )
    }

    /// The standard output held, and the flow without it.
    pub open spec fn take_stdout(self) -> (SpawnCommandThenWaitView, Option<Stdio>) {
        (
            SpawnCommandThenWaitView { state: State { stdout: None, ..self.state }, ..self },
            self.state.stdout,
        )
    }

    /// The standard error held, and the flow without it.
    pub open spec fn take_stderr(self) -> (SpawnCommandThenWaitView, Option<Stdio>) {
        (
            SpawnCommandThenWaitView { state: State { stderr: None, ..self.state }, ..self },
            self.state.stderr,
        )
    }

    /// The flow after `piece` has been taken out of it.
    pub open spec fn without(self, piece: Piece) -> SpawnCommandThenWaitView {
        match piece {
            Piece::Status => self.take_status().0,
            Piece::Stdin => self.take_stdin().0,
            Piece::Stdout => self.take_stdout().0,
            Piece::Stderr => self.take_stderr().0,
        }
    }

    /// The flow after each of `pieces` has been taken out of it in turn.
    pub open spec fn without_all(self, pieces: Seq<Piece>) -> SpawnCommandThenWaitView
        decreases pieces.len(),
    {
        if pieces.len() == 0 {
            self
        } else {
            self.without_all(pieces.drop_last()).without(pieces.last())
        }
    }
}

impl View for SpawnCommandThenWait {
    type V = SpawnCommandThenWaitView;

    closed spec fn view(&self) -> SpawnCommandThenWaitView {
        SpawnCommandThenWaitView { state: self.state, completed: self.completed }
    }
}

impl SpawnCommandThenWait {
    #[verifier::type_invariant]
    closed spec fn holds_inv(&self) -> bool {
        self@.inv()
    }

    /// Creates the flow that will run `command`.
    pub fn new(command: Command) -> (flow: SpawnCommandThenWait)
        ensures
            flow@ == SpawnCommandThenWaitView::fresh(command),
            flow@.inv(),
    {
        SpawnCommandThenWait { state: State::new(command), completed: false }
    }

    /// Says what the flow needs next: a request for the runtime, or `None`
    /// once a response has been accepted.
    pub fn next(&mut self) -> (io: Option<Io>)
        ensures
            (final(self)@, io) == old(self)@.next(),
            final(self)@.inv(),
    {
        proof {
            use_type_invariant(&*self);
        }
        if self.completed {
            return None;
        }
        let mut command: Option<Command> = None;
        std::mem::swap(&mut command, &mut self.state.command);
        match command {
            Some(command) => Some(Io::SpawnThenWait(Err(command))),
            None => Some(Io::UnavailableInput),
        }
    }

    /// Gives the flow the answer of the runtime.
    ///
    /// The flow takes the response to the request it has made, and nothing
    /// else: a message of another kind, or one that comes before the
    /// request or after the response, is handed back inside
    /// [`Io::UnexpectedInput`], and the flow stays as it is.
    pub fn accept(&mut self, response: Io) -> (result: Result<(), Io>)
        ensures
            (final(self)@, result) == old(self)@.accept(response),
            final(self)@.inv(),
    {
        proof {
            use_type_invariant(&*self);
        }
        if self.completed || self.state.command.is_some() {
            return Err(Io::UnexpectedInput(Box::new(response)));
        }
        match response {
            Io::SpawnThenWait(Ok(output)) => {
                let mut state = State {
                    command: None,
                    status: None,
                    output: None,
                    stdin: None,
                    stdout: None,
                    stderr: None,
                };
                state.set_some_stdin(output.stdin);
                state.set_some_stdout(output.stdout);
                state.set_some_stderr(output.stderr);
                state.set_status(output.status);
                *self = SpawnCommandThenWait { state, completed: true };
                Ok(())
            },
            other => Err(Io::UnexpectedInput(Box::new(other))),
        }
    }

    /// Takes the exit status away from the flow.
    pub fn take_status(&mut self) -> (status: Option<ExitStatus>)
        ensures
            (final(self)@, status) == old(self)@.take_status(),
            final(self)@.inv(),
    {
        proof {
            use_type_invariant(&*self);
        }
        let mut status: Option<ExitStatus> = None;
        std::mem::swap(&mut status, &mut self.state.status);
        status
    }

    /// Takes the parent's end of the child's standard input away from the
    /// flow.
    pub fn take_stdin(&mut self) -> (stdin: Option<Stdio>)
        ensures
            (final(self)@, stdin) == old(self)@.take_stdin(),
            final(self)@.inv(),
    {
        proof {
            use_type_invariant(&*self);
        }
        let mut stdin: Option<Stdio> = None;
        std::mem::swap(&mut stdin, &mut self.state.stdin);
        stdin
    }

    /// Takes the parent's end of the child's standard output away from the
    /// flow.
    pub fn take_stdout(&mut self) -> (stdout: Option<Stdio>)
        ensures
            (final(self)@, stdout) == old(self)@.take_stdout(),
            final(self)@.inv(),
    {
        proof {
            use_type_invariant(&*self);
        }
        let mut stdout: Option<Stdio> = None;
        std::mem::swap(&mut stdout, &mut self.state.stdout);
        stdout
    }

    /// Takes the parent's end of the child's standard error away from the
    /// flow.
    pub fn take_stderr(&mut self) -> (stderr: Option<Stdio>)
        ensures
            (final(self)@, stderr) == old(self)@.take_stderr(),
            final(self)@.inv(),
    {
        proof {
            use_type_invariant(&*self);
        }
        let mut stderr: Option<Stdio> = None;
        std::mem::swap(&mut stderr, &mut self.state.stderr);
        stderr
    }
}

/// Nothing that can be done to a flow breaks what holds of every flow.
pub proof fn lemma_inv_is_kept(flow: SpawnCommandThenWaitView, message: Io, piece: Piece)
    requires
        flow.inv(),
    ensures
        flow.next().0.inv(),
        flow.accept(message).0.inv(),
        flow.without(piece).inv(),
{
}

/// A flow that has just been created hands its command out in its first
/// request. Asked again before it has been given a response, it reports
/// that the command is gone, and does not hand it out a second time.
pub proof fn lemma_command_is_handed_out_once(command: Command)
    ensures
        ({
            let fresh = SpawnCommandThenWaitView::fresh(command);
            let (asked, first) = fresh.next();
            let (asked_again, second) = asked.next();
            &&& fresh.inv()
            &&& first == Some(Io::SpawnThenWait(Err(command)))
            &&& asked.awaiting()
            &&& second == Some(Io::UnavailableInput)
            &&& asked_again == asked
        }),
{
}

/// A flow that has made its request takes a message exactly if the message
/// answers that request: it is a response, and of the variant that the
/// request has.
pub proof fn lemma_takes_the_answer_only(command: Command, message: Io)
    ensures
        ({
            let (asked, request) = SpawnCommandThenWaitView::fresh(command).next();
            &&& request is Some
            &&& request->0.is_request()
            &&& asked.accept(message).1 is Ok <==> message.answers(request->0)
        }),
{
}

/// A flow that has not completed refuses every message that is not a
/// response of its own kind: the message comes back inside
/// [`Io::UnexpectedInput`], the flow is unchanged, and it holds no piece of
/// a result.
pub proof fn lemma_other_message_is_refused(flow: SpawnCommandThenWaitView, message: Io)
    requires
        flow.inv(),
        !flow.completed,
        !SpawnCommandThenWaitView::is_answer(message),
    ensures
        flow.accept(message).1 == Err::<(), Io>(Io::UnexpectedInput(Box::new(message))),
        flow.accept(message).0 == flow,
        flow.accept(message).0.state.holds_no_result(),
{
}

/// A flow takes a response only while it waits for one: before it has
/// handed its command out, and after it has completed, the response is
/// refused and the flow is unchanged.
pub proof fn lemma_untimely_response_is_refused(flow: SpawnCommandThenWaitView, message: Io)
    requires
        !flow.awaiting(),
    ensures
        flow.accept(message).1 == Err::<(), Io>(Io::UnexpectedInput(Box::new(message))),
        flow.accept(message).0 == flow,
{
}

/// Once a flow has accepted its response, it needs nothing more, and each
/// piece of the result comes out once: whatever has been taken before,
/// taking a piece gives what the response held of it if the piece has not
/// been taken yet, and nothing if it has.
pub proof fn lemma_each_piece_is_taken_once(
    flow: SpawnCommandThenWaitView,
    output: SpawnOutput,
    taken: Seq<Piece>,
)
    requires
        flow.inv(),
        flow.awaiting(),
    ensures
        ({
            let (accepted, result) = flow.accept(Io::SpawnThenWait(Ok(output)));
            let later = accepted.without_all(taken);
            &&& result is Ok
            &&& later.inv()
            &&& later.next().1 is None
            &&& later.take_status().1 == if taken.contains(Piece::Status) {
                None
            } else {
                Some(output.status)
            }
            &&& later.take_stdin().1 == if taken.contains(Piece::Stdin) {
                None
            } else {
                output.stdin
            }
            &&& later.take_stdout().1 == if taken.contains(Piece::Stdout) {
                None
            } else {
                output.stdout
            }
            &&& later.take_stderr().1 == if taken.contains(Piece::Stderr) {
                None
            } else {
                output.stderr
            }
        }),
    decreases taken.len(),
{
    if taken.len() > 0 {
        let front = taken.drop_last();
        lemma_each_piece_is_taken_once(flow, output, front);
        assert forall|piece: Piece|
            taken.contains(piece) <==> (front.contains(piece) || taken.last() == piece) by {
            if taken.contains(piece) {
                let i = choose|i: int| 0 <= i < taken.len() && taken[i] == piece;
                if i < taken.len() - 1 {
                    assert(front[i] == piece);
                }
            }
            if front.contains(piece) {
                let i = choose|i: int| 0 <= i < front.len() && front[i] == piece;
                assert(taken[i] == piece);
            }
            if taken.last() == piece {
                assert(taken[taken.len() - 1] == piece);
            }
        }
    }
}

} // verus!
