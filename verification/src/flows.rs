//! Flows as state machines: a flow says what it needs next, is given the
//! answer, and keeps the result until its pieces are taken.
//!
//! A flow never touches the operating system. It emits a request in the
//! shape of an [`Io`](crate::Io) message, a runtime does what is asked and
//! answers with a message of the same kind, and the flow stores what the
//! answer holds.

pub mod spawn_then_wait;
pub mod spawn_then_wait_with_output;

pub use spawn_then_wait::SpawnCommandThenWait;
pub use spawn_then_wait_with_output::SpawnCommandThenWaitWithOutput;
