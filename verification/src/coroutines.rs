//! Flows as coroutines: a flow is resumed with the answer to its last
//! request, and hands back either its result or its next request.
//!
//! A coroutine keeps nothing but the command it still has to hand out; the
//! result passes through it to the caller in one piece.

pub mod spawn_then_wait;
pub mod spawn_then_wait_with_output;

pub use spawn_then_wait::SpawnThenWait;
pub use spawn_then_wait_with_output::SpawnThenWaitWithOutput;
