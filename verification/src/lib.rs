//! I/O-free process flows: state machines that say which process has to be
//! spawned, and the rules by which a runtime answers them.
//!
//! Nothing in this crate touches the operating system. A caller describes
//! a process with a [`Command`], wraps it in a flow, asks the flow what it
//! needs, has a runtime do that, and hands the result back to the flow.

pub mod command;
pub mod coroutines;
pub mod envs;
pub mod flows;
pub mod handlers;
pub mod io;
pub mod launch;
pub mod output;
pub mod state;
pub mod stdio;
pub mod text;

pub use command::Command;
pub use envs::Envs;
pub use io::Io;
pub use output::{ExitStatus, Output, SpawnOutput};
pub use state::State;
pub use stdio::{Handle, Stdio};
