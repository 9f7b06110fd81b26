//! Stream handles and stream configuration.

use vstd::prelude::*;

verus! {

/// The name of a stream that a runtime holds open: its raw descriptor.
///
/// The runtime that made the handle keeps the stream, and gives it up for
/// the handle. A handle is not `Clone`: whoever holds the value is the one
/// who may have the stream, and handing the value on hands that on.
#[derive(Debug, PartialEq, Eq, Structural)]
pub struct Handle {
    pub raw: i32,
}

impl Handle {
    /// Names the stream with raw descriptor `raw`.
    pub fn from_raw(raw: i32) -> (handle: Handle)
        ensures
            handle.raw == raw,
    {
        Handle { raw }
    }

    /// Gives the raw descriptor up to the caller.
    pub fn into_raw(self) -> (raw: i32)
        ensures
            raw == self.raw,
    {
        self.raw
    }
}

/// What a standard stream of a child process is connected to.
#[derive(Debug, PartialEq, Eq, Structural)]
pub enum Stdio {
    /// The stream of the parent process.
    Inherit,
    /// Nothing: reads end at once, writes are discarded.
    Null,
    /// A new pipe, whose other end the parent gets.
    Piped,
    /// A stream that is already open.
    Handle(Handle),
}

impl Stdio {
    /// The stream behind `handle`.
    pub fn from_handle(handle: Handle) -> (stdio: Stdio)
        ensures
            stdio == Stdio::Handle(handle),
    {
        Stdio::Handle(handle)
    }
}

} // verus!
