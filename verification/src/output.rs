//! What a finished child process leaves behind.

use crate::stdio::Stdio;
use vstd::prelude::*;

verus! {

/// How a child process ended.
///
/// `code` holds the exit code of a process that exited by itself, and
/// nothing for one that a signal ended.
#[derive(Clone, Copy, Debug, PartialEq, Eq, Structural)]
pub struct ExitStatus {
    pub code: Option<i32>,
}

impl ExitStatus {
    /// The status of a process that exited with `code`.
    pub fn from_code(code: i32) -> (status: ExitStatus)
        ensures
            status.code == Some(code),
    {
        ExitStatus { code: Some(code) }
    }

    /// Whether the process exited with code zero.
    pub open spec fn is_success(&self) -> bool {
        self.code == Some(0i32)
    }

    /// Whether the process exited with code zero.
    pub fn success(&self) -> (ok: bool)
        ensures
            ok == self.is_success(),
    {
        match self.code {
            Some(code) => code == 0,
            None => false,
        }
    }
}

/// What a child process left behind once it was waited for with its
/// output collected: how it ended, and all that it wrote.
#[derive(Debug, PartialEq, Eq)]
pub struct Output {
    pub status: ExitStatus,
    pub stdout: Vec<u8>,
    pub stderr: Vec<u8>,
}

/// What a child process left behind once it was waited for: how it ended,
/// and the parent's ends of those of its streams that were piped.
#[derive(Debug, PartialEq, Eq)]
pub struct SpawnOutput {
    pub status: ExitStatus,
    pub stdin: Option<Stdio>,
    pub stdout: Option<Stdio>,
    pub stderr: Option<Stdio>,
}

} // verus!
