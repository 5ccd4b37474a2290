//! Verified core of a grading harness for kernel patches.
//!
//! The harness boots virtual machines, installs a patch, builds a kernel and
//! runs regression tests over SSH. This library holds the rules of that
//! process: what is a valid input, which command line a tool is started with,
//! how a monitor reply is read, how reports are built and judged, when a
//! scenario is retried, and how results are counted and printed. The program
//! around it does the waiting, the process handling and the file access, and
//! hands plain values in and out.

pub mod config;
pub mod executor;
pub mod monitor;
pub mod names;
pub mod patch_validator;
pub mod printer;
pub mod qemu;
pub mod ssh;
pub mod stats;
pub mod tasks;
pub mod tester;
pub mod text;
pub mod timeout;

use vstd::prelude::*;

verus! {

/// The class of an input/output failure, as far as the harness tells them apart.
#[derive(Clone, Copy, Debug, PartialEq, Eq, Structural)]
pub enum IoKind {
    /// The requested entity does not exist.
    NotFound,
    /// The entity to create exists already.
    AlreadyExists,
    /// A deadline passed.
    TimedOut,
    /// Any other failure.
    Other,
}

/// An input/output failure: its class and a message for people.
#[derive(Debug)]
pub struct IoFailure {
    /// The class of the failure.
    pub kind: IoKind,
    /// Text for logs and reports.
    pub message: String,
}

/// The result of running one action on a guest.
#[derive(Debug)]
pub enum Output {
    /// The action ran to its end and its output was collected.
    Finished {
        /// Exit code of the process.
        exit_code: i32,
        /// What the process wrote to its standard output.
        stdout: Vec<u8>,
        /// What the process wrote to its standard error.
        stderr: Vec<u8>,
    },
    /// The action did not end within its time limit.
    Timeout,
    /// The connection failed while the action ran.
    Error {
        /// The failure.
        error: IoFailure,
    },
}

/// What creating a directory with all its parents came to, where a directory
/// that exists already is as good as a new one: that one failure counts as
/// success, every other one is handed on.
pub fn prepare_dir(created: Result<(), IoFailure>) -> (ready: Result<(), IoFailure>)
    ensures
        ready == match created {
            Err(error) if error.kind != IoKind::AlreadyExists => Err::<(), IoFailure>(error),
            _ => Ok::<(), IoFailure>(()),
        },
{
    match created {
        Ok(()) => Ok(()),
        Err(error) => {
            if error.kind == IoKind::AlreadyExists {
                Ok(())
            } else {
                Err(error)
            }
        },
    }
}

impl Output {
    /// Whether this output counts as success: the action ended with exit code 0.
    pub open spec fn is_success(&self) -> bool {
        self matches Output::Finished { exit_code, .. } && exit_code == 0
    }

    /// Whether the action ended with exit code 0.
    pub fn success(&self) -> (ok: bool)
        ensures
            ok == self.is_success(),
    {
        match self {
            Output::Finished { exit_code, .. } => *exit_code == 0,
            _ => false,
        }
    }

    /// The collected standard output, if the action ran to its end.
    pub fn stdout(&self) -> (out: Option<&[u8]>)
        ensures
            out is Some <==> self is Finished,
            out matches Some(bytes) ==> bytes@ == self->stdout@,
    {
        match self {
            Output::Finished { stdout, .. } => Some(stdout.as_slice()),
            _ => None,
        }
    }

    /// The collected standard error, if the action ran to its end.
    pub fn stderr(&self) -> (out: Option<&[u8]>)
        ensures
            out is Some <==> self is Finished,
            out matches Some(bytes) ==> bytes@ == self->stderr@,
    {
        match self {
            Output::Finished { stderr, .. } => Some(stderr.as_slice()),
            _ => None,
        }
    }
}

} // verus!
