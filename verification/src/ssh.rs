//! Actions that run on a guest over SSH, and what becomes of their replies.

use crate::{IoFailure, Output};
use vstd::prelude::*;

verus! {

/// The file mode of every file that is sent to a guest.
pub const SEND_MODE: i32 = 0o777;

/// What can be asked of a guest.
#[derive(Debug)]
pub enum SshAction {
    /// Run a command on the guest.
    Exec {
        /// The command line.
        cmd: String,
    },
    /// Copy a file to the guest. The copy gets the mode [`SEND_MODE`].
    Send {
        /// Path of the source on the host.
        from: String,
        /// Path of the destination on the guest.
        to: String,
    },
}

impl Clone for SshAction {
    fn clone(&self) -> (copy: Self)
        ensures
            copy == *self,
    {
        match self {
            SshAction::Exec { cmd } => SshAction::Exec { cmd: cmd.clone() },
            SshAction::Send { from, to } => SshAction::Send { from: from.clone(), to: to.clone() },
        }
    }
}

/// The first `limit` items of `bytes`, or all of them where no limit is set.
pub open spec fn capped(bytes: Seq<u8>, limit: Option<u64>) -> Seq<u8> {
    match limit {
        Some(n) if n < bytes.len() => bytes.take(n as int),
        _ => bytes,
    }
}

/// Cuts `bytes` down to `limit` items; what lies beyond is dropped.
pub fn cap_output(bytes: Vec<u8>, limit: Option<u64>) -> (kept: Vec<u8>)
    ensures
        kept@ == capped(bytes@, limit),
{
    let mut kept = bytes;
    if let Some(n) = limit {
        if n < kept.len() as u64 {
            kept.truncate(n as usize);
        }
    }
    kept
}

impl Output {
    /// The output of a command that ran to its end, each stream cut down to
    /// `limit` bytes. With a limit of zero both streams are empty.
    pub fn finished(exit_code: i32, stdout: Vec<u8>, stderr: Vec<u8>, limit: Option<u64>) -> (out:
        Output)
        ensures
            out == (Output::Finished {
                exit_code,
                stdout: out->stdout,
                stderr: out->stderr,
            }),
            out->stdout@ == capped(stdout@, limit),
            out->stderr@ == capped(stderr@, limit),
            limit == Some(0u64) ==> out->stdout@.len() == 0 && out->stderr@.len() == 0,
            limit is None ==> out->stdout@ == stdout@ && out->stderr@ == stderr@,
    {
        Output::Finished {
            exit_code,
            stdout: cap_output(stdout, limit),
            stderr: cap_output(stderr, limit),
        }
    }

    /// The output of a file transfer: on success exit code 0 and no bytes, on
    /// failure the error.
    pub fn sent(result: Result<(), IoFailure>) -> (out: Output)
        ensures
            result is Ok ==> out is Finished && out->exit_code == 0 && out->stdout@.len() == 0
                && out->stderr@.len() == 0,
            result matches Err(error) ==> out == (Output::Error { error }),
            result is Ok ==> out.is_success(),
    {
        match result {
            Ok(()) => Output::Finished { exit_code: 0, stdout: Vec::new(), stderr: Vec::new() },
            Err(error) => Output::Error { error },
        }
    }
}

} // verus!
