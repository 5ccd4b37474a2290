//! The values that a suite configuration has where it names none.

use vstd::prelude::*;

verus! {

/// The user that runs the actions: `root`.
pub fn user() -> (user: String)
    ensures
        user@ == "root"@,
{
    "root".to_owned()
}

/// The password of that user: `password`.
pub fn password() -> (password: String)
    ensures
        password@ == "password"@,
{
    "password".to_owned()
}

/// Twenty seconds, in milliseconds: the time allowed for opening the SSH
/// connection and for the machine to go down.
pub fn timeout_20_s() -> (ms: u64)
    ensures
        ms == 20_000,
{
    20 * 1000
}

/// The command that shuts the guest down: `/sbin/poweroff`.
pub fn poweroff_command() -> (command: String)
    ensures
        command@ == "/sbin/poweroff"@,
{
    "/sbin/poweroff".to_owned()
}

/// The number of retries of a scenario: 3.
pub fn retries() -> (retries: usize)
    ensures
        retries == 3,
{
    3
}

/// Five seconds, in milliseconds: the time allowed for one step.
pub fn timeout_5_s() -> (ms: u64)
    ensures
        ms == 5_000,
{
    5 * 1000
}

} // verus!
