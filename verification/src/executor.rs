//! Reports of what was run on one virtual machine, and the settings for running it.

pub mod base;
pub mod stack;

use crate::ssh::SshAction;
use crate::Output;
use vstd::prelude::*;

verus! {

/// Settings for driving a virtual machine over SSH. Times are in milliseconds.
#[derive(Debug)]
pub struct ExecutorConfig {
    /// The user that runs the actions.
    pub user: String,
    /// The password of that user.
    pub password: String,
    /// Time allowed for opening the SSH connection.
    pub connection_timeout: u64,
    /// Time allowed for the machine to go down after the poweroff command.
    pub poweroff_timeout: u64,
    /// The command that shuts the machine down.
    pub poweroff_command: String,
    /// Limit for the standard output and standard error of each command.
    pub output_limit: Option<u64>,
}

impl Clone for ExecutorConfig {
    fn clone(&self) -> (copy: Self)
        ensures
            copy == *self,
    {
        ExecutorConfig {
            user: self.user.clone(),
            password: self.password.clone(),
            connection_timeout: self.connection_timeout,
            poweroff_timeout: self.poweroff_timeout,
            poweroff_command: self.poweroff_command.clone(),
            output_limit: self.output_limit,
        }
    }
}

impl ExecutorConfig {
    /// A simple configuration for trials: user `root` with password `root`,
    /// twenty seconds for each of the two limits, `/sbin/poweroff`, no output limit.
    pub fn test() -> (config: Self)
        ensures
            config.user@ == "root"@,
            config.password@ == "root"@,
            config.connection_timeout == 20_000,
            config.poweroff_timeout == 20_000,
            config.poweroff_command@ == "/sbin/poweroff"@,
            config.output_limit is None,
    {
        ExecutorConfig {
            user: "root".to_owned(),
            password: "root".to_owned(),
            connection_timeout: 20_000,
            poweroff_timeout: 20_000,
            poweroff_command: "/sbin/poweroff".to_owned(),
            output_limit: None,
        }
    }
}

/// What became of one action.
#[derive(Debug)]
pub struct ActionReport {
    /// The action.
    pub action: SshAction,
    /// The time the action was allowed, in milliseconds.
    pub timeout_ms: u128,
    /// The time the action took, in milliseconds.
    pub elapsed_time_ms: u128,
    /// The result.
    pub output: Output,
}

impl ActionReport {
    /// An action is successful when it ended with exit code 0.
    pub open spec fn is_success(&self) -> bool {
        self.output.is_success()
    }

    /// The executed action.
    pub fn action(&self) -> (action: &SshAction)
        ensures
            *action == self.action,
    {
        &self.action
    }

    /// The time the action was allowed, in milliseconds.
    pub fn timeout_ms(&self) -> (ms: u128)
        ensures
            ms == self.timeout_ms,
    {
        self.timeout_ms
    }

    /// The time the action took, in milliseconds.
    pub fn elapsed_time_ms(&self) -> (ms: u128)
        ensures
            ms == self.elapsed_time_ms,
    {
        self.elapsed_time_ms
    }

    /// The result of the action.
    pub fn output(&self) -> (output: &Output)
        ensures
            *output == self.output,
    {
        &self.output
    }

    /// Whether the action ended with exit code 0.
    pub fn success(&self) -> (ok: bool)
        ensures
            ok == self.is_success(),
    {
        self.output.success()
    }
}

/// Whether every report in `reports` is successful.
pub open spec fn all_successful(reports: Seq<ActionReport>) -> bool {
    forall|i: int| 0 <= i < reports.len() ==> (#[trigger] reports[i]).is_success()
}

/// Whether every report in `reports` is successful.
pub fn all_actions_successful(reports: &Vec<ActionReport>) -> (ok: bool)
    ensures
        ok == all_successful(reports@),
{
    let mut i: usize = 0;
    while i < reports.len()
        invariant
            i <= reports@.len(),
            forall|j: int| 0 <= j < i ==> (#[trigger] reports@[j]).is_success(),
        decreases reports@.len() - i,
    {
        if !reports[i].success() {
            return false;
        }
        i += 1;
    }
    true
}

/// What happened during one life of a virtual machine.
#[derive(Debug)]
pub struct ExecutorReport {
    /// Path of the image that the machine ran on.
    pub image: String,
    /// Whether the SSH connection was opened.
    pub ssh_ok: bool,
    /// The actions that were run, in the order in which they returned.
    pub action_reports: Vec<ActionReport>,
    /// Whether the machine went down by itself after the poweroff command.
    pub exit_ok: bool,
}

impl ExecutorReport {
    /// A machine's life is successful when the connection was opened, every
    /// action succeeded and the machine went down cleanly.
    pub open spec fn is_success(&self) -> bool {
        self.ssh_ok && all_successful(self.action_reports@) && self.exit_ok
    }

    /// Path of the image that the actions ran on.
    pub fn image(&self) -> (image: &String)
        ensures
            *image == self.image,
    {
        &self.image
    }

    /// Whether the SSH connection was opened.
    pub fn ssh_ok(&self) -> (ok: bool)
        ensures
            ok == self.ssh_ok,
    {
        self.ssh_ok
    }

    /// The reports of the actions that were run.
    pub fn action_reports(&self) -> (reports: &[ActionReport])
        ensures
            reports@ == self.action_reports@,
    {
        self.action_reports.as_slice()
    }

    /// Whether the machine went down by itself after the poweroff command.
    pub fn exit_ok(&self) -> (ok: bool)
        ensures
            ok == self.exit_ok,
    {
        self.exit_ok
    }

    /// Whether this life of the machine was successful.
    pub fn success(&self) -> (ok: bool)
        ensures
            ok == self.is_success(),
    {
        self.ssh_ok && all_actions_successful(&self.action_reports) && self.exit_ok
    }
}

/// A successful report has an open connection, a clean exit, and only
/// successful actions.
pub proof fn lemma_success_of_executor_report(report: ExecutorReport)
    requires
        report.is_success(),
    ensures
        report.ssh_ok,
        report.exit_ok,
        forall|i: int|
            0 <= i < report.action_reports@.len() ==> (
            #[trigger] report.action_reports@[i]).output.is_success(),
{
}

} // verus!
