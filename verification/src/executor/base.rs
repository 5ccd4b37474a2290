//! The record of one life of a virtual machine: connect, run actions, go down.
//!
//! The program around the library opens the connection, sends each action and
//! waits for the machine. The executor decides what is recorded for each
//! reply, whether the action counts as a success, how the machine is to be
//! brought down, and what the final report says.

use crate::executor::{ActionReport, ExecutorConfig, ExecutorReport};
use crate::ssh::SshAction;
use crate::{IoFailure, Output};
use vstd::prelude::*;

verus! {

/// What came back for an action that was sent to the guest.
#[derive(Debug)]
pub enum Reply {
    /// The worker answered with an output.
    Answered(Output),
    /// The action's time limit passed before an answer came.
    Expired,
    /// The worker that owns the connection is gone.
    WorkerDied(IoFailure),
}

/// How a machine is to be brought down.
#[derive(Debug)]
pub enum Shutdown {
    /// There is no connection: kill the machine and wait for its end.
    Kill,
    /// Run `command` on the guest, then wait at most `timeout_ms` for the
    /// machine to end by itself.
    Poweroff {
        /// The command that shuts the guest down.
        command: String,
        /// The time limit for command and exit together, in milliseconds.
        timeout_ms: u64,
    },
}

/// What became of the attempt to shut a machine down.
#[derive(Debug)]
pub enum PoweroffOutcome {
    /// No shutdown was attempted.
    Skipped,
    /// The machine ended by itself within the time limit.
    Exited,
    /// The time limit passed while the machine was still running.
    Expired,
    /// Sending the command or watching the machine failed.
    Failed(IoFailure),
}

/// What is left to do with the machine's process once the report is made.
#[derive(Clone, Copy, Debug, PartialEq, Eq, Structural)]
pub enum Teardown {
    /// The process has ended: collect it.
    Reap,
    /// The process may still run: kill it, then collect it.
    KillAndReap,
}

/// The state of an executor, as contracts see it.
pub struct ExecutorState {
    /// Path of the image that the machine runs on.
    pub image: String,
    /// The settings in use.
    pub config: ExecutorConfig,
    /// Whether the SSH connection was opened.
    pub connected: bool,
    /// The actions recorded so far, oldest first.
    pub reports: Seq<ActionReport>,
}

/// Records what is run on one virtual machine.
#[derive(Debug)]
pub struct BaseExecutor<'a> {
    image: String,
    config: &'a ExecutorConfig,
    ssh: bool,
    reports: Vec<ActionReport>,
}

impl<'a> View for BaseExecutor<'a> {
    type V = ExecutorState;

    closed spec fn view(&self) -> ExecutorState {
        ExecutorState {
            image: self.image,
            config: *self.config,
            connected: self.ssh,
            reports: self.reports@,
        }
    }
}

impl ExecutorState {
    /// Without a connection nothing is ever recorded.
    pub open spec fn wf(&self) -> bool {
        !self.connected ==> self.reports.len() == 0
    }

    /// The report that `action` gets for `reply`, if it gets one.
    pub open spec fn report_for(
        action: SshAction,
        timeout_ms: u64,
        elapsed_ms: u128,
        reply: Reply,
    ) -> Option<ActionReport> {
        match reply {
            Reply::Answered(output) => Some(
                ActionReport {
                    action,
                    timeout_ms: timeout_ms as u128,
                    elapsed_time_ms: elapsed_ms,
                    output,
                },
            ),
            Reply::Expired => Some(
                ActionReport {
                    action,
                    timeout_ms: timeout_ms as u128,
                    elapsed_time_ms: elapsed_ms,
                    output: Output::Timeout,
                },
            ),
            Reply::WorkerDied(_) => None,
        }
    }

    /// The state after `reply` came back for `action`.
    pub open spec fn after_run(
        self,
        action: SshAction,
        timeout_ms: u64,
        elapsed_ms: u128,
        reply: Reply,
    ) -> ExecutorState {
        match Self::report_for(action, timeout_ms, elapsed_ms, reply) {
            Some(report) if self.connected => ExecutorState {
                reports: self.reports.push(report),
                ..self
            },
            _ => self,
        }
    }

    /// What `run` returns for `reply`.
    pub open spec fn run_result(self, reply: Reply) -> Result<bool, IoFailure> {
        if !self.connected {
            Ok(false)
        } else {
            match reply {
                Reply::Answered(output) => Ok(output.is_success()),
                Reply::Expired => Ok(false),
                Reply::WorkerDied(error) => Err(error),
            }
        }
    }

    /// Whether the machine counts as having gone down cleanly.
    pub open spec fn exit_clean(self, outcome: PoweroffOutcome) -> bool {
        self.connected && outcome is Exited
    }
}

impl<'a> BaseExecutor<'a> {
    #[verifier::type_invariant]
    spec fn inv(&self) -> bool {
        self@.wf()
    }

    /// An executor for the machine that runs on `image`. `connected` says
    /// whether the SSH connection was opened within the configured time; an
    /// executor without a connection records nothing.
    pub fn new(image: String, config: &'a ExecutorConfig, connected: bool) -> (executor: Self)
        ensures
            executor@.image == image,
            executor@.config == *config,
            executor@.connected == connected,
            executor@.reports.len() == 0,
            executor@.wf(),
    {
        BaseExecutor { image, config, ssh: connected, reports: Vec::new() }
    }

    /// Whether the executor has a connection, so that actions can be sent.
    pub fn connected(&self) -> (connected: bool)
        ensures
            connected == self@.connected,
            self@.wf(),
    {
        proof {
            use_type_invariant(self);
        }
        self.ssh
    }

    /// The settings in use.
    pub fn config(&self) -> (config: &'a ExecutorConfig)
        ensures
            *config == self@.config,
    {
        self.config
    }

    /// Path of the image that the machine runs on.
    pub fn image_path(&self) -> (image: &String)
        ensures
            *image == self@.image,
    {
        &self.image
    }

    /// The number of actions recorded so far.
    pub fn recorded(&self) -> (n: usize)
        ensures
            n == self@.reports.len(),
    {
        self.reports.len()
    }

    /// The most recent record, if there is one.
    pub fn last_report(&self) -> (last: Option<&ActionReport>)
        ensures
            last is Some <==> self@.reports.len() > 0,
            last matches Some(report) ==> *report == self@.reports.last(),
    {
        let n = self.reports.len();
        if n == 0 {
            None
        } else {
            Some(&self.reports[n - 1])
        }
    }

    /// Records what came back for `action` and says whether it succeeded.
    ///
    /// Without a connection nothing is recorded and the answer is "not ok".
    /// An answer is recorded as it came, a passed time limit as
    /// [`Output::Timeout`]. Where the worker died nothing is recorded and its
    /// error is returned. `timeout_ms` is the time the action was allowed,
    /// `elapsed_ms` the time it took.
    pub fn run(
        &mut self,
        action: SshAction,
        timeout_ms: u64,
        elapsed_ms: u128,
        reply: Reply,
    ) -> (result: Result<bool, IoFailure>)
        ensures
            final(self)@ == old(self)@.after_run(action, timeout_ms, elapsed_ms, reply),
            result == old(self)@.run_result(reply),
            final(self)@.wf(),
    {
        proof {
            use_type_invariant(&*self);
        }
        if !self.ssh {
            return Ok(false);
        }
        let output = match reply {
            Reply::Answered(output) => output,
            Reply::Expired => Output::Timeout,
            Reply::WorkerDied(error) => {
                return Err(error);
            },
        };
        let success = output.success();
        let report = ActionReport {
            action,
            timeout_ms: timeout_ms as u128,
            elapsed_time_ms: elapsed_ms,
            output,
        };
        let mut taken = BaseExecutor {
            image: String::new(),
            config: self.config,
            ssh: true,
            reports: Vec::new(),
        };
        core::mem::swap(self, &mut taken);
        let BaseExecutor { image, config, ssh, mut reports } = taken;
        reports.push(report);
        *self = BaseExecutor { image, config, ssh, reports };
        Ok(success)
    }

    /// How the machine is to be brought down: by the configured poweroff
    /// command where there is a connection, by force where there is none.
    pub fn shutdown(&self) -> (plan: Shutdown)
        ensures
            !self@.connected ==> plan is Kill,
            self@.connected ==> plan == (Shutdown::Poweroff {
                command: self@.config.poweroff_command,
                timeout_ms: self@.config.poweroff_timeout,
            }),
    {
        if self.ssh {
            Shutdown::Poweroff {
                command: self.config.poweroff_command.clone(),
                timeout_ms: self.config.poweroff_timeout,
            }
        } else {
            Shutdown::Kill
        }
    }

    /// Closes the record. The report lists the recorded actions in order; the
    /// poweroff command is not among them. The exit is clean only where there
    /// was a connection and the machine ended by itself in time; in every
    /// other case the machine has to be killed.
    pub fn finish(self, outcome: PoweroffOutcome) -> (end: (ExecutorReport, Teardown))
        ensures
            end.0.image == self@.image,
            end.0.ssh_ok == self@.connected,
            end.0.action_reports@ == self@.reports,
            end.0.exit_ok == self@.exit_clean(outcome),
            end.1 == if end.0.exit_ok {
                Teardown::Reap
            } else {
                Teardown::KillAndReap
            },
            !end.0.ssh_ok ==> end.0.action_reports@.len() == 0 && !end.0.exit_ok,
    {
        proof {
            use_type_invariant(&self);
        }
        let exit_ok = self.ssh && match outcome {
            PoweroffOutcome::Exited => true,
            _ => false,
        };
        let teardown = if exit_ok {
            Teardown::Reap
        } else {
            Teardown::KillAndReap
        };
        let BaseExecutor { image, config: _, ssh, reports } = self;
        (ExecutorReport { image, ssh_ok: ssh, action_reports: reports, exit_ok }, teardown)
    }
}

} // verus!
