//! Several lives of a virtual machine on one image, with a reboot between them.
//!
//! Each life (a stack of actions) gets its own executor; what the guest wrote
//! to the image stays there for the next life.

use crate::executor::base::{BaseExecutor, ExecutorState, PoweroffOutcome, Reply, Teardown};
use crate::executor::{ExecutorConfig, ExecutorReport};
use crate::ssh::SshAction;
use crate::IoFailure;
use vstd::prelude::*;

verus! {

/// The state of a stack executor, as contracts see it.
pub struct StackState {
    /// Path of the image that every stack runs on.
    pub image: String,
    /// The settings in use.
    pub config: ExecutorConfig,
    /// The reports of the stacks that were finished, oldest first.
    pub reports: Seq<ExecutorReport>,
}

/// Runs stacks of actions on one image and collects their reports.
#[derive(Debug)]
pub struct StackExecutor<'a> {
    config: &'a ExecutorConfig,
    reports: Vec<ExecutorReport>,
    image: String,
}

impl<'a> View for StackExecutor<'a> {
    type V = StackState;

    closed spec fn view(&self) -> StackState {
        StackState { image: self.image, config: *self.config, reports: self.reports@ }
    }
}

/// The stack to open next when `phases` stacks are to be run in order and
/// the run ends with the first stack that is not successful.
pub open spec fn phase_after(reports: Seq<ExecutorReport>, phases: nat) -> Option<nat> {
    if reports.len() > 0 && !reports.last().is_success() {
        None
    } else if reports.len() < phases {
        Some(reports.len())
    } else {
        None
    }
}

/// The action to send next when `steps` actions are to be run in order and
/// the run ends with the first action that is not successful. Without a
/// connection no action is sent.
pub open spec fn step_after(state: ExecutorState, steps: nat) -> Option<nat> {
    if !state.connected {
        None
    } else if state.reports.len() > 0 && !state.reports.last().is_success() {
        None
    } else if state.reports.len() < steps {
        Some(state.reports.len())
    } else {
        None
    }
}

impl<'a> StackExecutor<'a> {
    /// An executor for stacks on `image`, with no report yet.
    pub fn new(config: &'a ExecutorConfig, image: String) -> (executor: Self)
        ensures
            executor@.image == image,
            executor@.config == *config,
            executor@.reports.len() == 0,
    {
        StackExecutor { config, reports: Vec::new(), image }
    }

    /// Path of the image that the stacks run on.
    pub fn image_path(&self) -> (image: &String)
        ensures
            *image == self@.image,
    {
        &self.image
    }

    /// The settings in use.
    pub fn config(&self) -> (config: &'a ExecutorConfig)
        ensures
            *config == self@.config,
    {
        self.config
    }

    /// The number of stacks that were finished.
    pub fn finished(&self) -> (n: usize)
        ensures
            n == self@.reports.len(),
    {
        self.reports.len()
    }

    /// The stack to open next, counted from 0, where a scenario has `phases`
    /// stacks; `None` when the attempt is over, because every stack was run
    /// or because the last one failed.
    pub fn next_phase(&self, phases: usize) -> (next: Option<usize>)
        ensures
            next matches Some(i) ==> phase_after(self@.reports, phases as nat) == Some(i as nat),
            next is None ==> phase_after(self@.reports, phases as nat) is None,
    {
        let done = self.reports.len();
        if done > 0 && !self.reports[done - 1].success() {
            None
        } else if done < phases {
            Some(done)
        } else {
            None
        }
    }

    /// Opens a stack for a machine that was started on the image. `connected`
    /// says whether the SSH connection to it was opened in time.
    pub fn open_stack(&self, connected: bool) -> (stack: Stack<'a>)
        ensures
            stack@.image == self@.image,
            stack@.config == self@.config,
            stack@.connected == connected,
            stack@.reports.len() == 0,
            stack@.wf(),
    {
        Stack { inner: BaseExecutor::new(self.image.clone(), self.config, connected) }
    }

    /// The reports of all stacks that were finished, in order.
    pub fn finish(self) -> (reports: Vec<ExecutorReport>)
        ensures
            reports@ == self@.reports,
    {
        self.reports
    }
}

/// One life of the machine on the image of a [`StackExecutor`].
#[derive(Debug)]
pub struct Stack<'a> {
    inner: BaseExecutor<'a>,
}

impl<'a> View for Stack<'a> {
    type V = ExecutorState;

    closed spec fn view(&self) -> ExecutorState {
        self.inner@
    }
}

impl<'a> Stack<'a> {
    /// Whether the stack has a connection, so that actions can be sent.
    pub fn connected(&self) -> (connected: bool)
        ensures
            connected == self@.connected,
            self@.wf(),
    {
        self.inner.connected()
    }

    /// The settings in use.
    pub fn config(&self) -> (config: &'a ExecutorConfig)
        ensures
            *config == self@.config,
    {
        self.inner.config()
    }

    /// Records what came back for `action` and says whether it succeeded.
    pub fn run(
        &mut self,
        action: SshAction,
        timeout_ms: u64,
        elapsed_ms: u128,
        reply: Reply,
    ) -> (result: Result<bool, IoFailure>)
        ensures
            final(self)@ == old(self)@.after_run(action, timeout_ms, elapsed_ms, reply),
            result == old(self)@.run_result(reply),
            final(self)@.wf(),
    {
        self.inner.run(action, timeout_ms, elapsed_ms, reply)
    }

    /// The action to send next where `steps` actions are to be run until the
    /// first failure: the position of the first action that was not run yet,
    /// or `None` when the stack is to be finished, because every action was
    /// run, because the last one failed, or because there is no connection.
    pub fn run_until_failure(&self, steps: usize) -> (next: Option<usize>)
        ensures
            next matches Some(i) ==> step_after(self@, steps as nat) == Some(i as nat),
            next is None ==> step_after(self@, steps as nat) is None,
    {
        if !self.inner.connected() {
            return None;
        }
        let failed = match self.inner.last_report() {
            Some(report) => !report.success(),
            None => false,
        };
        let done = self.inner.recorded();
        if failed {
            None
        } else if done < steps {
            Some(done)
        } else {
            None
        }
    }

    /// How the machine is to be brought down.
    pub fn shutdown(&self) -> (plan: crate::executor::base::Shutdown)
        ensures
            !self@.connected ==> plan is Kill,
            self@.connected ==> plan == (crate::executor::base::Shutdown::Poweroff {
                command: self@.config.poweroff_command,
                timeout_ms: self@.config.poweroff_timeout,
            }),
    {
        self.inner.shutdown()
    }

    /// Closes the stack and adds its report to those of `parent`. Returns
    /// whether this life of the machine was successful, and what is left to
    /// do with its process.
    pub fn finish(self, outcome: PoweroffOutcome, parent: &mut StackExecutor<'a>) -> (end: (
        bool,
        Teardown,
    ))
        ensures
            final(parent)@.image == old(parent)@.image,
            final(parent)@.config == old(parent)@.config,
            final(parent)@.reports.len() == old(parent)@.reports.len() + 1,
            final(parent)@.reports.drop_last() == old(parent)@.reports,
            final(parent)@.reports.last().image == self@.image,
            final(parent)@.reports.last().ssh_ok == self@.connected,
            final(parent)@.reports.last().action_reports@ == self@.reports,
            final(parent)@.reports.last().exit_ok == self@.exit_clean(outcome),
            end.0 == final(parent)@.reports.last().is_success(),
            end.1 == if self@.exit_clean(outcome) {
                Teardown::Reap
            } else {
                Teardown::KillAndReap
            },
    {
        let (report, teardown) = self.inner.finish(outcome);
        let success = report.success();
        parent.reports.push(report);
        proof {
            assert(parent@.reports.drop_last() =~= old(parent)@.reports);
        }
        (success, teardown)
    }
}

} // verus!
