//! The suite configuration as it is written down, and what it means.
//!
//! A suite file names its scenarios with optional time limits and retries.
//! The functions here fill in the suite's defaults and turn the written form
//! into the [`RunConfig`] that the process runs on.

pub mod defaults;

use crate::executor::ExecutorConfig;
use crate::names::NameMap;
use crate::ssh::SshAction;
use crate::tester::{RunConfig, Scenario, Step};
use crate::text::{join_path, joined};
use crate::IoFailure;
use vstd::prelude::*;

verus! {

/// Why a suite configuration could not be read.
#[derive(Debug)]
pub enum ConfigError {
    /// The file's content is not a suite configuration; the text says why.
    Serde(String),
    /// The file, or a file that it names, could not be read.
    Io(IoFailure),
    /// The path of the file has no parent directory.
    NoParent,
}

/// One step of a scenario as the suite file writes it. Times are in milliseconds.
#[derive(Debug)]
pub enum StepConfig {
    /// Copy a file from the host to the guest.
    FileTransfer {
        /// Path of the source on the host.
        from: String,
        /// Path of the destination on the guest.
        to: String,
        /// The time limit of the transfer, if the step has its own.
        timeout_ms: Option<u64>,
    },
    /// Copy the patch to the guest.
    PatchTransfer {
        /// Path of the destination on the guest.
        to: String,
        /// The time limit of the transfer, if the step has its own.
        timeout_ms: Option<u64>,
    },
    /// Run a command on the guest.
    Command {
        /// The command line.
        command: String,
        /// The time limit of the command, if the step has its own.
        timeout_ms: Option<u64>,
    },
}

/// A time limit: the step's own, or the default.
pub open spec fn timeout_or(timeout_ms: Option<u64>, default_timeout: u64) -> u64 {
    match timeout_ms {
        Some(ms) => ms,
        None => default_timeout,
    }
}

impl StepConfig {
    /// The step that this configuration stands for where steps without a time
    /// limit of their own get `default_timeout`.
    pub open spec fn spec_step(&self, default_timeout: u64) -> Step {
        match self {
            StepConfig::FileTransfer { from, to, timeout_ms } => Step::Action {
                action: SshAction::Send { from: *from, to: *to },
                timeout: timeout_or(*timeout_ms, default_timeout),
            },
            StepConfig::PatchTransfer { to, timeout_ms } => Step::TransferPatch {
                to: *to,
                timeout: timeout_or(*timeout_ms, default_timeout),
            },
            StepConfig::Command { command, timeout_ms } => Step::Action {
                action: SshAction::Exec { cmd: *command },
                timeout: timeout_or(*timeout_ms, default_timeout),
            },
        }
    }

    /// The step that this configuration stands for; see [`Self::into_step`].
    pub fn to_step(&self, default_timeout: u64) -> (step: Step)
        ensures
            step == self.spec_step(default_timeout),
    {
        match self {
            StepConfig::FileTransfer { from, to, timeout_ms } => Step::Action {
                action: SshAction::Send { from: from.clone(), to: to.clone() },
                timeout: match timeout_ms {
                    Some(ms) => *ms,
                    None => default_timeout,
                },
            },
            StepConfig::PatchTransfer { to, timeout_ms } => Step::TransferPatch {
                to: to.clone(),
                timeout: match timeout_ms {
                    Some(ms) => *ms,
                    None => default_timeout,
                },
            },
            StepConfig::Command { command, timeout_ms } => Step::Action {
                action: SshAction::Exec { cmd: command.clone() },
                timeout: match timeout_ms {
                    Some(ms) => *ms,
                    None => default_timeout,
                },
            },
        }
    }

    /// Turns the configuration into a step: a file transfer becomes a send
    /// action, a patch transfer stays a patch transfer, a command becomes an
    /// exec action. A step without a time limit of its own gets
    /// `default_timeout`.
    pub fn into_step(self, default_timeout: u64) -> (step: Step)
        ensures
            step == self.spec_step(default_timeout),
    {
        match self {
            StepConfig::FileTransfer { from, to, timeout_ms } => Step::Action {
                action: SshAction::Send { from, to },
                timeout: match timeout_ms {
                    Some(ms) => ms,
                    None => default_timeout,
                },
            },
            StepConfig::PatchTransfer { to, timeout_ms } => Step::TransferPatch {
                to,
                timeout: match timeout_ms {
                    Some(ms) => ms,
                    None => default_timeout,
                },
            },
            StepConfig::Command { command, timeout_ms } => Step::Action {
                action: SshAction::Exec { cmd: command },
                timeout: match timeout_ms {
                    Some(ms) => ms,
                    None => default_timeout,
                },
            },
        }
    }

    /// The path that a file transfer reads from, seen from the directory
    /// `base`; `None` for the other steps, which name no file of the host.
    /// This is the path to resolve before the suite is run.
    pub fn source(&self, base: &str) -> (source: Option<String>)
        ensures
            self is FileTransfer <==> source is Some,
            source matches Some(path) ==> path@ == joined(base@, self->from@),
    {
        match self {
            StepConfig::FileTransfer { from, .. } => Some(join_path(base, from.as_str())),
            _ => None,
        }
    }

    /// Replaces the source of a file transfer by its resolved path
    /// `normalized`. The other steps stay as they are.
    pub fn normalize_path(&mut self, normalized: String)
        ensures
            *old(self) is FileTransfer ==> *final(self) == (StepConfig::FileTransfer {
                from: normalized,
                to: (*old(self))->FileTransfer_to,
                timeout_ms: (*old(self))->FileTransfer_timeout_ms,
            }),
            !(*old(self) is FileTransfer) ==> *final(self) == *old(self),
    {
        match self {
            StepConfig::FileTransfer { from, .. } => {
                *from = normalized;
            },
            _ => {},
        }
    }
}

/// A scenario as the suite file writes it.
#[derive(Debug)]
pub struct ScenarioConfig {
    /// The number of retries, if the scenario has its own.
    pub retries: Option<usize>,
    /// The phases, each a list of steps.
    pub steps: Vec<Vec<StepConfig>>,
}

/// Whether `scenario` is what `config` stands for with the given defaults:
/// the retries are the scenario's own or the default, and each step is
/// converted in its place.
pub open spec fn scenario_of(
    config: ScenarioConfig,
    default_retries: usize,
    default_timeout: u64,
    scenario: Scenario,
) -> bool {
    &&& scenario.retries == match config.retries {
        Some(retries) => retries,
        None => default_retries,
    }
    &&& scenario.steps@.len() == config.steps@.len()
    &&& forall|i: int|
        0 <= i < config.steps@.len() ==> phase_of(
            config.steps@[i]@,
            default_timeout,
            (#[trigger] scenario.steps@[i])@,
        )
}

/// Whether `phase` holds the steps that `config` stands for, in order.
pub open spec fn phase_of(config: Seq<StepConfig>, default_timeout: u64, phase: Seq<Step>) -> bool {
    &&& phase.len() == config.len()
    &&& forall|j: int|
        0 <= j < config.len() ==> #[trigger] phase[j] == config[j].spec_step(default_timeout)
}

impl ScenarioConfig {
    /// The scenario that this configuration stands for; see
    /// [`Self::into_scenario`].
    pub fn to_scenario(&self, default_retries: usize, default_timeout: u64) -> (scenario: Scenario)
        ensures
            scenario_of(*self, default_retries, default_timeout, scenario),
    {
        let mut steps: Vec<Vec<Step>> = Vec::new();
        let mut i: usize = 0;
        while i < self.steps.len()
            invariant
                i <= self.steps@.len(),
                steps@.len() == i,
                forall|k: int|
                    0 <= k < i ==> phase_of(
                        self.steps@[k]@,
                        default_timeout,
                        (#[trigger] steps@[k])@,
                    ),
            decreases self.steps@.len() - i,
        {
            let phase_config = &self.steps[i];
            let mut phase: Vec<Step> = Vec::new();
            let mut j: usize = 0;
            while j < phase_config.len()
                invariant
                    j <= phase_config@.len(),
                    phase@.len() == j,
                    forall|k: int|
                        0 <= k < j ==> #[trigger] phase@[k] == phase_config@[k].spec_step(
                            default_timeout,
                        ),
                decreases phase_config@.len() - j,
            {
                phase.push(phase_config[j].to_step(default_timeout));
                j += 1;
            }
            steps.push(phase);
            i += 1;
        }
        Scenario {
            retries: match self.retries {
                Some(retries) => retries,
                None => default_retries,
            },
            steps,
        }
    }

    /// Turns the configuration into a scenario. A scenario without a number
    /// of retries of its own gets `default_retries`, a step without a time
    /// limit of its own gets `default_timeout`. Phases and steps keep their
    /// order.
    pub fn into_scenario(self, default_retries: usize, default_timeout: u64) -> (scenario: Scenario)
        ensures
            scenario_of(self, default_retries, default_timeout, scenario),
    {
        self.to_scenario(default_retries, default_timeout)
    }
}

/// A suite configuration as the suite file writes it, with the suite's
/// defaults filled in. Times are in milliseconds.
#[derive(Debug)]
pub struct Config {
    /// The user that runs the actions.
    pub user: String,
    /// The password of that user.
    pub password: String,
    /// Time allowed for opening the SSH connection.
    pub ssh_timeout_ms: u64,
    /// Time allowed for the machine to go down.
    pub poweroff_timeout_ms: u64,
    /// The command that shuts the guest down.
    pub poweroff_command: String,
    /// The retries of scenarios that name none.
    pub retries: usize,
    /// The time limit of steps that name none.
    pub step_timeout_ms: u64,
    /// The build scenario, if there is one.
    pub build: Option<ScenarioConfig>,
    /// The test scenarios, by name.
    pub tests: NameMap<ScenarioConfig>,
    /// Limit for the standard output and standard error of each command.
    pub output_limit: Option<u64>,
}

/// Whether `run` is what `config` stands for: the shared settings are taken
/// over, a missing build scenario is one without phases and retries, and
/// every scenario gets the suite's defaults.
pub open spec fn run_config_of(config: Config, run: RunConfig) -> bool {
    &&& run.execution == ExecutorConfig {
        user: config.user,
        password: config.password,
        connection_timeout: config.ssh_timeout_ms,
        poweroff_timeout: config.poweroff_timeout_ms,
        poweroff_command: config.poweroff_command,
        output_limit: config.output_limit,
    }
    &&& match config.build {
        Some(build) => scenario_of(build, config.retries, config.step_timeout_ms, run.build),
        None => run.build.retries == 0 && run.build.steps@.len() == 0,
    }
    &&& run.tests.wf()
    &&& run.tests.names() == config.tests.names()
    &&& run.tests.values().len() == config.tests.values().len()
    &&& forall|i: int|
        0 <= i < config.tests.values().len() ==> scenario_of(
            config.tests.values()[i],
            config.retries,
            config.step_timeout_ms,
            #[trigger] run.tests.values()[i],
        )
}

impl From<Config> for RunConfig {
    fn from(config: Config) -> (run: RunConfig)
        ensures
            run_config_of(config, run),
    {
        let build = match &config.build {
            Some(build) => build.to_scenario(config.retries, config.step_timeout_ms),
            None => Scenario::default(),
        };
        let mut tests: NameMap<Scenario> = NameMap::new();
        let count = config.tests.len();
        let mut i: usize = 0;
        while i < count
            invariant
                i <= count,
                count == config.tests.names().len(),
                config.tests.wf(),
                tests.wf(),
                tests.names() == config.tests.names().take(i as int),
                tests.values().len() == i,
                forall|k: int|
                    0 <= k < i ==> scenario_of(
                        config.tests.values()[k],
                        config.retries,
                        config.step_timeout_ms,
                        #[trigger] tests.values()[k],
                    ),
            decreases count - i,
        {
            let name = config.tests.name_at(i);
            let scenario = config.tests.value_at(i).to_scenario(
                config.retries,
                config.step_timeout_ms,
            );
            proof {
                let all = config.tests.names();
                if tests.has(name@) {
                    let k = tests.names().index_of(name@);
                    assert(tests.names()[k] == name@);
                    assert(all[k] == all[i as int]);
                }
                assert(all.take(i as int).push(all[i as int]) =~= all.take(i + 1));
            }
            tests.insert(name.clone(), scenario);
            i += 1;
        }
        proof {
            assert(config.tests.names().take(count as int) =~= config.tests.names());
        }
        RunConfig {
            execution: ExecutorConfig {
                user: config.user,
                password: config.password,
                connection_timeout: config.ssh_timeout_ms,
                poweroff_timeout: config.poweroff_timeout_ms,
                poweroff_command: config.poweroff_command,
                output_limit: config.output_limit,
            },
            build,
            tests,
        }
    }
}

impl vstd::std_specs::convert::FromSpecImpl<Config> for RunConfig {
    open spec fn obeys_from_spec() -> bool {
        false
    }

    open spec fn from_spec(config: Config) -> RunConfig {
        choose|run: RunConfig| run_config_of(config, run)
    }
}

} // verus!
