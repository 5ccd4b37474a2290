//! Scenarios, their reports, and the plan for processing one patch.
//!
//! A scenario is a list of phases with a reboot between them and a number of
//! retries. The build scenario runs on an overlay of the base image; the test
//! scenarios run on overlays of what the build left behind.

use crate::executor::{ExecutorConfig, ExecutorReport};
use crate::names::NameMap;
use crate::patch_validator::Patch;
use crate::qemu::{create_args, Image, ImageBuf, ImageBuilder};
use crate::ssh::SshAction;
use crate::text::{decimal, decimal_text, join_path, joined, views};
use crate::IoFailure;
use vstd::prelude::*;
use vstd::string::StringExecFns;

verus! {

/// A single step of building or testing. Times are in milliseconds.
#[derive(Debug)]
pub enum Step {
    /// Run an action on the guest.
    Action {
        /// The action.
        action: SshAction,
        /// The time limit of the action.
        timeout: u64,
    },
    /// Copy the patch to the guest.
    TransferPatch {
        /// Path of the destination on the guest.
        to: String,
        /// The time limit of the transfer.
        timeout: u64,
    },
}

impl Step {
    /// The action that the step stands for when the patch is at `patch`.
    pub open spec fn resolved(&self, patch: String) -> SshAction {
        match self {
            Step::Action { action, .. } => *action,
            Step::TransferPatch { to, .. } => SshAction::Send { from: patch, to: *to },
        }
    }

    /// The time limit of the step, for contracts.
    pub open spec fn spec_timeout(&self) -> u64 {
        match self {
            Step::Action { timeout, .. } => *timeout,
            Step::TransferPatch { timeout, .. } => *timeout,
        }
    }

    /// The action to run for this step: the step's own action, or the
    /// transfer of the file at `patch` to the step's destination.
    pub fn action(&self, patch: &String) -> (action: SshAction)
        ensures
            action == self.resolved(*patch),
    {
        match self {
            Step::Action { action, .. } => action.clone(),
            Step::TransferPatch { to, .. } => SshAction::Send {
                from: patch.clone(),
                to: to.clone(),
            },
        }
    }

    /// The time limit of the step, in milliseconds.
    pub fn timeout(&self) -> (timeout: u64)
        ensures
            timeout == self.spec_timeout(),
    {
        match self {
            Step::Action { timeout, .. } => *timeout,
            Step::TransferPatch { timeout, .. } => *timeout,
        }
    }
}

/// A scenario for the build or for one test.
#[derive(Debug)]
pub struct Scenario {
    /// How often the scenario is tried again after a failure.
    pub retries: usize,
    /// The phases, each a list of steps; the machine is restarted between phases.
    pub steps: Vec<Vec<Step>>,
}

impl Default for Scenario {
    fn default() -> (scenario: Self)
        ensures
            scenario.retries == 0,
            scenario.steps@.len() == 0,
    {
        Scenario { retries: 0, steps: Vec::new() }
    }
}

/// The configuration of the whole process.
#[derive(Debug)]
pub struct RunConfig {
    /// Settings shared by all scenarios.
    pub execution: ExecutorConfig,
    /// The build scenario.
    pub build: Scenario,
    /// The test scenarios, by name.
    pub tests: NameMap<Scenario>,
}

/// Whether an attempt, given by the reports of its phases, was successful:
/// its last phase was. An attempt without phases is successful.
pub open spec fn attempt_successful(attempt: Seq<ExecutorReport>) -> bool {
    attempt.len() > 0 ==> attempt.last().is_success()
}

/// Whether a scenario, given by its attempts, was successful: its last
/// attempt was. A scenario without attempts is successful.
pub open spec fn attempts_successful(attempts: Seq<Vec<ExecutorReport>>) -> bool {
    attempts.len() > 0 ==> attempt_successful(attempts.last()@)
}

/// The attempt to make next, counted from 0, after `attempts` were made of a
/// scenario with `retries` retries: the first one in any case, another one
/// while the last attempt failed and retries are left.
pub open spec fn attempt_after(attempts: Seq<Vec<ExecutorReport>>, retries: nat) -> Option<nat> {
    if attempts.len() == 0 {
        Some(0)
    } else if attempts_successful(attempts) {
        None
    } else if attempts.len() <= retries {
        Some(attempts.len())
    } else {
        None
    }
}

/// The report of a scenario: its attempts in order, each a list of reports,
/// one for each phase that was run.
#[derive(Debug)]
pub struct ScenarioReport(pub Vec<Vec<ExecutorReport>>);

impl Default for ScenarioReport {
    fn default() -> (report: Self)
        ensures
            report.0@.len() == 0,
    {
        ScenarioReport(Vec::new())
    }
}

impl ScenarioReport {
    /// Whether the scenario was successful, for contracts.
    pub open spec fn is_success(&self) -> bool {
        attempts_successful(self.0@)
    }

    /// Adds the reports of one more attempt.
    pub fn push_attempt(&mut self, attempt: Vec<ExecutorReport>)
        ensures
            final(self).0@ == old(self).0@.push(attempt),
    {
        self.0.push(attempt);
    }

    /// The number of attempts that were made.
    pub fn attempts(&self) -> (n: usize)
        ensures
            n == self.0@.len(),
    {
        self.0.len()
    }

    /// The image that the last phase of the last attempt ran on.
    pub fn last_image(&self) -> (image: Option<&String>)
        ensures
            image is Some <==> self.0@.len() > 0 && self.0@.last()@.len() > 0,
            image matches Some(path) ==> *path == self.0@.last()@.last().image,
    {
        let n = self.0.len();
        if n == 0 {
            return None;
        }
        let last = &self.0[n - 1];
        let m = last.len();
        if m == 0 {
            return None;
        }
        Some(&last[m - 1].image)
    }

    /// Whether the scenario was successful: the last phase of its last
    /// attempt was. Where there is no such phase the scenario is successful.
    pub fn success(&self) -> (ok: bool)
        ensures
            ok == self.is_success(),
    {
        let n = self.0.len();
        if n == 0 {
            return true;
        }
        let last = &self.0[n - 1];
        let m = last.len();
        if m == 0 {
            return true;
        }
        last[m - 1].success()
    }

    /// The attempt to make next, counted from 0, for a scenario with
    /// `retries` retries; `None` when the scenario is over.
    pub fn next_attempt(&self, retries: usize) -> (next: Option<usize>)
        ensures
            next matches Some(i) ==> attempt_after(self.0@, retries as nat) == Some(i as nat),
            next is None ==> attempt_after(self.0@, retries as nat) is None,
    {
        let made = self.0.len();
        if made == 0 {
            Some(0)
        } else if self.success() {
            None
        } else if made <= retries {
            Some(made)
        } else {
            None
        }
    }
}

/// The report of the whole process for one patch. Where the build failed, the
/// report holds no test.
#[derive(Debug)]
pub struct RunReport {
    build: ScenarioReport,
    tests: NameMap<ScenarioReport>,
}

impl RunReport {
    /// The report of the build, for contracts.
    pub closed spec fn spec_build(&self) -> ScenarioReport {
        self.build
    }

    /// The reports of the tests, for contracts.
    pub closed spec fn spec_tests(&self) -> NameMap<ScenarioReport> {
        self.tests
    }

    /// Tests are reported only after a successful build.
    pub open spec fn wf(&self) -> bool {
        !self.spec_build().is_success() ==> self.spec_tests().names().len() == 0
    }

    #[verifier::type_invariant]
    spec fn inv(&self) -> bool {
        self.wf()
    }

    /// A report that holds the build and no test yet.
    pub fn new(build: ScenarioReport) -> (report: Self)
        ensures
            report.spec_build() == build,
            report.spec_tests().names().len() == 0,
            report.wf(),
    {
        RunReport { build, tests: NameMap::new() }
    }

    /// The report of the build scenario.
    pub fn build(&self) -> (build: &ScenarioReport)
        ensures
            *build == self.spec_build(),
            self.wf(),
    {
        proof {
            use_type_invariant(self);
        }
        &self.build
    }

    /// The reports of the test scenarios. There is none where the build failed.
    pub fn tests(&self) -> (tests: &NameMap<ScenarioReport>)
        ensures
            *tests == self.spec_tests(),
            !self.spec_build().is_success() ==> tests.names().len() == 0,
            self.wf(),
    {
        proof {
            use_type_invariant(self);
        }
        &self.tests
    }

    /// Takes in what a test task came back with. A report is stored under the
    /// test's name; a failure of the harness ends the process for the patch
    /// and is handed on. After a failed build nothing is stored.
    pub fn test_finished(self, name: String, outcome: Result<ScenarioReport, IoFailure>) -> (result:
        Result<RunReport, IoFailure>)
        ensures
            outcome matches Err(error) ==> result == Err::<RunReport, IoFailure>(error),
            outcome matches Ok(report) ==> result is Ok && result->Ok_0.spec_build()
                == self.spec_build() && result->Ok_0.wf() && (if self.spec_build().is_success() {
                result->Ok_0.spec_tests()@ == self.spec_tests()@.insert(name@, report)
            } else {
                result->Ok_0.spec_tests() == self.spec_tests()
            }),
    {
        proof {
            use_type_invariant(&self);
        }
        match outcome {
            Err(error) => Err(error),
            Ok(report) => {
                let RunReport { build, mut tests } = self;
                if build.success() {
                    tests.insert(name, report);
                }
                Ok(RunReport { build, tests })
            },
        }
    }
}

/// The name of the overlay image of the attempt with index `attempt`.
pub open spec fn attempt_file(attempt: nat) -> Seq<char> {
    "attempt_"@ + decimal_text(attempt + 1) + ".qcow2"@
}

/// The path of the overlay image of the attempt with index `attempt` of a
/// scenario whose artifacts are kept in `artifacts`.
pub open spec fn attempt_image(artifacts: Seq<char>, attempt: nat) -> Seq<char> {
    joined(artifacts, attempt_file(attempt))
}

/// The path of the overlay image of the attempt with index `attempt`.
pub fn attempt_image_path(artifacts: &str, attempt: usize) -> (path: String)
    ensures
        path@ == attempt_image(artifacts@, attempt as nat),
{
    let mut file = "attempt_".to_owned();
    file.append(decimal(attempt as u128 + 1).as_str());
    file.append(".qcow2");
    join_path(artifacts, file.as_str())
}

/// The steps of one phase, ready to run: each action with its time limit.
pub open spec fn phase_resolved(
    phase: Seq<Step>,
    patch: String,
    plan: Seq<(SshAction, u64)>,
) -> bool {
    &&& plan.len() == phase.len()
    &&& forall|j: int|
        0 <= j < phase.len() ==> #[trigger] plan[j] == (
            phase[j].resolved(patch),
            phase[j].spec_timeout(),
        )
}

/// The steps of all phases, ready to run.
pub open spec fn phases_resolved(
    phases: Seq<Vec<Step>>,
    patch: String,
    plan: Seq<Vec<(SshAction, u64)>>,
) -> bool {
    &&& plan.len() == phases.len()
    &&& forall|i: int|
        0 <= i < phases.len() ==> phase_resolved(phases[i]@, patch, (#[trigger] plan[i])@)
}

/// Resolves the steps of one phase against the path of the patch.
pub fn resolve_phase(phase: &Vec<Step>, patch: &String) -> (plan: Vec<(SshAction, u64)>)
    ensures
        phase_resolved(phase@, *patch, plan@),
{
    let mut plan: Vec<(SshAction, u64)> = Vec::new();
    let mut j: usize = 0;
    while j < phase.len()
        invariant
            j <= phase@.len(),
            plan@.len() == j,
            forall|k: int|
                0 <= k < j ==> #[trigger] plan@[k] == (
                    phase@[k].resolved(*patch),
                    phase@[k].spec_timeout(),
                ),
        decreases phase@.len() - j,
    {
        plan.push((phase[j].action(patch), phase[j].timeout()));
        j += 1;
    }
    plan
}

/// What to do for the next attempt of a scenario.
#[derive(Debug)]
pub struct AttemptPlan {
    /// The index of the attempt, counted from 0.
    pub attempt: usize,
    /// Path of the overlay image that the attempt runs on.
    pub image: String,
    /// The arguments with which the image tool creates that overlay.
    pub create: Vec<String>,
    /// The phases to run, in order, until one fails.
    pub phases: Vec<Vec<(SshAction, u64)>>,
}

/// The directories of a patch's build.
#[derive(Debug)]
pub struct BuildPlan {
    /// The directory for everything that the patch leaves behind.
    pub root: String,
    /// The directory for the overlay images of the build.
    pub build_root: String,
}

/// One test to run: its name and the directory for its overlay images.
#[derive(Debug)]
pub struct TestJob {
    /// The name of the test.
    pub name: String,
    /// The directory for the overlay images of the test.
    pub root: String,
}

/// The tests to run after a successful build.
#[derive(Debug)]
pub struct TestsPlan {
    /// The directory that holds one directory for each test.
    pub tests_root: String,
    /// The image that every test starts from.
    pub image: ImageBuf,
    /// The tests, in the order of the configuration.
    pub jobs: Vec<TestJob>,
}

/// The directory of a patch with identifier `id` under `artifacts_root`.
pub open spec fn patch_root(artifacts_root: Seq<char>, id: Seq<char>) -> Seq<char> {
    joined(artifacts_root, id)
}

/// The directory of the build of a patch.
pub open spec fn build_root(artifacts_root: Seq<char>, id: Seq<char>) -> Seq<char> {
    joined(patch_root(artifacts_root, id), "build"@)
}

/// The directory of the tests of a patch.
pub open spec fn tests_root(artifacts_root: Seq<char>, id: Seq<char>) -> Seq<char> {
    joined(patch_root(artifacts_root, id), "tests"@)
}

/// Processes patches: builds a test image for each and runs the tests on it.
#[derive(Debug)]
pub struct PatchProcessor {
    /// Creates the overlay images.
    pub builder: ImageBuilder,
    /// Path of the raw base image.
    pub base_image: String,
    /// The configuration of the process.
    pub run_config: RunConfig,
    /// The directory under which every patch gets its own directory.
    pub artifacts_root: String,
}

impl PatchProcessor {
    /// The plan for the next attempt of `scenario`, whose attempts so far are
    /// in `report`; `None` when the scenario is over.
    ///
    /// The first attempt is always made. Another one follows while the last
    /// one failed and the scenario has retries left. Each attempt runs on a
    /// fresh overlay of `base_image`, named by the number of the attempt and
    /// kept in `artifacts`; a step that transfers the patch sends the file of
    /// `patch`.
    pub fn run_scenario(
        &self,
        patch: &Patch,
        base_image: Image<'_>,
        artifacts: &str,
        scenario: &Scenario,
        report: &ScenarioReport,
    ) -> (plan: Option<AttemptPlan>)
        ensures
            plan is Some <==> attempt_after(report.0@, scenario.retries as nat) is Some,
            plan matches Some(p) ==> {
                &&& attempt_after(report.0@, scenario.retries as nat) == Some(p.attempt as nat)
                &&& p.image@ == attempt_image(artifacts@, p.attempt as nat)
                &&& views(p.create@) == create_args(
                    base_image.spec_format(),
                    base_image.spec_path()@,
                    "qcow2"@,
                    p.image@,
                )
                &&& phases_resolved(scenario.steps@, patch.spec_path(), p.phases@)
            },
    {
        let attempt = match report.next_attempt(scenario.retries) {
            Some(attempt) => attempt,
            None => {
                return None;
            },
        };
        let image = attempt_image_path(artifacts, attempt);
        let create = self.builder.create(base_image, Image::Qcow2(image.as_str()));
        let mut phases: Vec<Vec<(SshAction, u64)>> = Vec::new();
        let mut i: usize = 0;
        while i < scenario.steps.len()
            invariant
                i <= scenario.steps@.len(),
                phases@.len() == i,
                forall|k: int|
                    0 <= k < i ==> phase_resolved(
                        scenario.steps@[k]@,
                        patch.spec_path(),
                        (#[trigger] phases@[k])@,
                    ),
            decreases scenario.steps@.len() - i,
        {
            phases.push(resolve_phase(&scenario.steps[i], patch.path()));
            i += 1;
        }
        Some(AttemptPlan { attempt, image, create, phases })
    }

    /// The directories to prepare for `patch` before its build: the patch's
    /// own directory under the artifacts root, and `build` inside it. The
    /// build scenario then runs on overlays of the raw base image.
    pub fn process(&self, patch: &Patch) -> (plan: BuildPlan)
        ensures
            plan.root@ == patch_root(self.artifacts_root@, patch.spec_id()),
            plan.build_root@ == build_root(self.artifacts_root@, patch.spec_id()),
    {
        let root = join_path(self.artifacts_root.as_str(), patch.id());
        let build_root = join_path(root.as_str(), "build");
        BuildPlan { root, build_root }
    }

    /// The image that the tests of a patch start from: the overlay of the
    /// last attempt of the build, which is the successful one, or the raw
    /// base image where the build made no attempt.
    pub open spec fn test_base(
        &self,
        id: Seq<char>,
        build: ScenarioReport,
        image: ImageBuf,
    ) -> bool {
        if build.0@.len() > 0 {
            image matches ImageBuf::Qcow2(path) && path@ == attempt_image(
                build_root(self.artifacts_root@, id),
                (build.0@.len() - 1) as nat,
            )
        } else {
            image matches ImageBuf::Raw(path) && path@ == self.base_image@
        }
    }

    /// The tests to run for `patch` after its build came back with `build`;
    /// `None` where the build failed, so that no test is run. Each configured
    /// test gets a directory of its own, named after it, under `tests` in
    /// the patch's directory.
    pub fn tests(&self, patch: &Patch, build: &ScenarioReport) -> (plan: Option<TestsPlan>)
        ensures
            plan is Some <==> build.is_success(),
            plan matches Some(p) ==> {
                &&& p.tests_root@ == tests_root(self.artifacts_root@, patch.spec_id())
                &&& self.test_base(patch.spec_id(), *build, p.image)
                &&& p.jobs@.len() == self.run_config.tests.names().len()
                &&& forall|i: int|
                    0 <= i < p.jobs@.len() ==> (#[trigger] p.jobs@[i]).name@
                        == self.run_config.tests.names()[i] && p.jobs@[i].root@ == joined(
                        p.tests_root@,
                        self.run_config.tests.names()[i],
                    )
            },
    {
        if !build.success() {
            return None;
        }
        let root = join_path(self.artifacts_root.as_str(), patch.id());
        let tests_root = join_path(root.as_str(), "tests");
        let attempts = build.attempts();
        let image = if attempts > 0 {
            let build_root = join_path(root.as_str(), "build");
            ImageBuf::Qcow2(attempt_image_path(build_root.as_str(), attempts - 1))
        } else {
            ImageBuf::Raw(self.base_image.clone())
        };
        let mut jobs: Vec<TestJob> = Vec::new();
        let count = self.run_config.tests.len();
        let mut i: usize = 0;
        while i < count
            invariant
                i <= count,
                count == self.run_config.tests.names().len(),
                jobs@.len() == i,
                forall|k: int|
                    0 <= k < i ==> (#[trigger] jobs@[k]).name@ == self.run_config.tests.names()[k]
                        && jobs@[k].root@ == joined(tests_root@, self.run_config.tests.names()[k]),
            decreases count - i,
        {
            let name = self.run_config.tests.name_at(i);
            let root = join_path(tests_root.as_str(), name.as_str());
            jobs.push(TestJob { name: name.clone(), root });
            i += 1;
        }
        Some(TestsPlan { tests_root, image, jobs })
    }
}

/// A report whose build failed holds no test.
pub proof fn lemma_failed_build_has_no_tests(report: RunReport)
    requires
        report.wf(),
        !report.spec_build().is_success(),
    ensures
        report.spec_tests().names().len() == 0,
        report.spec_tests()@.dom() =~= Set::<Seq<char>>::empty(),
{
    assert forall|name: Seq<char>| !report.spec_tests()@.dom().contains(name) by {
        if report.spec_tests().names().contains(name) {
            let i = report.spec_tests().names().index_of(name);
        }
    }
}

/// The attempts of a scenario with `retries` retries after the attempts
/// `made`, when the attempts still to come end as `outcomes` say, one after
/// the other: attempts are added as long as the retry policy asks for one and
/// an outcome is left.
pub open spec fn attempts_made(
    retries: nat,
    made: Seq<Vec<ExecutorReport>>,
    outcomes: Seq<Vec<ExecutorReport>>,
) -> Seq<Vec<ExecutorReport>>
    decreases outcomes.len(),
{
    if outcomes.len() == 0 || attempt_after(made, retries) is None {
        made
    } else {
        attempts_made(retries, made.push(outcomes[0]), outcomes.drop_first())
    }
}

/// Whether every attempt but the last one failed.
pub open spec fn only_last_may_succeed(attempts: Seq<Vec<ExecutorReport>>) -> bool {
    forall|i: int| 0 <= i < attempts.len() - 1 ==> !attempt_successful((#[trigger] attempts[i])@)
}

/// A scenario report whose last attempt has a last phase is successful exactly
/// when the report of that phase is.
pub proof fn lemma_success_is_last_phase(report: ScenarioReport)
    requires
        report.0@.len() > 0,
        report.0@.last()@.len() > 0,
    ensures
        report.is_success() <==> report.0@.last()@.last().is_success(),
{
}

/// However the attempts end, a scenario is tried at most once more than it
/// has retries, and retries stop with the first successful attempt.
pub proof fn lemma_retry_policy(
    retries: nat,
    made: Seq<Vec<ExecutorReport>>,
    outcomes: Seq<Vec<ExecutorReport>>,
)
    requires
        made.len() <= retries + 1,
        only_last_may_succeed(made),
    ensures
        attempts_made(retries, made, outcomes).len() <= retries + 1,
        only_last_may_succeed(attempts_made(retries, made, outcomes)),
        made.len() <= attempts_made(retries, made, outcomes).len(),
    decreases outcomes.len(),
{
    if outcomes.len() == 0 || attempt_after(made, retries) is None {
    } else {
        let next = made.push(outcomes[0]);
        assert forall|i: int| 0 <= i < next.len() - 1 implies !attempt_successful(
            (#[trigger] next[i])@,
        ) by {
            if i < made.len() - 1 {
                assert(next[i] == made[i]);
            } else {
                assert(next[i] == made.last());
            }
        }
        lemma_retry_policy(retries, next, outcomes.drop_first());
    }
}

/// The reports of an attempt of a scenario with `phases` phases after the
/// reports `done`, when the phases still to come end as `outcomes` say, one
/// after the other: phases are run as long as the attempt goes on and an
/// outcome is left.
pub open spec fn phases_run(
    phases: nat,
    done: Seq<ExecutorReport>,
    outcomes: Seq<ExecutorReport>,
) -> Seq<ExecutorReport>
    decreases outcomes.len(),
{
    if outcomes.len() == 0 || crate::executor::stack::phase_after(done, phases) is None {
        done
    } else {
        phases_run(phases, done.push(outcomes[0]), outcomes.drop_first())
    }
}

/// Whether every report but the last one is successful.
pub open spec fn only_last_may_fail(reports: Seq<ExecutorReport>) -> bool {
    forall|i: int| 0 <= i < reports.len() - 1 ==> (#[trigger] reports[i]).is_success()
}

/// However the phases end, an attempt runs no more phases than the scenario
/// has and ends with the first phase that fails. So an attempt that is over
/// is successful, which is to say that its last phase was, exactly when all
/// phases of the scenario were run and every one of them was successful.
pub proof fn lemma_attempt_policy(
    phases: nat,
    done: Seq<ExecutorReport>,
    outcomes: Seq<ExecutorReport>,
)
    requires
        done.len() <= phases,
        only_last_may_fail(done),
    ensures
        ({
            let reports = phases_run(phases, done, outcomes);
            &&& reports.len() <= phases
            &&& only_last_may_fail(reports)
            &&& crate::executor::stack::phase_after(reports, phases) is None ==> (
            attempt_successful(reports) <==> reports.len() == phases && forall|i: int|
                0 <= i < reports.len() ==> (#[trigger] reports[i]).is_success())
        }),
    decreases outcomes.len(),
{
    if outcomes.len() == 0 || crate::executor::stack::phase_after(done, phases) is None {
    } else {
        let next = done.push(outcomes[0]);
        assert forall|i: int| 0 <= i < next.len() - 1 implies (#[trigger] next[i]).is_success() by {
            if i < done.len() - 1 {
                assert(next[i] == done[i]);
            } else {
                assert(next[i] == done.last());
            }
        }
        lemma_attempt_policy(phases, next, outcomes.drop_first());
    }
}

/// A scenario with zero retries is tried exactly once, however its first
/// attempt ends.
pub proof fn lemma_zero_retries_one_attempt(outcomes: Seq<Vec<ExecutorReport>>)
    requires
        outcomes.len() > 0,
    ensures
        attempts_made(0, Seq::empty(), outcomes) == seq![outcomes[0]],
{
    let first = Seq::<Vec<ExecutorReport>>::empty().push(outcomes[0]);
    assert(attempt_after(first, 0) is None);
    assert(attempts_made(0, first, outcomes.drop_first()) == first);
    assert(first =~= seq![outcomes[0]]);
}

/// A scenario without phases is over after one attempt that ran nothing, and
/// is successful, whatever its number of retries.
pub proof fn lemma_no_phases_one_empty_attempt(retries: nat, outcomes: Seq<Vec<ExecutorReport>>)
    requires
        outcomes.len() > 0,
        outcomes[0]@.len() == 0,
    ensures
        crate::executor::stack::phase_after(Seq::empty(), 0) is None,
        attempts_made(retries, Seq::empty(), outcomes) == seq![outcomes[0]],
        attempts_successful(attempts_made(retries, Seq::empty(), outcomes)),
{
    let first = Seq::<Vec<ExecutorReport>>::empty().push(outcomes[0]);
    assert(attempts_successful(first));
    assert(attempt_after(first, retries) is None);
    assert(attempts_made(retries, first, outcomes.drop_first()) == first);
    assert(first =~= seq![outcomes[0]]);
}

} // verus!
