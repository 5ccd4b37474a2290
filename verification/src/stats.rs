//! Counters over all patches of a run.

use crate::names::NameMap;
use crate::patch_validator::Patch;
use crate::tester::{RunReport, ScenarioReport};
use crate::IoFailure;
use vstd::prelude::*;

verus! {

/// The counters, as contracts see them.
pub struct StatsView {
    /// Input lines that were turned away.
    pub invalid_solutions: nat,
    /// Patches that were accepted and processed.
    pub valid_solutions: nat,
    /// Patches whose build failed.
    pub builds_failed: nat,
    /// For each test that failed at least once, the number of patches it failed for.
    pub test_failures: Map<Seq<char>, usize>,
    /// Paths of the patches that were not processed because the harness failed.
    pub internal_errors: Seq<String>,
    /// Paths of the patches whose detailed report was not saved.
    pub missing_reports: Seq<String>,
}

/// The count that `failures` holds for `test`: none where the test is not listed.
pub open spec fn failures_in(failures: Map<Seq<char>, usize>, test: Seq<char>) -> nat {
    if failures.dom().contains(test) {
        failures[test] as nat
    } else {
        0
    }
}

impl StatsView {
    /// The number of patches that `test` failed for.
    pub open spec fn failures_of(self, test: Seq<char>) -> nat {
        failures_in(self.test_failures, test)
    }

    /// The number of patches whose build was successful.
    pub open spec fn successful(self) -> int {
        self.valid_solutions - self.builds_failed - self.internal_errors.len()
    }

    /// Every processed patch is counted once: its build succeeded, or its
    /// build failed, or the harness failed on it. No test failed more often
    /// than builds succeeded, and a test that is listed failed at least once.
    pub open spec fn wf(self) -> bool {
        &&& self.successful() >= 0
        &&& forall|test: Seq<char>| #[trigger]
            self.test_failures.dom().contains(test) ==> 1 <= self.test_failures[test]
                <= self.successful()
    }
}

/// Every patch that was processed is counted exactly once: as a successful
/// build, as a failed build, or as an internal error.
pub proof fn lemma_counters_consistent(stats: StatsView)
    requires
        stats.wf(),
    ensures
        stats.successful() >= 0,
        stats.valid_solutions == stats.successful() + stats.builds_failed
            + stats.internal_errors.len(),
{
}

/// Whether the test `name` has a report in `tests` at a position before `end`
/// that is not successful.
pub open spec fn failed_before(tests: NameMap<ScenarioReport>, end: int, name: Seq<char>) -> bool {
    exists|k: int|
        0 <= k < end && #[trigger] tests.names()[k] == name && !tests.values()[k].is_success()
}

/// A test failed before the position `end + 1` exactly when it failed before
/// `end` or is the failed test at `end`; and it did not fail before `end` if
/// it is the test at `end`, since no name occurs twice.
pub proof fn lemma_failed_before_step(tests: NameMap<ScenarioReport>, end: int, name: Seq<char>)
    requires
        tests.wf(),
        0 <= end < tests.names().len(),
    ensures
        failed_before(tests, end + 1, name) <==> failed_before(tests, end, name) || (
        tests.names()[end] == name && !tests.values()[end].is_success()),
        tests.names()[end] == name ==> !failed_before(tests, end, name),
{
    if failed_before(tests, end + 1, name) {
        let k = choose|k: int|
            0 <= k < end + 1 && #[trigger] tests.names()[k] == name
                && !tests.values()[k].is_success();
        if k < end {
            assert(failed_before(tests, end, name));
        }
    }
    if failed_before(tests, end, name) {
        let k = choose|k: int|
            0 <= k < end && #[trigger] tests.names()[k] == name && !tests.values()[k].is_success();
        assert(0 <= k < end + 1);
        if tests.names()[end] == name {
            assert(tests.names()[k] == tests.names()[end]);
        }
    }
}

/// A test failed somewhere in `tests` exactly when it has a report there
/// that is not successful.
pub proof fn lemma_failed_before_all(tests: NameMap<ScenarioReport>, name: Seq<char>)
    requires
        tests.wf(),
    ensures
        failed_before(tests, tests.names().len() as int, name) <==> tests.has(name)
            && !tests.value_of(name).is_success(),
{
    if failed_before(tests, tests.names().len() as int, name) {
        let k = choose|k: int|
            0 <= k < tests.names().len() && #[trigger] tests.names()[k] == name
                && !tests.values()[k].is_success();
        assert(tests.names().contains(name));
        assert(tests.names()[tests.names().index_of(name)] == name);
    }
    if tests.has(name) && !tests.value_of(name).is_success() {
        let k = tests.names().index_of(name);
        assert(tests.names()[k] == name);
    }
}

/// Whether the report `report` holds a test `name` that is not successful.
pub open spec fn test_failed(report: RunReport, name: Seq<char>) -> bool {
    report.spec_tests().has(name) && !report.spec_tests().value_of(name).is_success()
}

/// The name and the count of each entry of `list`.
pub open spec fn pair_views(list: Seq<(String, usize)>) -> Seq<(Seq<char>, usize)> {
    Seq::new(list.len(), |i: int| (list[i].0@, list[i].1))
}

/// The entries of `failures`: each name with its count, in the order of the map.
pub open spec fn entries(failures: NameMap<usize>) -> Seq<(Seq<char>, usize)> {
    Seq::new(failures.names().len(), |i: int| (failures.names()[i], failures.values()[i]))
}

/// Whether the counts of `list` never fall from one entry to the next.
pub open spec fn sorted_by_count(list: Seq<(Seq<char>, usize)>) -> bool {
    forall|i: int, j: int| 0 <= i < j < list.len() ==> list[i].1 <= list[j].1
}

/// Statistics of a run.
#[derive(Debug)]
pub struct Stats {
    invalid_solutions: usize,
    valid_solutions: usize,
    builds_failed: usize,
    test_failures: NameMap<usize>,
    internal_errors: Vec<String>,
    missing_reports: Vec<String>,
}

impl View for Stats {
    type V = StatsView;

    closed spec fn view(&self) -> StatsView {
        StatsView {
            invalid_solutions: self.invalid_solutions as nat,
            valid_solutions: self.valid_solutions as nat,
            builds_failed: self.builds_failed as nat,
            test_failures: self.test_failures@,
            internal_errors: self.internal_errors@,
            missing_reports: self.missing_reports@,
        }
    }
}

impl Default for Stats {
    fn default() -> (stats: Self)
        ensures
            stats@.invalid_solutions == 0,
            stats@.valid_solutions == 0,
            stats@.builds_failed == 0,
            stats@.test_failures == Map::<Seq<char>, usize>::empty(),
            stats@.internal_errors.len() == 0,
            stats@.missing_reports.len() == 0,
            stats@.wf(),
    {
        let stats = Stats {
            invalid_solutions: 0,
            valid_solutions: 0,
            builds_failed: 0,
            test_failures: NameMap::new(),
            internal_errors: Vec::new(),
            missing_reports: Vec::new(),
        };
        assert(stats.test_failures@ =~= Map::<Seq<char>, usize>::empty());
        stats
    }
}

impl Stats {
    #[verifier::type_invariant]
    spec fn inv(&self) -> bool {
        self@.wf()
    }

    /// The failures by test, for contracts.
    pub closed spec fn spec_test_failures(&self) -> NameMap<usize> {
        self.test_failures
    }

    /// Whether the whole run went without a failure of the harness: every
    /// accepted patch was processed and every report was saved.
    pub fn success(&self) -> (ok: bool)
        ensures
            ok == (self@.internal_errors.len() == 0 && self@.missing_reports.len() == 0),
    {
        self.internal_errors.len() == 0 && self.missing_reports.len() == 0
    }

    /// The exit code of the program: 0 after a run without a failure of the
    /// harness, 1 otherwise.
    pub fn exit_code(&self) -> (code: u8)
        ensures
            code == if self@.internal_errors.len() == 0 && self@.missing_reports.len() == 0 {
                0u8
            } else {
                1u8
            },
    {
        if self.success() {
            0
        } else {
            1
        }
    }

    /// The number of input lines that were turned away.
    pub fn invalid_solutions(&self) -> (n: usize)
        ensures
            n == self@.invalid_solutions,
    {
        self.invalid_solutions
    }

    /// The number of patches that were accepted and processed.
    pub fn valid_solutions(&self) -> (n: usize)
        ensures
            n == self@.valid_solutions,
            self@.wf(),
    {
        proof {
            use_type_invariant(self);
        }
        self.valid_solutions
    }

    /// The number of patches whose build failed.
    pub fn builds_failed(&self) -> (n: usize)
        ensures
            n == self@.builds_failed,
            self@.wf(),
    {
        proof {
            use_type_invariant(self);
        }
        self.builds_failed
    }

    /// The number of patches whose build was successful. Together with the
    /// failed builds and the patches that the harness failed on, these are
    /// all the patches that were processed.
    pub fn successful(&self) -> (n: usize)
        ensures
            n == self@.successful(),
            self@.valid_solutions == n + self@.builds_failed + self@.internal_errors.len(),
    {
        proof {
            use_type_invariant(self);
        }
        self.valid_solutions - self.builds_failed - self.internal_errors.len()
    }

    /// For each test that failed, the number of patches that it failed for.
    pub fn test_failures(&self) -> (failures: &NameMap<usize>)
        ensures
            *failures == self.spec_test_failures(),
            failures@ == self@.test_failures,
            self@.wf(),
    {
        proof {
            use_type_invariant(self);
        }
        &self.test_failures
    }

    /// The tests that failed with the number of patches that each failed
    /// for, ordered by that number, the smallest first.
    pub fn tests_by_failures(&self) -> (list: Vec<(String, usize)>)
        ensures
            sorted_by_count(pair_views(list@)),
            pair_views(list@).to_multiset() == entries(self.spec_test_failures()).to_multiset(),
    {
        let failures = &self.test_failures;
        let count = failures.len();
        let mut list: Vec<(String, usize)> = Vec::new();
        let mut i: usize = 0;
        proof {
            assert(pair_views(list@) =~= entries(*failures).take(0));
        }
        while i < count
            invariant
                i <= count,
                count == failures.names().len(),
                count == failures.values().len(),
                sorted_by_count(pair_views(list@)),
                pair_views(list@).to_multiset() == entries(*failures).take(i as int).to_multiset(),
            decreases count - i,
        {
            let name = failures.name_at(i).clone();
            let failed = *failures.value_at(i);
            let ghost before = pair_views(list@);
            let mut at: usize = 0;
            while at < list.len() && list[at].1 <= failed
                invariant
                    at <= list@.len(),
                    pair_views(list@) == before,
                    forall|k: int| 0 <= k < at ==> (#[trigger] before[k]).1 <= failed,
                decreases list@.len() - at,
            {
                proof {
                    assert(before[at as int].1 == list@[at as int].1);
                }
                at += 1;
            }
            proof {
                if at < list@.len() {
                    assert(before[at as int].1 == list@[at as int].1);
                }
            }
            list.insert(at, (name, failed));
            proof {
                let entry = (name@, failed);
                let after = pair_views(list@);
                assert(after =~= before.insert(at as int, entry));
                vstd::seq_lib::to_multiset_insert(before, at as int, entry);
                let upto = entries(*failures).take(i as int);
                assert(entries(*failures).take(i + 1) =~= upto.push(entry));
                vstd::seq_lib::to_multiset_build(upto, entry);
                assert forall|a: int, b: int| 0 <= a < b < after.len() implies after[a].1
                    <= after[b].1 by {
                    if b < at {
                        assert(after[a] == before[a] && after[b] == before[b]);
                    } else if b == at {
                        assert(after[a] == before[a]);
                    } else if a == at {
                        assert(after[b] == before[b - 1]);
                        assert(before[at as int].1 <= before[b - 1].1 || b - 1 == at);
                    } else if a < at {
                        assert(after[a] == before[a] && after[b] == before[b - 1]);
                    } else {
                        assert(after[a] == before[a - 1] && after[b] == before[b - 1]);
                    }
                }
            }
            i += 1;
        }
        proof {
            assert(entries(*failures).take(count as int) =~= entries(*failures));
        }
        list
    }

    /// Paths of the patches that were not processed because the harness failed.
    pub fn internal_errors(&self) -> (paths: &Vec<String>)
        ensures
            paths@ == self@.internal_errors,
    {
        &self.internal_errors
    }

    /// Paths of the patches whose detailed report was not saved.
    pub fn missing_reports(&self) -> (paths: &Vec<String>)
        ensures
            paths@ == self@.missing_reports,
    {
        &self.missing_reports
    }

    /// Counts one processed patch. A report counts a failed build where its
    /// build failed, and one failure for each of its tests that failed; an
    /// error of the harness puts the patch's path on the list of internal
    /// errors.
    pub fn patch_processed(&mut self, patch: &Patch, result: &Result<RunReport, IoFailure>)
        requires
            old(self)@.valid_solutions < usize::MAX,
        ensures
            final(self)@.wf(),
            final(self)@.valid_solutions == old(self)@.valid_solutions + 1,
            final(self)@.invalid_solutions == old(self)@.invalid_solutions,
            final(self)@.missing_reports == old(self)@.missing_reports,
            result is Err ==> {
                &&& final(self)@.internal_errors == old(self)@.internal_errors.push(
                    patch.spec_path(),
                )
                &&& final(self)@.builds_failed == old(self)@.builds_failed
                &&& final(self)@.test_failures == old(self)@.test_failures
            },
            result matches Ok(report) ==> {
                &&& final(self)@.internal_errors == old(self)@.internal_errors
                &&& final(self)@.builds_failed == old(self)@.builds_failed + (
                if report.spec_build().is_success() {
                    0nat
                } else {
                    1nat
                })
                &&& forall|test: Seq<char>|
                    #[trigger] final(self)@.failures_of(test) == old(self)@.failures_of(test) + (
                    if test_failed(*report, test) {
                        1nat
                    } else {
                        0nat
                    })
            },
    {
        proof {
            use_type_invariant(&*self);
        }
        let ghost before = self@;
        let mut taken = Stats::default();
        core::mem::swap(self, &mut taken);
        let Stats {
            invalid_solutions,
            valid_solutions,
            mut builds_failed,
            mut test_failures,
            mut internal_errors,
            missing_reports,
        } = taken;
        proof {
            use_type_invariant(&test_failures);
            assert(test_failures@ == before.test_failures);
            assert(before.wf());
        }
        match result {
            Ok(report) => {
                let tests = report.tests();
                let build_ok = report.build().success();
                if !build_ok {
                    builds_failed = builds_failed + 1;
                }
                let count = tests.len();
                let mut i: usize = 0;
                while i < count
                    invariant
                        i <= count,
                        count == tests.names().len(),
                        count == tests.values().len(),
                        tests.wf(),
                        test_failures.wf(),
                        before.wf(),
                        before.valid_solutions < usize::MAX,
                        !build_ok ==> count == 0,
                        forall|test: Seq<char>| #[trigger]
                            test_failures@.dom().contains(test) ==> 1 <= test_failures@[test]
                                <= before.successful() + 1,
                        forall|test: Seq<char>| #[trigger]
                            failures_in(test_failures@, test) == before.failures_of(test) + (
                            if failed_before(*tests, i as int, test) {
                                1nat
                            } else {
                                0nat
                            }),
                    decreases count - i,
                {
                    let name = tests.name_at(i);
                    let ghost counted = test_failures@;
                    proof {
                        assert forall|test: Seq<char>|
                            failed_before(*tests, i + 1, test) <==> failed_before(
                                *tests,
                                i as int,
                                test,
                            ) || (tests.names()[i as int] == test
                                && !tests.values()[i as int].is_success()) by {
                            lemma_failed_before_step(*tests, i as int, test);
                        }
                        lemma_failed_before_step(*tests, i as int, name@);
                        assert(failures_in(counted, name@) == before.failures_of(name@));
                    }
                    if !tests.value_at(i).success() {
                        let failures: usize = match test_failures.get(name.as_str()) {
                            Some(failures) => *failures,
                            None => 0,
                        };
                        test_failures.insert(name.clone(), failures + 1);
                        proof {
                            assert forall|test: Seq<char>| #[trigger]
                                failures_in(test_failures@, test) == before.failures_of(test) + (
                                if failed_before(*tests, i + 1, test) {
                                    1nat
                                } else {
                                    0nat
                                }) by {
                                assert(failures_in(counted, test) == before.failures_of(test) + (
                                if failed_before(*tests, i as int, test) {
                                    1nat
                                } else {
                                    0nat
                                }));
                            }
                        }
                    }
                    i += 1;
                }
                proof {
                    assert forall|test: Seq<char>|
                        failed_before(*tests, count as int, test) <==> test_failed(
                            *report,
                            test,
                        ) by {
                        lemma_failed_before_all(*tests, test);
                    }
                    if !build_ok {
                        assert forall|test: Seq<char>| #[trigger]
                            test_failures@.dom().contains(test) implies test_failures@[test]
                            <= before.successful() by {
                            assert(failures_in(test_failures@, test) == before.failures_of(test));
                        }
                    }
                }
            },
            Err(_) => {
                internal_errors.push(patch.path().clone());
            },
        }
        *self = Stats {
            invalid_solutions,
            valid_solutions: valid_solutions + 1,
            builds_failed,
            test_failures,
            internal_errors,
            missing_reports,
        };
    }

    /// Notes that the detailed report of `patch` was not saved.
    pub fn saving_report_failed(&mut self, patch: &Patch)
        ensures
            final(self)@ == (StatsView {
                missing_reports: old(self)@.missing_reports.push(patch.spec_path()),
                ..old(self)@
            }),
            final(self)@.wf(),
    {
        proof {
            use_type_invariant(&*self);
        }
        let mut taken = Stats::default();
        core::mem::swap(self, &mut taken);
        let Stats {
            invalid_solutions,
            valid_solutions,
            builds_failed,
            test_failures,
            internal_errors,
            mut missing_reports,
        } = taken;
        missing_reports.push(patch.path().clone());
        *self = Stats {
            invalid_solutions,
            valid_solutions,
            builds_failed,
            test_failures,
            internal_errors,
            missing_reports,
        };
    }

    /// Counts one input line that was turned away.
    pub fn solution_rejected(&mut self)
        requires
            old(self)@.invalid_solutions < usize::MAX,
        ensures
            final(self)@ == (StatsView {
                invalid_solutions: old(self)@.invalid_solutions + 1,
                ..old(self)@
            }),
            final(self)@.wf(),
    {
        proof {
            use_type_invariant(&*self);
        }
        self.invalid_solutions = self.invalid_solutions + 1;
    }
}

} // verus!
