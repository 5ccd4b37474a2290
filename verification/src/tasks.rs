//! The bookkeeping around the processing of patches: which input lines start
//! a process, what is counted, what is printed and what is saved.
//!
//! The program reads the lines, runs the process for each accepted patch and
//! writes the output; between these steps it asks the [`LineProcessor`] what
//! to do and tells it what happened.

use crate::patch_validator::{
    accepts, rejects, text_of, FileProbe, Patch, PatchValidator, ValidationError,
};
use crate::printer::{report_file, verdict_line, Emission, Printer};
use crate::stats::{test_failed, Stats, StatsView};
use crate::tester::RunReport;
use crate::IoFailure;
use vstd::prelude::*;
use vstd::string::StrSliceExecFns;

verus! {

/// What became of one line of input.
#[derive(Debug)]
pub enum LineOutcome {
    /// The line is empty and is passed over.
    Blank,
    /// The line was turned away and counted as rejected.
    Rejected(ValidationError),
    /// The line names a patch, which is to be processed now.
    Accepted(Patch),
}

/// Validates input lines, keeps the statistics, and words the results.
#[derive(Debug)]
pub struct LineProcessor {
    validator: PatchValidator,
    stats: Stats,
    printer: Printer,
}

impl LineProcessor {
    /// The validator, for contracts.
    pub closed spec fn validator(&self) -> PatchValidator {
        self.validator
    }

    /// The statistics, for contracts.
    pub closed spec fn stats(&self) -> Stats {
        self.stats
    }

    /// The printer, for contracts.
    pub closed spec fn printer(&self) -> Printer {
        self.printer
    }

    /// A processor that has seen no line yet and keeps detailed reports in
    /// `reports_dir`, if there is one.
    pub fn new(reports_dir: Option<String>) -> (processor: Self)
        ensures
            processor.validator()@ == Map::<Seq<char>, Seq<char>>::empty(),
            processor.stats()@.valid_solutions == 0,
            processor.stats()@.invalid_solutions == 0,
            processor.stats()@.builds_failed == 0,
            processor.stats()@.test_failures == Map::<Seq<char>, usize>::empty(),
            processor.stats()@.internal_errors.len() == 0,
            processor.stats()@.missing_reports.len() == 0,
            processor.printer().reports_dir == reports_dir,
    {
        LineProcessor {
            validator: PatchValidator::new(),
            stats: Stats::default(),
            printer: Printer::new(reports_dir),
        }
    }

    /// The statistics so far.
    pub fn statistics(&self) -> (stats: &Stats)
        ensures
            *stats == self.stats(),
    {
        &self.stats
    }

    /// Decides on one line of input. `line` is the path as it was read,
    /// `file_name` its last component where it has one, and `is_file` says
    /// whether it leads to a regular file.
    ///
    /// An empty line is passed over and changes nothing. Every other line is
    /// put before the validator; a line that the validator turns away is
    /// counted as rejected.
    pub fn validate(&mut self, line: &str, file_name: Option<&str>, is_file: FileProbe) -> (outcome:
        LineOutcome)
        requires
            old(self).stats()@.invalid_solutions < usize::MAX,
        ensures
            final(self).printer() == old(self).printer(),
            outcome is Blank <==> line@.len() == 0,
            outcome is Blank ==> final(self).validator()@ == old(self).validator()@
                && final(self).stats()@ == old(self).stats()@,
            outcome is Accepted <==> line@.len() > 0 && accepts(
                old(self).validator()@,
                text_of(file_name),
                is_file,
            ),
            outcome matches LineOutcome::Accepted(patch) ==> {
                &&& patch.spec_path()@ == line@
                &&& patch.spec_id() == file_name->0@.subrange(0, 8)
                &&& final(self).validator()@ == old(self).validator()@.insert(
                    file_name->0@,
                    line@,
                )
                &&& final(self).stats()@ == old(self).stats()@
            },
            outcome matches LineOutcome::Rejected(error) ==> {
                &&& rejects(old(self).validator()@, text_of(file_name), is_file, error)
                &&& final(self).validator()@ == old(self).validator()@
                &&& final(self).stats()@ == (StatsView {
                    invalid_solutions: old(self).stats()@.invalid_solutions + 1,
                    ..old(self).stats()@
                })
            },
    {
        if line.unicode_len() == 0 {
            return LineOutcome::Blank;
        }
        match self.validator.validate(line, file_name, is_file) {
            Ok(patch) => LineOutcome::Accepted(patch),
            Err(error) => {
                self.stats.solution_rejected();
                LineOutcome::Rejected(error)
            },
        }
    }

    /// Takes in the result of processing `patch`: counts it, and for a
    /// report says what is to be written out. After an error of the harness
    /// nothing is written.
    pub fn process(&mut self, patch: &Patch, result: &Result<RunReport, IoFailure>) -> (emission:
        Option<Emission>)
        requires
            old(self).stats()@.valid_solutions < usize::MAX,
        ensures
            final(self).printer() == old(self).printer(),
            final(self).validator() == old(self).validator(),
            final(self).stats()@.valid_solutions == old(self).stats()@.valid_solutions + 1,
            final(self).stats()@.wf(),
            result is Err ==> final(self).stats()@.internal_errors
                == old(self).stats()@.internal_errors.push(patch.spec_path()),
            result is Ok ==> final(self).stats()@.internal_errors
                == old(self).stats()@.internal_errors,
            final(self).stats()@.invalid_solutions == old(self).stats()@.invalid_solutions,
            final(self).stats()@.missing_reports == old(self).stats()@.missing_reports,
            result is Err ==> {
                &&& final(self).stats()@.builds_failed == old(self).stats()@.builds_failed
                &&& final(self).stats()@.test_failures == old(self).stats()@.test_failures
            },
            result matches Ok(report) ==> {
                &&& final(self).stats()@.builds_failed == old(self).stats()@.builds_failed + (
                if report.spec_build().is_success() {
                    0nat
                } else {
                    1nat
                })
                &&& forall|test: Seq<char>|
                    #[trigger] final(self).stats()@.failures_of(test)
                        == old(self).stats()@.failures_of(test) + (if test_failed(*report, test) {
                        1nat
                    } else {
                        0nat
                    })
            },
            emission is Some <==> result is Ok,
            emission matches Some(out) ==> {
                &&& out.line@ == verdict_line(patch.spec_id(), patch.spec_path()@, result->Ok_0)
                &&& out.report_file is Some <==> old(self).printer().reports_dir is Some
                &&& out.report_file matches Some(file) ==> file@ == report_file(
                    old(self).printer().reports_dir->0@,
                    patch.spec_id(),
                )
            },
    {
        self.stats.patch_processed(patch, result);
        match result {
            Ok(report) => Some(self.printer.print(patch, report)),
            Err(_) => None,
        }
    }

    /// Takes in whether the detailed report of `patch` was saved: a failure
    /// puts the patch on the list of missing reports.
    pub fn save_report(&mut self, patch: &Patch, saved: &Result<(), IoFailure>)
        ensures
            final(self).printer() == old(self).printer(),
            final(self).validator() == old(self).validator(),
            saved is Ok ==> final(self).stats()@ == old(self).stats()@,
            saved is Err ==> final(self).stats()@ == (StatsView {
                missing_reports: old(self).stats()@.missing_reports.push(patch.spec_path()),
                ..old(self).stats()@
            }),
    {
        if saved.is_err() {
            self.stats.saving_report_failed(patch);
        }
    }

    /// Ends the run and hands out the statistics.
    pub fn run(self) -> (stats: Stats)
        ensures
            stats == self.stats(),
    {
        self.stats
    }
}

} // verus!
