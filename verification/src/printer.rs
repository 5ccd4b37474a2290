//! The one-line verdict on a patch, and where its detailed report goes.

use crate::names::NameMap;
use crate::patch_validator::Patch;
use crate::tester::{RunReport, ScenarioReport};
use crate::text::{
    comma_joined, insert_sorted, join_path, join_with_commas, joined, lemma_text_order_is_total,
    text_order, views,
};
use vstd::prelude::*;
use vstd::relations::sorted_by;
use vstd::string::StringExecFns;

verus! {

/// The names of the tests that failed among the first `end` tests of `tests`,
/// in the order of the map.
pub open spec fn failing(tests: NameMap<ScenarioReport>, end: int) -> Seq<Seq<char>>
    decreases end,
{
    if end <= 0 {
        Seq::empty()
    } else if !tests.values()[end - 1].is_success() {
        failing(tests, end - 1).push(tests.names()[end - 1])
    } else {
        failing(tests, end - 1)
    }
}

/// The names of all tests of `report` that failed, in the order of texts.
pub open spec fn failed_sorted(report: RunReport) -> Seq<Seq<char>> {
    failing(report.spec_tests(), report.spec_tests().names().len() as int).sort_by(text_order())
}

/// The verdict on a patch: `build failed` where the build failed, `OK` where
/// no test failed, and else the names of the failed tests, sorted, with
/// commas between them.
pub open spec fn verdict_text(report: RunReport) -> Seq<char> {
    if !report.spec_build().is_success() {
        "build failed"@
    } else if failed_sorted(report).len() == 0 {
        "OK"@
    } else {
        comma_joined(failed_sorted(report))
    }
}

/// The line that is printed for a patch: identifier, path and verdict with
/// semicolons between them, and a line feed at the end.
pub open spec fn verdict_line(id: Seq<char>, path: Seq<char>, report: RunReport) -> Seq<char> {
    id + seq![';'] + path + seq![';'] + verdict_text(report) + seq!['\n']
}

/// The path of the detailed report of the patch `id` in the directory `dir`.
pub open spec fn report_file(dir: Seq<char>, id: Seq<char>) -> Seq<char> {
    joined(dir, id + ".json"@)
}

/// What to write out for a processed patch.
#[derive(Debug)]
pub struct Emission {
    /// The line for the standard output, with its line feed.
    pub line: String,
    /// The file for the detailed report, where such reports are kept.
    pub report_file: Option<String>,
}

/// Writes verdicts and names the files for detailed reports.
#[derive(Debug)]
pub struct Printer {
    /// The directory for detailed reports; without one, none is written.
    pub reports_dir: Option<String>,
}

impl Printer {
    /// A printer that puts detailed reports into `reports_dir`, if there is one.
    pub fn new(reports_dir: Option<String>) -> (printer: Self)
        ensures
            printer.reports_dir == reports_dir,
    {
        Printer { reports_dir }
    }

    /// The names of the tests of `report` that failed, sorted.
    pub fn failed_tests(report: &RunReport) -> (names: Vec<String>)
        ensures
            views(names@) == failed_sorted(*report),
    {
        let tests = report.tests();
        let count = tests.len();
        let mut names: Vec<String> = Vec::new();
        let mut i: usize = 0;
        proof {
            assert(views(names@) =~= Seq::<Seq<char>>::empty());
            assert(views(names@).to_multiset() =~= failing(*tests, 0).to_multiset());
        }
        while i < count
            invariant
                i <= count,
                count == tests.names().len(),
                count == tests.values().len(),
                sorted_by(views(names@), text_order()),
                views(names@).to_multiset() == failing(*tests, i as int).to_multiset(),
            decreases count - i,
        {
            if !tests.value_at(i).success() {
                let name = tests.name_at(i).clone();
                proof {
                    vstd::seq_lib::to_multiset_build(failing(*tests, i as int), name@);
                }
                insert_sorted(&mut names, name);
            }
            i += 1;
        }
        proof {
            let unsorted = failing(*tests, count as int);
            lemma_text_order_is_total();
            unsorted.lemma_sort_by_ensures(text_order());
            vstd::seq_lib::lemma_sorted_unique(
                views(names@),
                unsorted.sort_by(text_order()),
                text_order(),
            );
        }
        names
    }

    /// The verdict on a patch with the report `report`.
    pub fn verdict(report: &RunReport) -> (text: String)
        ensures
            text@ == verdict_text(*report),
    {
        if !report.build().success() {
            return "build failed".to_owned();
        }
        let failed = Self::failed_tests(report);
        if failed.len() == 0 {
            "OK".to_owned()
        } else {
            join_with_commas(&failed)
        }
    }

    /// The line to print for `patch` after it was processed with `report`.
    pub fn print_results(&self, patch: &Patch, report: &RunReport) -> (line: String)
        ensures
            line@ == verdict_line(patch.spec_id(), patch.spec_path()@, *report),
    {
        proof {
            reveal_strlit(";");
            reveal_strlit("\n");
        }
        let mut line = patch.id().to_owned();
        line.append(";");
        line.append(patch.path().as_str());
        line.append(";");
        line.append(Self::verdict(report).as_str());
        line.append("\n");
        proof {
            assert(line@ =~= verdict_line(patch.spec_id(), patch.spec_path()@, *report));
        }
        line
    }

    /// What is to be written out for `patch` after it was processed with
    /// `report`: the verdict line, and the file for the detailed report
    /// where such reports are kept.
    pub fn print(&self, patch: &Patch, report: &RunReport) -> (out: Emission)
        ensures
            out.line@ == verdict_line(patch.spec_id(), patch.spec_path()@, *report),
            out.report_file is Some <==> self.reports_dir is Some,
            out.report_file matches Some(file) ==> file@ == report_file(
                self.reports_dir->0@,
                patch.spec_id(),
            ),
    {
        Emission { line: self.print_results(patch, report), report_file: self.print_report(patch) }
    }

    /// The file that the detailed report of `patch` is written to: the
    /// patch's identifier with the extension `json`, in the directory for
    /// reports. `None` where there is no such directory.
    pub fn print_report(&self, patch: &Patch) -> (file: Option<String>)
        ensures
            file is Some <==> self.reports_dir is Some,
            file matches Some(path) ==> path@ == report_file(
                self.reports_dir->0@,
                patch.spec_id(),
            ),
    {
        match &self.reports_dir {
            Some(dir) => {
                let mut name = patch.id().to_owned();
                name.append(".json");
                Some(join_path(dir.as_str(), name.as_str()))
            },
            None => None,
        }
    }
}

} // verus!
