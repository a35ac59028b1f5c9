//! How far a project is: how many of its release notes are complete.

use vstd::prelude::*;

use crate::status_report::checks::{overall_of, Checks, Status, StatusView};

verus! {

/// How far the release note of a ticket is: what its checks come to overall.
#[derive(Clone, Copy, Debug, PartialEq, Eq, Structural)]
pub enum Grade {
    /// No check has anything to report.
    Complete,
    /// A check warns and none ended in an error.
    Warning,
    /// A check ended in an error.
    Incomplete,
}

/// The grade that an overall status stands for.
pub open spec fn grade_of(status: StatusView) -> Grade {
    match status {
        StatusView::Okay => Grade::Complete,
        StatusView::Warning(_) => Grade::Warning,
        StatusView::Error(_) => Grade::Incomplete,
    }
}

/// The grade of each ticket's checks, in order.
pub open spec fn grades_of(checks: Seq<Checks>) -> Seq<Grade> {
    checks.map_values(|c: Checks| grade_of(overall_of(c@)))
}

/// How many of the first `upto` grades are `grade`.
pub open spec fn count_grade(grades: Seq<Grade>, grade: Grade, upto: int) -> nat
    decreases upto,
{
    if upto <= 0 || upto > grades.len() {
        0
    } else if grades[upto - 1] == grade {
        count_grade(grades, grade, upto - 1) + 1
    } else {
        count_grade(grades, grade, upto - 1)
    }
}

/// The share of `part` in `total`, in hundredths of a percent and rounded
/// down. Of nothing, every share is zero.
pub open spec fn share(part: nat, total: nat) -> nat {
    if total == 0 {
        0
    } else {
        (part * 10000) / total
    }
}

/// Calculate the percentage of a part in a total amount, in hundredths of a
/// percent: 10000 stands for the whole. Where the total is zero, the
/// percentage is zero.
pub fn percentage(part: usize, total: usize) -> (pct: u128)
    ensures
        pct == share(part as nat, total as nat),
{
    if total == 0 {
        0
    } else {
        (part as u128) * 10000 / (total as u128)
    }
}

impl Status {
    /// The grade that the status stands for.
    pub fn grade(&self) -> (grade: Grade)
        ensures
            grade == grade_of(self@),
    {
        match self {
            Status::Okay => Grade::Complete,
            Status::Warning(_) => Grade::Warning,
            Status::Error(_) => Grade::Incomplete,
        }
    }
}

/// An overview of the completeness status across all tickets.
#[derive(Clone, Copy, Debug, PartialEq, Eq, Structural)]
pub struct OverallProgress {
    pub all: usize,
    pub complete: usize,
    /// In hundredths of a percent.
    pub complete_pct: u128,
    pub warnings: usize,
    /// In hundredths of a percent.
    pub warnings_pct: u128,
    pub incomplete: usize,
    /// In hundredths of a percent.
    pub incomplete_pct: u128,
}

impl OverallProgress {
    /// Counts the tickets by what their checks come to overall: complete, with
    /// warnings, or incomplete; and gives each count as a share of all.
    pub fn from_checks(item: &[Checks]) -> (progress: OverallProgress)
        ensures
            progress.all == item@.len(),
            progress.complete == count_grade(grades_of(item@), Grade::Complete, item@.len() as int),
            progress.warnings == count_grade(grades_of(item@), Grade::Warning, item@.len() as int),
            progress.incomplete == count_grade(
                grades_of(item@),
                Grade::Incomplete,
                item@.len() as int,
            ),
            progress.complete + progress.warnings + progress.incomplete == progress.all,
            progress.complete_pct == share(progress.complete as nat, progress.all as nat),
            progress.warnings_pct == share(progress.warnings as nat, progress.all as nat),
            progress.incomplete_pct == share(progress.incomplete as nat, progress.all as nat),
    {
        let all = item.len();
        let ghost grades = grades_of(item@);
        let mut complete: usize = 0;
        let mut warnings: usize = 0;
        let mut incomplete: usize = 0;
        let mut i: usize = 0;
        while i < item.len()
            invariant
                i <= item.len(),
                grades == grades_of(item@),
                complete == count_grade(grades, Grade::Complete, i as int),
                warnings == count_grade(grades, Grade::Warning, i as int),
                incomplete == count_grade(grades, Grade::Incomplete, i as int),
                complete + warnings + incomplete == i,
            decreases item.len() - i,
        {
            match item[i].overall().grade() {
                Grade::Complete => {
                    complete += 1;
                },
                Grade::Warning => {
                    warnings += 1;
                },
                Grade::Incomplete => {
                    incomplete += 1;
                },
            }
            i += 1;
        }
        OverallProgress {
            all,
            complete,
            complete_pct: percentage(complete, all),
            warnings,
            warnings_pct: percentage(warnings, all),
            incomplete,
            incomplete_pct: percentage(incomplete, all),
        }
    }
}

} // verus!
