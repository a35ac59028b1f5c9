//! The checks that tell whether a ticket's release note is ready, and the
//! figures that sum them up for a project.

use vstd::prelude::*;

use crate::tally::is_most_common;
use crate::text::texts;
use crate::ticket_abstraction::{ticket_views, AbstractTicket};

pub mod checks;
pub mod display;
pub mod progress;
pub mod writers;

pub use crate::status_report::checks::{checks_of, Checks, ChecksView, Status, StatusView};
pub use crate::status_report::display::{
    combined_products, combined_releases, list_or_placeholder, listed_or, products_of,
    releases_of,
};
pub use crate::status_report::progress::{
    count_grade, grades_of, percentage, share, Grade, OverallProgress,
};
pub use crate::status_report::writers::{
    calculate_writer_stats, is_writer_stats, stats_views, writer_entries, WriterStats,
    WriterStatsView,
};

verus! {

/// What a status table shows of a project: the figures of `analyze_status`.
#[derive(Clone, Debug, PartialEq, Eq)]
pub struct StatusTable {
    /// The most common products, the most common first.
    pub products: Vec<String>,
    /// The most common products as one text.
    pub products_display: String,
    /// The most common target releases, the most common first.
    pub releases: Vec<String>,
    /// The most common target releases as one text.
    pub releases_display: String,
    pub overall_progress: OverallProgress,
    /// The checks of each ticket, in the order of the tickets.
    pub checks: Vec<Checks>,
    pub per_writer_stats: Vec<WriterStats>,
}

/// Each ticket with its checks.
pub open spec fn paired<'a>(tickets: Seq<AbstractTicket>, checks: Seq<Checks>) -> Seq<
    (&'a AbstractTicket, &'a Checks),
> {
    Seq::new(tickets.len(), |i: int| (&tickets[i], &checks[i]))
}

/// Analyzes the release notes of all tickets: the most common products and
/// target releases, the checks of each ticket against the most common target
/// release, how many tickets are complete, and the statistics of each writer.
pub fn analyze_status(tickets: &[AbstractTicket]) -> (table: StatusTable)
    ensures
        is_most_common(products_of(ticket_views(tickets@)), 3, texts(table.products@)),
        table.products_display@ == listed_or(texts(table.products@), "no products"@),
        is_most_common(
            releases_of(ticket_views(tickets@), tickets@.len() as int),
            3,
            texts(table.releases@),
        ),
        table.releases_display@ == listed_or(texts(table.releases@), "no releases"@),
        table.checks@.len() == tickets@.len(),
        forall|i: int|
            0 <= i < tickets@.len() ==> (#[trigger] table.checks@[i])@ == checks_of(
                tickets@[i]@,
                texts(table.releases@),
            ),
        table.overall_progress.all == tickets@.len(),
        table.overall_progress.complete == count_grade(
            grades_of(table.checks@),
            Grade::Complete,
            tickets@.len() as int,
        ),
        table.overall_progress.warnings == count_grade(
            grades_of(table.checks@),
            Grade::Warning,
            tickets@.len() as int,
        ),
        table.overall_progress.incomplete == count_grade(
            grades_of(table.checks@),
            Grade::Incomplete,
            tickets@.len() as int,
        ),
        table.overall_progress.complete_pct == share(
            table.overall_progress.complete as nat,
            table.overall_progress.all as nat,
        ),
        table.overall_progress.warnings_pct == share(
            table.overall_progress.warnings as nat,
            table.overall_progress.all as nat,
        ),
        table.overall_progress.incomplete_pct == share(
            table.overall_progress.incomplete as nat,
            table.overall_progress.all as nat,
        ),
        is_writer_stats(
            writer_entries(paired(tickets@, table.checks@)),
            stats_views(table.per_writer_stats@),
        ),
{
    let products = combined_products(tickets);
    let products_display = list_or_placeholder(products.as_slice(), "products");
    let releases = combined_releases(tickets);
    let releases_display = list_or_placeholder(releases.as_slice(), "releases");
    proof {
        reveal_strlit("no ");
        reveal_strlit("products");
        reveal_strlit("releases");
        reveal_strlit("no products");
        reveal_strlit("no releases");
    }
    let mut checks: Vec<Checks> = Vec::new();
    let mut i: usize = 0;
    while i < tickets.len()
        invariant
            i <= tickets.len(),
            checks@.len() == i,
            forall|j: int|
                0 <= j < i ==> (#[trigger] checks@[j])@ == checks_of(
                    tickets@[j]@,
                    texts(releases@),
                ),
        decreases tickets.len() - i,
    {
        checks.push(tickets[i].checks(releases.as_slice()));
        i += 1;
    }
    let overall_progress = OverallProgress::from_checks(checks.as_slice());
    let mut tickets_with_checks: Vec<(&AbstractTicket, &Checks)> = Vec::new();
    let mut i: usize = 0;
    while i < tickets.len()
        invariant
            i <= tickets.len(),
            checks@.len() == tickets@.len(),
            tickets_with_checks@.len() == i,
            forall|j: int|
                0 <= j < i ==> (#[trigger] tickets_with_checks@[j]) == (
                    &tickets@[j],
                    &checks@[j],
                ),
        decreases tickets.len() - i,
    {
        tickets_with_checks.push((&tickets[i], &checks[i]));
        i += 1;
    }
    assert(tickets_with_checks@ =~= paired(tickets@, checks@));
    let per_writer_stats = calculate_writer_stats(tickets_with_checks.as_slice());
    StatusTable {
        products,
        products_display,
        releases,
        releases_display,
        overall_progress,
        checks,
        per_writer_stats,
    }
}

} // verus!
