//! The statistics of the writers of a project.

use vstd::prelude::*;

use crate::extra_fields::contact_shown;
use crate::status_report::checks::{overall_of, Checks};
use crate::status_report::progress::{grade_of, percentage, share, Grade};
use crate::text::same_text;
use crate::ticket_abstraction::AbstractTicket;

verus! {

/// Records all tickets that belong to a writer and stores statistics
/// on the overall completeness of the release notes.
#[derive(Clone, Debug, PartialEq, Eq)]
pub struct WriterStats {
    pub name: String,
    pub total: usize,
    pub complete: usize,
    pub warnings: usize,
    pub incomplete: usize,
}

/// The statistics of a writer, as plain values.
pub struct WriterStatsView {
    pub name: Seq<char>,
    pub total: nat,
    pub complete: nat,
    pub warnings: nat,
    pub incomplete: nat,
}

impl View for WriterStats {
    type V = WriterStatsView;

    open spec fn view(&self) -> WriterStatsView {
        WriterStatsView {
            name: self.name@,
            total: self.total as nat,
            complete: self.complete as nat,
            warnings: self.warnings as nat,
            incomplete: self.incomplete as nat,
        }
    }
}

/// The statistics of the writers of a list, as plain values.
pub open spec fn stats_views(stats: Seq<WriterStats>) -> Seq<WriterStatsView> {
    stats.map_values(|s: WriterStats| s@)
}

/// The statistics with one more ticket of the given grade.
pub open spec fn with_grade(stats: WriterStatsView, grade: Grade) -> WriterStatsView {
    WriterStatsView {
        name: stats.name,
        total: stats.total + 1,
        complete: if grade == Grade::Complete {
            stats.complete + 1
        } else {
            stats.complete
        },
        warnings: if grade == Grade::Warning {
            stats.warnings + 1
        } else {
            stats.warnings
        },
        incomplete: if grade == Grade::Incomplete {
            stats.incomplete + 1
        } else {
            stats.incomplete
        },
    }
}

impl WriterStats {
    /// The statistics of a writer to whom no ticket has been counted yet.
    pub fn new(name: String) -> (stats: WriterStats)
        ensures
            stats@ == (WriterStatsView {
                name: name@,
                total: 0,
                complete: 0,
                warnings: 0,
                incomplete: 0,
            }),
    {
        WriterStats { name, total: 0, complete: 0, warnings: 0, incomplete: 0 }
    }

    /// Whether the three counts are within the total.
    pub open spec fn wf(self) -> bool {
        self.complete + self.warnings + self.incomplete <= self.total
    }

    /// Update these writer statistics with data from a ticket and its release note.
    pub fn update(&mut self, checks: &Checks)
        requires
            old(self).wf(),
            old(self).total < usize::MAX,
        ensures
            final(self).wf(),
            final(self)@ == with_grade(old(self)@, grade_of(overall_of(checks@))),
    {
        self.total += 1;
        match checks.overall().grade() {
            Grade::Complete => self.complete += 1,
            Grade::Warning => self.warnings += 1,
            Grade::Incomplete => self.incomplete += 1,
        }
    }

    /// The statistics with one more ticket of the given grade.
    fn counting(&self, grade: Grade) -> (stats: WriterStats)
        requires
            self.wf(),
            self.total < usize::MAX,
        ensures
            stats.wf(),
            stats@ == with_grade(self@, grade),
    {
        let mut stats = WriterStats {
            name: self.name.clone(),
            total: self.total + 1,
            complete: self.complete,
            warnings: self.warnings,
            incomplete: self.incomplete,
        };
        match grade {
            Grade::Complete => stats.complete += 1,
            Grade::Warning => stats.warnings += 1,
            Grade::Incomplete => stats.incomplete += 1,
        }
        stats
    }

    /// Calculate the percentage of complete release notes assigned to this
    /// writer, in hundredths of a percent. A writer without any release note
    /// is at zero.
    pub fn percent(&self) -> (pct: u128)
        ensures
            pct == share(self.complete as nat, self.total as nat),
            self.total == 0 ==> pct == 0,
    {
        percentage(self.complete, self.total)
    }
}

/// For each ticket, the writer that it counts for and the grade of its checks.
/// A ticket without a docs contact counts for the placeholder's writer.
pub open spec fn writer_entries(pairs: Seq<(&AbstractTicket, &Checks)>) -> Seq<(Seq<char>, Grade)> {
    pairs.map_values(
        |p: (&AbstractTicket, &Checks)| (contact_shown(p.0@.docs_contact), grade_of(overall_of(p.1@))),
    )
}

/// How many of the first `upto` tickets count for the writer.
pub open spec fn assigned(entries: Seq<(Seq<char>, Grade)>, name: Seq<char>, upto: int) -> nat
    decreases upto,
{
    if upto <= 0 || upto > entries.len() {
        0
    } else if entries[upto - 1].0 == name {
        assigned(entries, name, upto - 1) + 1
    } else {
        assigned(entries, name, upto - 1)
    }
}

/// How many of the first `upto` tickets count for the writer with the grade.
pub open spec fn graded(
    entries: Seq<(Seq<char>, Grade)>,
    name: Seq<char>,
    grade: Grade,
    upto: int,
) -> nat
    decreases upto,
{
    if upto <= 0 || upto > entries.len() {
        0
    } else if entries[upto - 1].0 == name && entries[upto - 1].1 == grade {
        graded(entries, name, grade, upto - 1) + 1
    } else {
        graded(entries, name, grade, upto - 1)
    }
}

/// The place of the first ticket at or after `from` that counts for the
/// writer, or the number of tickets if there is none.
pub open spec fn first_entry(entries: Seq<(Seq<char>, Grade)>, name: Seq<char>, from: int) -> int
    decreases entries.len() - from,
{
    if from < 0 || from >= entries.len() {
        entries.len() as int
    } else if entries[from].0 == name {
        from
    } else {
        first_entry(entries, name, from + 1)
    }
}

/// The statistics of a writer over the first `upto` tickets.
pub open spec fn stats_upto(entries: Seq<(Seq<char>, Grade)>, name: Seq<char>, upto: int)
    -> WriterStatsView {
    WriterStatsView {
        name,
        total: assigned(entries, name, upto),
        complete: graded(entries, name, Grade::Complete, upto),
        warnings: graded(entries, name, Grade::Warning, upto),
        incomplete: graded(entries, name, Grade::Incomplete, upto),
    }
}

/// Whether writer `a` comes before writer `b` in the statistics: more tickets
/// count for `a`, or as many and the first of them comes earlier.
pub open spec fn busier(entries: Seq<(Seq<char>, Grade)>, a: Seq<char>, b: Seq<char>) -> bool {
    let all = entries.len() as int;
    assigned(entries, a, all) > assigned(entries, b, all) || (assigned(entries, a, all)
        == assigned(entries, b, all) && first_entry(entries, a, 0) < first_entry(entries, b, 0))
}

/// Whether a writer of that name is among the statistics.
pub open spec fn has_writer(stats: Seq<WriterStatsView>, name: Seq<char>) -> bool {
    exists|i: int| 0 <= i < stats.len() && (#[trigger] stats[i]).name == name
}

/// Whether `stats` are the statistics of the writers of the tickets: one
/// entry for each writer that a ticket counts for, with the counts of all
/// tickets of that writer, the writer with the most tickets first.
pub open spec fn is_writer_stats(entries: Seq<(Seq<char>, Grade)>, stats: Seq<WriterStatsView>)
    -> bool {
    &&& forall|i: int|
        0 <= i < stats.len() ==> (#[trigger] stats[i]) == stats_upto(
            entries,
            stats[i].name,
            entries.len() as int,
        ) && stats[i].total > 0
    &&& forall|i: int, j: int|
        0 <= i < j < stats.len() ==> busier(
            entries,
            (#[trigger] stats[i]).name,
            (#[trigger] stats[j]).name,
        )
    &&& forall|k: int| 0 <= k < entries.len() ==> has_writer(stats, (#[trigger] entries[k]).0)
}

/// Where the ticket at `place` is the first that counts for the writer, the
/// writer's first ticket is at `place`.
proof fn lemma_first_entry_at(
    entries: Seq<(Seq<char>, Grade)>,
    name: Seq<char>,
    from: int,
    place: int,
)
    requires
        0 <= from <= place < entries.len(),
        entries[place].0 == name,
        forall|i: int| from <= i < place ==> (#[trigger] entries[i]).0 != name,
    ensures
        first_entry(entries, name, from) == place,
    decreases place - from,
{
    if from < place {
        lemma_first_entry_at(entries, name, from + 1, place);
    }
}

/// No more tickets count for a writer than there are; and none where no
/// ticket names the writer.
proof fn lemma_assigned_bounds(entries: Seq<(Seq<char>, Grade)>, name: Seq<char>, upto: int)
    requires
        0 <= upto <= entries.len(),
    ensures
        assigned(entries, name, upto) <= upto,
        graded(entries, name, Grade::Complete, upto) + graded(entries, name, Grade::Warning, upto)
            + graded(entries, name, Grade::Incomplete, upto) == assigned(entries, name, upto),
        (forall|i: int| 0 <= i < upto ==> (#[trigger] entries[i]).0 != name) ==> assigned(
            entries,
            name,
            upto,
        ) == 0,
    decreases upto,
{
    if upto > 0 {
        lemma_assigned_bounds(entries, name, upto - 1);
    }
}

/// Gather statistics on all writers involved in the project and all their release notes.
/// Returns a list of statistics per writer, sorted by the total number of release notes
/// assigned to the writer, the highest number first. Of two writers with the
/// same number, the one whose first ticket comes earlier comes first.
pub fn calculate_writer_stats(tickets_with_checks: &[(&AbstractTicket, &Checks)]) -> (writers: Vec<
    WriterStats,
>)
    ensures
        is_writer_stats(writer_entries(tickets_with_checks@), stats_views(writers@)),
{
    let ghost entries = writer_entries(tickets_with_checks@);
    let ghost all = entries.len() as int;
    // The writers in the order in which the tickets name them first.
    let mut groups: Vec<WriterStats> = Vec::new();
    let mut k: usize = 0;
    while k < tickets_with_checks.len()
        invariant
            k <= tickets_with_checks.len(),
            entries == writer_entries(tickets_with_checks@),
            all == entries.len(),
            forall|i: int|
                0 <= i < groups@.len() ==> (#[trigger] groups@[i])@ == stats_upto(
                    entries,
                    groups@[i].name@,
                    k as int,
                ) && groups@[i].total > 0 && first_entry(entries, groups@[i].name@, 0) < k,
            forall|i: int, j: int|
                0 <= i < j < groups@.len() ==> first_entry(
                    entries,
                    (#[trigger] groups@[i]).name@,
                    0,
                ) < first_entry(entries, (#[trigger] groups@[j]).name@, 0),
            forall|m: int|
                0 <= m < k ==> has_writer(stats_views(groups@), (#[trigger] entries[m]).0),
        decreases tickets_with_checks.len() - k,
    {
        let name = tickets_with_checks[k].0.docs_contact.as_str();
        let grade = tickets_with_checks[k].1.overall().grade();
        let ghost before = groups@;
        let mut g: usize = 0;
        while g < groups.len() && !same_text(groups[g].name.as_str(), name)
            invariant
                g <= groups.len(),
                forall|i: int| 0 <= i < g ==> (#[trigger] groups@[i]).name@ != name@,
            decreases groups.len() - g,
        {
            g += 1;
        }
        if g < groups.len() {
            proof {
                lemma_assigned_bounds(entries, name@, k as int);
            }
            let counted = groups[g].counting(grade);
            groups.set(g, counted);
            proof {
                assert forall|m: int| 0 <= m < k + 1 implies has_writer(
                    stats_views(groups@),
                    (#[trigger] entries[m]).0,
                ) by {
                    if m < k {
                        let i = choose|i: int|
                            0 <= i < stats_views(before).len() && (#[trigger] stats_views(
                                before,
                            )[i]).name == entries[m].0;
                        assert(stats_views(groups@)[i].name == entries[m].0);
                    } else {
                        assert(stats_views(groups@)[g as int].name == entries[m].0);
                    }
                }
            }
        } else {
            proof {
                lemma_assigned_bounds(entries, name@, k as int);
                lemma_first_entry_at(entries, name@, 0, k as int);
            }
            let fresh = WriterStats::new(name.to_owned());
            let counted = fresh.counting(grade);
            groups.push(counted);
            proof {
                assert forall|m: int| 0 <= m < k + 1 implies has_writer(
                    stats_views(groups@),
                    (#[trigger] entries[m]).0,
                ) by {
                    if m < k {
                        let i = choose|i: int|
                            0 <= i < stats_views(before).len() && (#[trigger] stats_views(
                                before,
                            )[i]).name == entries[m].0;
                        assert(stats_views(groups@)[i].name == entries[m].0);
                    } else {
                        assert(stats_views(groups@)[groups@.len() - 1].name == entries[m].0);
                    }
                }
            }
        }
        k += 1;
    }
    // Sort by the number of assigned release notes, the highest first. A
    // writer goes behind those with as many, so that ties keep their order.
    let ghost found = groups@;
    let mut writers: Vec<WriterStats> = Vec::new();
    for stats in it: groups
        invariant
            it.seq() == found,
            all == entries.len(),
            writers@.len() == it.index(),
            forall|i: int|
                0 <= i < found.len() ==> (#[trigger] found[i])@ == stats_upto(
                    entries,
                    found[i].name@,
                    all,
                ) && found[i].total > 0,
            forall|i: int, j: int|
                0 <= i < j < found.len() ==> first_entry(entries, (#[trigger] found[i]).name@, 0)
                    < first_entry(entries, (#[trigger] found[j]).name@, 0),
            forall|a: int|
                0 <= a < writers@.len() ==> (#[trigger] writers@[a])@ == stats_upto(
                    entries,
                    writers@[a].name@,
                    all,
                ) && writers@[a].total > 0,
            forall|a: int, b: int|
                0 <= a < b < writers@.len() ==> busier(
                    entries,
                    (#[trigger] writers@[a]).name@,
                    (#[trigger] writers@[b]).name@,
                ),
            forall|a: int|
                0 <= a < writers@.len() ==> has_writer(
                    stats_views(found.take(it.index() as int)),
                    (#[trigger] writers@[a]).name@,
                ),
            forall|i: int|
                0 <= i < it.index() ==> has_writer(
                    stats_views(writers@),
                    (#[trigger] found[i]).name@,
                ),
    {
        let ghost n = it.index() as int;
        let ghost before = writers@;
        let mut p: usize = 0;
        while p < writers.len() && writers[p].total >= stats.total
            invariant
                p <= writers.len(),
                forall|a: int| 0 <= a < p ==> (#[trigger] writers@[a]).total >= stats.total,
            decreases writers.len() - p,
        {
            p += 1;
        }
        writers.insert(p, stats);
        proof {
            assert forall|a: int| 0 <= a < writers@.len() implies has_writer(
                stats_views(found.take(n + 1)),
                (#[trigger] writers@[a]).name@,
            ) by {
                if a == p {
                    assert(stats_views(found.take(n + 1))[n].name == stats.name@);
                } else {
                    let old_a = if a < p {
                        a
                    } else {
                        a - 1
                    };
                    let i = choose|i: int|
                        0 <= i < stats_views(found.take(n)).len() && (#[trigger] stats_views(
                            found.take(n),
                        )[i]).name == before[old_a].name@;
                    assert(stats_views(found.take(n + 1))[i].name == writers@[a].name@);
                }
            }
            assert forall|i: int| 0 <= i < n + 1 implies has_writer(
                stats_views(writers@),
                (#[trigger] found[i]).name@,
            ) by {
                if i == n {
                    assert(stats_views(writers@)[p as int].name == found[i].name@);
                } else {
                    let a = choose|a: int|
                        0 <= a < stats_views(before).len() && (#[trigger] stats_views(
                            before,
                        )[a]).name == found[i].name@;
                    let new_a = if a < p {
                        a
                    } else {
                        a + 1
                    };
                    assert(stats_views(writers@)[new_a].name == found[i].name@);
                }
            }
        }
    }
    writers
}

/// A writer for whom a ticket counts is named by one of the tickets.
proof fn lemma_assigned_writer_occurs(entries: Seq<(Seq<char>, Grade)>, name: Seq<char>, upto: int)
    requires
        0 <= upto <= entries.len(),
        assigned(entries, name, upto) > 0,
    ensures
        exists|k: int| 0 <= k < upto && (#[trigger] entries[k]).0 == name,
    decreases upto,
{
    if entries[upto - 1].0 != name {
        lemma_assigned_writer_occurs(entries, name, upto - 1);
    }
}

/// Where two lists of statistics of the same tickets agree in the names
/// before place `i`, and the first has a writer at `i`, the second has a
/// writer there too: that writer or a busier one.
proof fn lemma_next_writer_is_listed(
    entries: Seq<(Seq<char>, Grade)>,
    a: Seq<WriterStatsView>,
    b: Seq<WriterStatsView>,
    i: int,
)
    requires
        is_writer_stats(entries, a),
        is_writer_stats(entries, b),
        0 <= i < a.len(),
        i <= b.len(),
        forall|j: int| 0 <= j < i ==> a[j].name == b[j].name,
    ensures
        i < b.len(),
        b[i].name == a[i].name || busier(entries, b[i].name, a[i].name),
{
    let name = a[i].name;
    lemma_assigned_writer_occurs(entries, name, entries.len() as int);
}

/// Two lists of statistics of the same tickets name the same writers in
/// their first `upto` places.
proof fn lemma_writers_agree(
    entries: Seq<(Seq<char>, Grade)>,
    a: Seq<WriterStatsView>,
    b: Seq<WriterStatsView>,
    upto: int,
)
    requires
        is_writer_stats(entries, a),
        is_writer_stats(entries, b),
        0 <= upto <= a.len(),
        upto <= b.len(),
    ensures
        forall|i: int| 0 <= i < upto ==> a[i].name == b[i].name,
    decreases upto,
{
    if upto > 0 {
        lemma_writers_agree(entries, a, b, upto - 1);
        let i = upto - 1;
        if a[i].name != b[i].name {
            lemma_next_writer_is_listed(entries, a, b, i);
            lemma_next_writer_is_listed(entries, b, a, i);
        }
    }
}

/// The statistics of the writers of a list of tickets are one list and no
/// other: two lists that both meet `is_writer_stats` for the same tickets are
/// equal.
pub proof fn lemma_writer_stats_are_unique(
    entries: Seq<(Seq<char>, Grade)>,
    a: Seq<WriterStatsView>,
    b: Seq<WriterStatsView>,
)
    requires
        is_writer_stats(entries, a),
        is_writer_stats(entries, b),
    ensures
        a == b,
{
    if a.len() <= b.len() {
        lemma_writers_agree(entries, a, b, a.len() as int);
        if a.len() < b.len() {
            lemma_next_writer_is_listed(entries, b, a, a.len() as int);
        }
    } else {
        lemma_writers_agree(entries, a, b, b.len() as int);
        lemma_next_writer_is_listed(entries, a, b, b.len() as int);
    }
}

} // verus!
