//! The rule by which a value is taken from the first usable one of several
//! candidate fields of a record.

use vstd::prelude::*;
use vstd::string::StringExecFns;

use crate::field_value::FieldValue;
use crate::text::{join, join_strings, texts};

verus! {

/// What a field is expected to hold.
#[derive(Clone, Copy, Debug, PartialEq, Eq, Structural)]
pub enum Shape {
    /// A text.
    Text,
    /// A pool: an object with the name of a team at `team.name`.
    Pool,
    /// An object with a text under `value`.
    ValueObject,
    /// A list of objects with a text under `value`.
    ValueList,
}

impl Shape {
    /// The shape as an error message calls it.
    pub open spec fn label(self) -> Seq<char> {
        match self {
            Shape::Text => "a string"@,
            Shape::Pool => "a pool with a team name"@,
            Shape::ValueObject => "an object with a text value"@,
            Shape::ValueList => "a list of objects with a text value"@,
        }
    }

    /// The shape as an error message calls it.
    pub fn as_str(self) -> (label: &'static str)
        ensures
            label@ == self.label(),
    {
        match self {
            Shape::Text => "a string",
            Shape::Pool => "a pool with a team name",
            Shape::ValueObject => "an object with a text value",
            Shape::ValueList => "a list of objects with a text value",
        }
    }
}

/// Why a candidate field gave no value.
#[derive(Clone, Copy, Debug, PartialEq, Eq, Structural)]
pub enum FieldFault {
    /// The record has no field of that name.
    Missing,
    /// The field holds something else than what was expected of it.
    Malformed(Shape),
}

/// A candidate field that gave no value.
#[derive(Clone, Debug, PartialEq, Eq)]
pub struct FieldProblem {
    pub field: String,
    pub fault: FieldFault,
}

impl View for FieldProblem {
    type V = (Seq<char>, FieldFault);

    open spec fn view(&self) -> (Seq<char>, FieldFault) {
        (self.field@, self.fault)
    }
}

/// No candidate field of a ticket gave a value.
#[derive(Clone, Debug, PartialEq, Eq)]
pub struct ExtractError {
    pub ticket: String,
    /// One entry for each candidate, in the order of the candidates.
    pub problems: Vec<FieldProblem>,
}

/// What the scan of the candidate fields of a record comes to.
pub enum Extraction {
    /// A candidate holds this text.
    Text(Seq<char>),
    /// No candidate holds a text, and one is present and unset.
    Empty,
    /// No candidate holds a text or is unset: why each gave nothing.
    Unresolved(Seq<(Seq<char>, FieldFault)>),
}

/// The text that the field `name` of the record holds, if it holds one.
pub open spec fn usable(extra: FieldValue, name: Seq<char>) -> Option<Seq<char>> {
    match extra.member(name) {
        Some(value) => value.text(),
        None => None,
    }
}

/// Whether the field `name` of the record is present and unset.
pub open spec fn is_unset(extra: FieldValue, name: Seq<char>) -> bool {
    extra.member(name) matches Some(value) && value is Null
}

/// The text of the first candidate at or after `from` that holds one.
pub open spec fn first_text(extra: FieldValue, names: Seq<Seq<char>>, from: int) -> Option<
    Seq<char>,
>
    decreases names.len() - from,
{
    if from < 0 || from >= names.len() {
        None
    } else {
        match usable(extra, names[from]) {
            Some(text) => Some(text),
            None => first_text(extra, names, from + 1),
        }
    }
}

/// Why the field `name` gives nothing of the expected shape: the record has
/// no such field, or the field holds something else.
pub open spec fn fault_of(extra: FieldValue, name: Seq<char>, expected: Shape) -> FieldFault {
    if extra.member(name) is None {
        FieldFault::Missing
    } else {
        FieldFault::Malformed(expected)
    }
}

/// Each candidate with the reason why it gives nothing of the expected shape.
pub open spec fn faults(extra: FieldValue, names: Seq<Seq<char>>, expected: Shape) -> Seq<
    (Seq<char>, FieldFault),
> {
    Seq::new(names.len(), |i: int| (names[i], fault_of(extra, names[i], expected)))
}

/// The rule of extraction: the first candidate that holds a text gives the
/// value; failing that, a candidate that is present and unset makes the value
/// empty; failing that too, the extraction fails with every candidate's fault.
pub open spec fn extraction(extra: FieldValue, names: Seq<Seq<char>>) -> Extraction {
    match first_text(extra, names, 0) {
        Some(text) => Extraction::Text(text),
        None => if exists|i: int| 0 <= i < names.len() && is_unset(extra, #[trigger] names[i]) {
            Extraction::Empty
        } else {
            Extraction::Unresolved(faults(extra, names, Shape::Text))
        },
    }
}

/// The line of an error report that tells of one candidate field.
pub open spec fn problem_line(problem: (Seq<char>, FieldFault), ticket: Seq<char>) -> Seq<char> {
    match problem.1 {
        FieldFault::Missing => "Field `"@ + problem.0 + "` is missing in ticket "@ + ticket + "."@,
        FieldFault::Malformed(expected) => "Field `"@ + problem.0 + "` is not "@ + expected.label()
            + " in ticket "@ + ticket + "."@,
    }
}

/// The list of errors as it closes an error message: nothing where there is no
/// error, else a heading and one error on each line.
pub open spec fn readable(errors: Seq<Seq<char>>) -> Seq<char> {
    if errors.len() == 0 {
        Seq::empty()
    } else {
        "\nThe following errors occurred:\n"@ + join(errors, "\n"@)
    }
}

/// The message of an extraction that failed: the ticket, then one line for
/// each candidate field.
pub open spec fn extract_message(ticket: Seq<char>, problems: Seq<(Seq<char>, FieldFault)>) -> Seq<
    char,
> {
    "Fields are missing or malformed in ticket "@ + ticket + ":"@ + readable(
        Seq::new(problems.len(), |i: int| problem_line(problems[i], ticket)),
    )
}

impl FieldProblem {
    /// Tells of the problem in one line.
    pub fn describe(&self, ticket: &str) -> (line: String)
        ensures
            line@ == problem_line(self@, ticket@),
    {
        let mut line = String::from_str("Field `");
        line.append(self.field.as_str());
        match self.fault {
            FieldFault::Missing => line.append("` is missing in ticket "),
            FieldFault::Malformed(expected) => {
                line.append("` is not ");
                line.append(expected.as_str());
                line.append(" in ticket ");
            },
        }
        line.append(ticket);
        line.append(".");
        line
    }
}

/// The problems of a list as plain values.
pub open spec fn problem_views(problems: Seq<FieldProblem>) -> Seq<(Seq<char>, FieldFault)> {
    problems.map_values(|p: FieldProblem| p@)
}

/// Writes the message of an extraction that failed.
pub fn unresolved_message(ticket: &str, problems: &Vec<FieldProblem>) -> (message: String)
    ensures
        message@ == extract_message(ticket@, problem_views(problems@)),
{
    let mut lines: Vec<String> = Vec::new();
    let mut i: usize = 0;
    while i < problems.len()
        invariant
            i <= problems.len(),
            lines@.len() == i,
            forall|j: int|
                0 <= j < i ==> (#[trigger] lines@[j])@ == problem_line(problems@[j]@, ticket@),
        decreases problems.len() - i,
    {
        lines.push(problems[i].describe(ticket));
        i += 1;
    }
    assert(texts(lines@) =~= Seq::new(
        problem_views(problems@).len(),
        |i: int| problem_line(problem_views(problems@)[i], ticket@),
    ));
    let mut message = String::from_str("Fields are missing or malformed in ticket ");
    message.append(ticket);
    message.append(":");
    message.append(readable_errors(lines.as_slice()).as_str());
    message
}

impl ExtractError {
    /// The problems as plain values.
    pub open spec fn faults(self) -> Seq<(Seq<char>, FieldFault)> {
        problem_views(self.problems@)
    }

    /// The error as a message that lists every candidate field once, each with
    /// what is wrong with it.
    pub fn message(&self) -> (message: String)
        ensures
            message@ == extract_message(self.ticket@, self.faults()),
    {
        unresolved_message(self.ticket.as_str(), &self.problems)
    }
}

/// Prepares a readable list of errors, if any occurred.
pub fn readable_errors(errors: &[String]) -> (listed: String)
    ensures
        listed@ == readable(texts(errors@)),
{
    if errors.len() == 0 {
        String::new()
    } else {
        let mut listed = String::from_str("\nThe following errors occurred:\n");
        listed.append(join_strings(errors, "\n").as_str());
        listed
    }
}

/// Lists each candidate with the reason why it gave nothing of the expected
/// shape: it is missing where the record has no field of that name, malformed
/// where it has one.
pub fn candidate_problems(extra: &FieldValue, fields: &[String], expected: Shape) -> (problems: Vec<
    FieldProblem,
>)
    ensures
        problem_views(problems@) == faults(*extra, texts(fields@), expected),
{
    let mut problems: Vec<FieldProblem> = Vec::new();
    let mut i: usize = 0;
    while i < fields.len()
        invariant
            i <= fields.len(),
            problems@.len() == i,
            forall|j: int|
                0 <= j < i ==> (#[trigger] problems@[j])@ == (
                    texts(fields@)[j],
                    fault_of(*extra, texts(fields@)[j], expected),
                ),
        decreases fields.len() - i,
    {
        let field = fields[i].as_str();
        let fault = match extra.get(field) {
            Some(_) => FieldFault::Malformed(expected),
            None => FieldFault::Missing,
        };
        problems.push(FieldProblem { field: field.to_owned(), fault });
        i += 1;
    }
    problems
}

/// What the scan of the candidate fields of a record found.
#[derive(Clone, Debug, PartialEq, Eq)]
pub enum Scanned {
    /// A candidate holds this text.
    Text(String),
    /// No candidate holds a text, and one is present and unset.
    Empty,
    /// No candidate holds a text or is unset: one problem for each candidate.
    Unresolved(Vec<FieldProblem>),
}

/// Whether the scan found what the rule of extraction gives.
pub open spec fn scanned_as(scanned: Scanned, rule: Extraction) -> bool {
    match rule {
        Extraction::Text(text) => scanned matches Scanned::Text(value) && value@ == text,
        Extraction::Empty => scanned is Empty,
        Extraction::Unresolved(faults) => scanned matches Scanned::Unresolved(problems)
            && problem_views(problems@) == faults,
    }
}

/// Scans the candidate fields of a record's extension fields for a text.
///
/// The candidates are tried in order. The first that holds a text ends the
/// scan, and no later one is looked at.
pub fn scan_fields(extra: &FieldValue, fields: &[String]) -> (scanned: Scanned)
    ensures
        scanned_as(scanned, extraction(*extra, texts(fields@))),
{
    let ghost names = texts(fields@);
    let mut problems: Vec<FieldProblem> = Vec::new();
    let mut any_unset = false;
    let mut i: usize = 0;
    while i < fields.len()
        invariant
            i <= fields.len(),
            names == texts(fields@),
            first_text(*extra, names, 0) == first_text(*extra, names, i as int),
            any_unset == (exists|j: int| 0 <= j < i && is_unset(*extra, #[trigger] names[j])),
            problems@.len() == i,
            forall|j: int|
                0 <= j < i ==> (#[trigger] problems@[j])@ == (
                    names[j],
                    fault_of(*extra, names[j], Shape::Text),
                ),
        decreases fields.len() - i,
    {
        let field = fields[i].as_str();
        match extra.get(field) {
            Some(value) => {
                if value.is_null() {
                    any_unset = true;
                }
                match value.as_str() {
                    Some(text) => {
                        return Scanned::Text(text.to_owned());
                    },
                    None => {
                        problems.push(
                            FieldProblem {
                                field: field.to_owned(),
                                fault: FieldFault::Malformed(Shape::Text),
                            },
                        );
                    },
                }
            },
            None => {
                problems.push(FieldProblem { field: field.to_owned(), fault: FieldFault::Missing });
            },
        }
        i += 1;
    }
    if any_unset {
        Scanned::Empty
    } else {
        assert(problem_views(problems@) =~= faults(*extra, names, Shape::Text));
        Scanned::Unresolved(problems)
    }
}

/// Takes a string value from the first usable one of the candidate fields of
/// a record's extension fields.
///
/// The candidates are tried in order. The first that holds a text gives the
/// value, and no later one is looked at. A candidate that is present and unset
/// makes the value empty where no candidate holds a text. Where neither
/// happens, the error lists each candidate with what is wrong with it.
pub fn extract_field(extra: &FieldValue, fields: &[String], id: &str) -> (extracted: Result<
    String,
    ExtractError,
>)
    ensures
        match extraction(*extra, texts(fields@)) {
            Extraction::Text(text) => extracted matches Ok(value) && value@ == text,
            Extraction::Empty => extracted matches Ok(value) && value@ == Seq::<char>::empty(),
            Extraction::Unresolved(faults) => extracted matches Err(e) && e.ticket@ == id@
                && e.faults() == faults,
        },
{
    match scan_fields(extra, fields) {
        Scanned::Text(value) => Ok(value),
        Scanned::Empty => Ok(String::new()),
        Scanned::Unresolved(problems) => Err(ExtractError { ticket: id.to_owned(), problems }),
    }
}

/// Where the first candidate that the record has holds a text, that text is
/// extracted, and the candidates after it play no part: whatever follows it in
/// the list, the result is the same.
pub proof fn lemma_first_present_text_is_extracted(
    extra: FieldValue,
    names: Seq<Seq<char>>,
    first: int,
    later: Seq<Seq<char>>,
)
    requires
        0 <= first < names.len(),
        forall|j: int| 0 <= j < first ==> extra.member(#[trigger] names[j]) is None,
        usable(extra, names[first]) is Some,
    ensures
        extraction(extra, names) == Extraction::Text(usable(extra, names[first])->0),
        extraction(extra, names.take(first + 1) + later) == extraction(extra, names),
{
    lemma_first_text_skips_absent(extra, names, first, 0);
    let other = names.take(first + 1) + later;
    lemma_first_text_skips_absent(extra, other, first, 0);
}

/// The candidates before `first` hold no text, so the scan from `from` comes to
/// what the scan from `first` comes to.
proof fn lemma_first_text_skips_absent(
    extra: FieldValue,
    names: Seq<Seq<char>>,
    first: int,
    from: int,
)
    requires
        0 <= from <= first < names.len(),
        forall|j: int| 0 <= j < first ==> usable(extra, #[trigger] names[j]) is None,
    ensures
        first_text(extra, names, from) == first_text(extra, names, first),
    decreases first - from,
{
    if from < first {
        lemma_first_text_skips_absent(extra, names, first, from + 1);
    }
}

/// Where no candidate from `from` on holds a text, the scan finds none.
proof fn lemma_first_text_none(extra: FieldValue, names: Seq<Seq<char>>, from: int)
    requires
        0 <= from,
        forall|j: int| from <= j < names.len() ==> usable(extra, #[trigger] names[j]) is None,
    ensures
        first_text(extra, names, from) is None,
    decreases names.len() - from,
{
    if from < names.len() {
        lemma_first_text_none(extra, names, from + 1);
    }
}

/// Where the record has none of the candidate fields, the extraction fails, and
/// its error holds each candidate once, in order, as missing: the message has
/// one line for each of them.
pub proof fn lemma_all_absent_is_unresolved(
    extra: FieldValue,
    names: Seq<Seq<char>>,
    ticket: Seq<char>,
)
    requires
        forall|i: int| 0 <= i < names.len() ==> extra.member(#[trigger] names[i]) is None,
    ensures
        extraction(extra, names) == Extraction::Unresolved(
            Seq::new(names.len(), |i: int| (names[i], FieldFault::Missing)),
        ),
        extract_message(ticket, faults(extra, names, Shape::Text))
            == "Fields are missing or malformed in ticket "@ + ticket + ":"@ + readable(
            Seq::new(
                names.len(),
                |i: int| "Field `"@ + names[i] + "` is missing in ticket "@ + ticket + "."@,
            ),
        ),
{
    lemma_first_text_none(extra, names, 0);
    assert(faults(extra, names, Shape::Text) =~= Seq::new(names.len(), |i: int| (names[i], FieldFault::Missing)));
    let problems = faults(extra, names, Shape::Text);
    assert(Seq::new(problems.len(), |i: int| problem_line(problems[i], ticket)) =~= Seq::new(
        names.len(),
        |i: int| "Field `"@ + names[i] + "` is missing in ticket "@ + ticket + "."@,
    ));
}

/// Where one candidate is present and unset and the record has none of the
/// others, the extraction gives the empty value and does not fail.
pub proof fn lemma_single_unset_candidate_is_empty(
    extra: FieldValue,
    names: Seq<Seq<char>>,
    unset: int,
)
    requires
        0 <= unset < names.len(),
        is_unset(extra, names[unset]),
        forall|i: int|
            0 <= i < names.len() && i != unset ==> extra.member(#[trigger] names[i]) is None,
    ensures
        extraction(extra, names) == Extraction::Empty,
{
    lemma_first_text_none(extra, names, 0);
}

} // verus!
