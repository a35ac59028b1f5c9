//! The checks of one ticket: the stage of development, the doc type, the
//! documentation status, the title of the release note and the target release.

use vstd::prelude::*;
use vstd::string::StrSliceExecFns;
use vstd::string::StringExecFns;

use crate::extra_fields::DocTextStatus;
use crate::pattern::{regex_search, search};
use crate::text::{
    char_is_whitespace, chars_of, contains_text, is_blank, join, join_strings,
    lowercase, optional_text, same_text, texts, to_lowercase,
};
use crate::ticket_abstraction::{AbstractTicket, TicketView};

verus! {

/// The outcome of a check.
#[derive(Debug, PartialEq, Eq)]
pub enum Status {
    /// Nothing to report.
    Okay,
    Warning(String),
    Error(String),
}

/// The outcome of a check, as plain values.
pub enum StatusView {
    Okay,
    Warning(Seq<char>),
    Error(Seq<char>),
}

impl View for Status {
    type V = StatusView;

    open spec fn view(&self) -> StatusView {
        match self {
            Status::Okay => StatusView::Okay,
            Status::Warning(message) => StatusView::Warning(message@),
            Status::Error(message) => StatusView::Error(message@),
        }
    }
}

impl Clone for Status {
    fn clone(&self) -> (copy: Status)
        ensures
            copy@ == self@,
    {
        match self {
            Status::Okay => Status::Okay,
            Status::Warning(message) => Status::Warning(message.clone()),
            Status::Error(message) => Status::Error(message.clone()),
        }
    }
}

impl Default for Status {
    fn default() -> (status: Status)
        ensures
            status@ == StatusView::Okay,
    {
        Status::Okay
    }
}

impl StatusView {
    /// What the status tells a reader.
    pub open spec fn message(self) -> Seq<char> {
        match self {
            StatusView::Okay => "OK"@,
            StatusView::Warning(message) => message,
            StatusView::Error(message) => message,
        }
    }

    /// The colour in which the status is shown.
    pub open spec fn color(self) -> Seq<char> {
        match self {
            StatusView::Okay => "green"@,
            StatusView::Warning(_) => "orange"@,
            StatusView::Error(_) => "red"@,
        }
    }
}

/// Where the line that begins at `from` ends: at the next line feed, or at the
/// end of the text.
pub open spec fn line_end(text: Seq<char>, from: int) -> int
    decreases text.len() - from,
{
    if from < 0 || from >= text.len() {
        from
    } else if text[from] == '\n' {
        from
    } else {
        line_end(text, from + 1)
    }
}

/// The line that begins at `from`, without its line ending: a line feed, or a
/// carriage return and a line feed.
pub open spec fn line_at(text: Seq<char>, from: int) -> Seq<char> {
    let end = line_end(text, from);
    if from < end < text.len() && text[end - 1] == '\r' {
        text.subrange(from, end - 1)
    } else {
        text.subrange(from, end)
    }
}

/// Whether a line counts for nothing in a release note: it is blank, or it is
/// a comment, which begins with two slashes.
pub open spec fn is_skipped(line: Seq<char>) -> bool {
    is_blank(line) || (line.len() >= 2 && line[0] == '/' && line[1] == '/')
}

/// The first line at or after `from` that is neither blank nor a comment.
pub open spec fn first_content_line(text: Seq<char>, from: int) -> Option<Seq<char>>
    decreases text.len() - from + 1,
    via first_content_line_decreases
{
    if from < 0 || from >= text.len() {
        None
    } else if is_skipped(line_at(text, from)) {
        first_content_line(text, line_end(text, from) + 1)
    } else {
        Some(line_at(text, from))
    }
}

#[via_fn]
proof fn first_content_line_decreases(text: Seq<char>, from: int) {
    if 0 <= from < text.len() {
        lemma_line_end_bounds(text, from);
    }
}

/// A line ends at or after its beginning and within the text.
pub proof fn lemma_line_end_bounds(text: Seq<char>, from: int)
    requires
        0 <= from <= text.len(),
    ensures
        from <= line_end(text, from) <= text.len(),
        forall|i: int| from <= i < line_end(text, from) ==> text[i] != '\n',
        line_end(text, from) < text.len() ==> text[line_end(text, from)] == '\n',
    decreases text.len() - from,
{
    if from < text.len() && text[from] != '\n' {
        lemma_line_end_bounds(text, from + 1);
    }
}

/// The pattern of a title: a period, and right after it one or more
/// characters that are not white space.
pub open spec fn title_pattern() -> Seq<char> {
    "\\.\\S+"@
}

/// What the first line of a release note comes to, given whether the note has
/// a line that counts and whether that line holds a title.
pub open spec fn title_verdict(has_content: bool, is_title: bool) -> StatusView {
    if !has_content {
        StatusView::Error("The release note is empty."@)
    } else if is_title {
        StatusView::Okay
    } else {
        StatusView::Error("First line is not a title."@)
    }
}

/// The check of the title of a release note: the first line that is neither
/// blank nor a comment has to match the pattern of a title.
pub open spec fn title_check(text: Seq<char>) -> StatusView {
    match first_content_line(text, 0) {
        Some(line) => title_verdict(true, regex_search(title_pattern(), line) == Some(true)),
        None => title_verdict(false, false),
    }
}

/// The check of the stage of development, given the status in lower case.
pub open spec fn devel_check(lowered: Seq<char>) -> StatusView {
    if lowered == "to do"@ || lowered == "new"@ || lowered == "assigned"@ || lowered
        == "modified"@ {
        StatusView::Warning("Early development."@)
    } else {
        StatusView::Okay
    }
}

/// The check of the doc type: the value that the tracker shows where nobody
/// has set one is refused.
pub open spec fn doc_type_check(doc_type: Seq<char>) -> StatusView {
    if doc_type == "If docs needed, set a value"@ {
        StatusView::Error("Bad doc type."@)
    } else {
        StatusView::Okay
    }
}

/// Whether a doc type, in lower case, belongs to no particular release.
pub open spec fn is_unchecked_doc_type(lowered: Seq<char>) -> bool {
    lowered == "known issue"@ || lowered == "technology preview"@ || lowered
        == "deprecated functionality"@
}

/// The check of the target release, given the doc type in lower case. Where
/// the project has no likely release there is nothing to compare with.
pub open spec fn target_release_check(
    ticket_releases: Seq<Seq<char>>,
    likely_release: Option<Seq<char>>,
    lowered_doc_type: Seq<char>,
) -> StatusView {
    match likely_release {
        Some(release) => if ticket_releases.contains(release) || is_unchecked_doc_type(
            lowered_doc_type,
        ) {
            StatusView::Okay
        } else {
            StatusView::Warning("Check target release."@)
        },
        None => StatusView::Okay,
    }
}

/// The check of the documentation status.
pub open spec fn doc_status_check(status: DocTextStatus) -> StatusView {
    match status {
        DocTextStatus::Approved => StatusView::Okay,
        DocTextStatus::InProgress => StatusView::Error("Release note not approved."@),
        DocTextStatus::NoDocumentation => StatusView::Error("Release note disabled."@),
    }
}

impl Status {
    /// What the status tells a reader.
    pub fn message(&self) -> (message: &str)
        ensures
            message@ == self@.message(),
    {
        match self {
            Status::Okay => "OK",
            Status::Warning(message) => message.as_str(),
            Status::Error(message) => message.as_str(),
        }
    }

    /// The colour in which the status is shown.
    pub fn color(&self) -> (color: &'static str)
        ensures
            color@ == self@.color(),
    {
        match self {
            Status::Okay => "green",
            Status::Warning(_) => "orange",
            Status::Error(_) => "red",
        }
    }

    /// The status of a release note's first line, given whether the note has
    /// a line that counts and whether that line holds a title.
    pub fn from_first_line(has_content: bool, is_title: bool) -> (status: Status)
        ensures
            status@ == title_verdict(has_content, is_title),
    {
        if !has_content {
            Status::Error(String::from_str("The release note is empty."))
        } else if is_title {
            Status::Okay
        } else {
            Status::Error(String::from_str("First line is not a title."))
        }
    }

    /// Checks that the release note begins with a title. Blank lines and
    /// comments before it are passed over.
    pub fn from_title(text: &str) -> (status: Status)
        ensures
            status@ == title_check(text@),
    {
        let chars = chars_of(text);
        let mut from: usize = 0;
        while from < chars.len()
            invariant
                chars@ == text@,
                from <= chars.len(),
                first_content_line(text@, 0) == first_content_line(text@, from as int),
            decreases chars.len() - from,
        {
            // Find the end of the line.
            let mut end: usize = from;
            while end < chars.len() && chars[end] != '\n'
                invariant
                    from <= end <= chars.len(),
                    chars@ == text@,
                    line_end(text@, from as int) == line_end(text@, end as int),
                decreases chars.len() - end,
            {
                end += 1;
            }
            let stop = if from < end && end < chars.len() && chars[end - 1] == '\r' {
                end - 1
            } else {
                end
            };
            // See whether the line counts.
            let mut blank = true;
            let mut i: usize = from;
            while i < stop
                invariant
                    from <= i <= stop <= chars.len(),
                    chars@ == text@,
                    blank == is_blank(text@.subrange(from as int, i as int)),
                decreases stop - i,
            {
                let ghost next = text@.subrange(from as int, i as int + 1);
                let white = char_is_whitespace(chars[i]);
                proof {
                    assert(next[i - from] == text@[i as int]);
                }
                blank = blank && white;
                i += 1;
            }
            let comment = stop - from >= 2 && chars[from] == '/' && chars[from + 1] == '/';
            if blank || comment {
                if end < chars.len() {
                    from = end + 1;
                } else {
                    assert(first_content_line(text@, end as int + 1) is None);
                    from = chars.len();
                }
            } else {
                let found = search("\\.\\S+", text.substring_char(from, stop));
                return Status::from_first_line(
                    true,
                    match found {
                        Some(matched) => matched,
                        None => false,
                    },
                );
            }
        }
        Status::from_first_line(false, false)
    }

    /// The status of the stage of development, given the ticket's status in
    /// lower case.
    pub fn from_lowercase_devel_status(lowered: &str) -> (status: Status)
        ensures
            status@ == devel_check(lowered@),
    {
        if same_text(lowered, "to do") || same_text(lowered, "new") || same_text(
            lowered,
            "assigned",
        ) || same_text(lowered, "modified") {
            Status::Warning(String::from_str("Early development."))
        } else {
            Status::Okay
        }
    }

    /// Report when the bug is in early stages of development.
    pub fn from_devel_status(status: &str) -> (checked: Status)
        ensures
            checked@ == devel_check(lowercase(status@)),
    {
        let lowered = to_lowercase(status);
        Status::from_lowercase_devel_status(lowered.as_str())
    }

    /// Report if the doc type is set to a non-release note type.
    pub fn from_doc_type(doc_type: &str) -> (status: Status)
        ensures
            status@ == doc_type_check(doc_type@),
    {
        if same_text(doc_type, "If docs needed, set a value") {
            Status::Error(String::from_str("Bad doc type."))
        } else {
            Status::Okay
        }
    }

    /// The status of the target release, given the doc type in lower case.
    pub fn from_target_release_lowercase(
        ticket_releases: &[String],
        likely_release: Option<&str>,
        lowered_doc_type: &str,
    ) -> (status: Status)
        ensures
            status@ == target_release_check(
                texts(ticket_releases@),
                match likely_release {
                    Some(release) => Some(release@),
                    None => None,
                },
                lowered_doc_type@,
            ),
    {
        match likely_release {
            Some(release) => {
                if contains_text(ticket_releases, release) || same_text(
                    lowered_doc_type,
                    "known issue",
                ) || same_text(lowered_doc_type, "technology preview") || same_text(
                    lowered_doc_type,
                    "deprecated functionality",
                ) {
                    Status::Okay
                } else {
                    Status::Warning(String::from_str("Check target release."))
                }
            },
            None => Status::Okay,
        }
    }

    /// Report if the ticket's target release doesn't match the global target release.
    pub fn from_target_release(
        ticket_releases: &[String],
        likely_release: Option<&str>,
        doc_type: &str,
    ) -> (status: Status)
        ensures
            status@ == target_release_check(
                texts(ticket_releases@),
                match likely_release {
                    Some(release) => Some(release@),
                    None => None,
                },
                lowercase(doc_type@),
            ),
    {
        let lowered = to_lowercase(doc_type);
        Status::from_target_release_lowercase(ticket_releases, likely_release, lowered.as_str())
    }

    /// Report if the release note is not approved.
    pub fn from_doc_text_status(item: DocTextStatus) -> (status: Status)
        ensures
            status@ == doc_status_check(item),
    {
        match item {
            DocTextStatus::Approved => Status::Okay,
            DocTextStatus::InProgress => Status::Error(
                String::from_str("Release note not approved."),
            ),
            DocTextStatus::NoDocumentation => Status::Error(
                String::from_str("Release note disabled."),
            ),
        }
    }
}

/// The outcomes of all the checks of one ticket.
#[derive(Clone, Debug, PartialEq, Eq)]
pub struct Checks {
    pub development: Status,
    pub doc_type: Status,
    pub doc_status: Status,
    pub title_and_text: Status,
    pub target_release: Status,
}

/// The outcomes of all the checks of one ticket, as plain values.
pub struct ChecksView {
    pub development: StatusView,
    pub doc_type: StatusView,
    pub doc_status: StatusView,
    pub title_and_text: StatusView,
    pub target_release: StatusView,
}

impl View for Checks {
    type V = ChecksView;

    open spec fn view(&self) -> ChecksView {
        ChecksView {
            development: self.development@,
            doc_type: self.doc_type@,
            doc_status: self.doc_status@,
            title_and_text: self.title_and_text@,
            target_release: self.target_release@,
        }
    }
}

impl Default for Checks {
    fn default() -> (checks: Checks)
        ensures
            checks@ == (ChecksView {
                development: StatusView::Okay,
                doc_type: StatusView::Okay,
                doc_status: StatusView::Okay,
                title_and_text: StatusView::Okay,
                target_release: StatusView::Okay,
            }),
    {
        Checks {
            development: Status::Okay,
            doc_type: Status::Okay,
            doc_status: Status::Okay,
            title_and_text: Status::Okay,
            target_release: Status::Okay,
        }
    }
}

/// The message of a check that ended in an error.
pub open spec fn error_part(status: StatusView) -> Seq<Seq<char>> {
    match status {
        StatusView::Error(message) => seq![message],
        _ => Seq::empty(),
    }
}

/// The message of a check that ended in a warning.
pub open spec fn warning_part(status: StatusView) -> Seq<Seq<char>> {
    match status {
        StatusView::Warning(message) => seq![message],
        _ => Seq::empty(),
    }
}

/// The messages of the checks that ended in an error: the doc type first,
/// then the title, the documentation status, the stage of development and the
/// target release.
pub open spec fn errors_of(checks: ChecksView) -> Seq<Seq<char>> {
    error_part(checks.doc_type) + error_part(checks.title_and_text) + error_part(
        checks.doc_status,
    ) + error_part(checks.development) + error_part(checks.target_release)
}

/// The messages of the checks that ended in a warning, in the same order.
pub open spec fn warnings_of(checks: ChecksView) -> Seq<Seq<char>> {
    warning_part(checks.doc_type) + warning_part(checks.title_and_text) + warning_part(
        checks.doc_status,
    ) + warning_part(checks.development) + warning_part(checks.target_release)
}

/// The checks of a ticket summed up. Where a check ended in an error, the
/// errors of all checks, with a space between each two. Where none did and a
/// check ended in a warning, the warnings of all checks likewise. The warnings
/// are those of the checks that warned: an error is never shown as one.
pub open spec fn overall_of(checks: ChecksView) -> StatusView {
    if errors_of(checks).len() > 0 {
        StatusView::Error(join(errors_of(checks), " "@))
    } else if warnings_of(checks).len() > 0 {
        StatusView::Warning(join(warnings_of(checks), " "@))
    } else {
        StatusView::Okay
    }
}

/// Adds the message of a status to the list where the status is an error.
fn collect_error(status: &Status, errors: &mut Vec<String>)
    ensures
        texts(final(errors)@) == texts(old(errors)@) + error_part(status@),
{
    match status {
        Status::Error(message) => {
            errors.push(message.clone());
        },
        _ => {
        },
    }
}

/// Adds the message of a status to the list where the status is a warning.
fn collect_warning(status: &Status, warnings: &mut Vec<String>)
    ensures
        texts(final(warnings)@) == texts(old(warnings)@) + warning_part(status@),
{
    match status {
        Status::Warning(message) => {
            warnings.push(message.clone());
        },
        _ => {
        },
    }
}

impl Checks {
    /// Present an overview of all the particular status checks:
    ///
    /// * If any check resulted in an error, return the list of all errors.
    /// * If any check resulted in a warning, return the list of all warnings.
    /// * If there are no errors or warnings, return `Okay`.
    pub fn overall(&self) -> (status: Status)
        ensures
            status@ == overall_of(self@),
    {
        let mut errors: Vec<String> = Vec::new();
        collect_error(&self.doc_type, &mut errors);
        collect_error(&self.title_and_text, &mut errors);
        collect_error(&self.doc_status, &mut errors);
        collect_error(&self.development, &mut errors);
        collect_error(&self.target_release, &mut errors);
        let mut warnings: Vec<String> = Vec::new();
        collect_warning(&self.doc_type, &mut warnings);
        collect_warning(&self.title_and_text, &mut warnings);
        collect_warning(&self.doc_status, &mut warnings);
        collect_warning(&self.development, &mut warnings);
        collect_warning(&self.target_release, &mut warnings);
        if errors.len() > 0 {
            Status::Error(join_strings(errors.as_slice(), " "))
        } else if warnings.len() > 0 {
            Status::Warning(join_strings(warnings.as_slice(), " "))
        } else {
            Status::Okay
        }
    }
}

/// A text that may be absent, read as empty where it is.
pub open spec fn text_or_empty(held: Option<Seq<char>>) -> Seq<char> {
    match held {
        Some(text) => text,
        None => Seq::empty(),
    }
}

/// The release that most tickets of the project are meant for: the first of
/// the project's releases, where there is one.
pub open spec fn likely_release(releases: Seq<Seq<char>>) -> Option<Seq<char>> {
    if releases.len() > 0 {
        Some(releases[0])
    } else {
        None
    }
}

/// All the checks of a ticket, given the releases of the project, the most
/// common first. A doc type or a doc text that the ticket lacks is checked as
/// an empty one.
pub open spec fn checks_of(ticket: TicketView, releases: Seq<Seq<char>>) -> ChecksView {
    ChecksView {
        development: devel_check(lowercase(ticket.status)),
        title_and_text: title_check(text_or_empty(ticket.doc_text)),
        doc_type: doc_type_check(text_or_empty(ticket.doc_type)),
        doc_status: doc_status_check(ticket.doc_text_status),
        target_release: target_release_check(
            ticket.target_releases,
            likely_release(releases),
            lowercase(text_or_empty(ticket.doc_type)),
        ),
    }
}

/// The string that an optional string holds, or the empty string.
fn str_or_empty(held: &Option<String>) -> (text: &str)
    ensures
        text@ == text_or_empty(optional_text(*held)),
{
    match held {
        Some(text) => text.as_str(),
        None => {
            proof {
                reveal_strlit("");
            }
            ""
        },
    }
}

impl AbstractTicket {
    /// Analyze the release note status of the ticket. Record the analysis as `Checks`.
    pub fn checks(&self, releases: &[String]) -> (checks: Checks)
        ensures
            checks@ == checks_of(self@, texts(releases@)),
    {
        let doc_type = str_or_empty(&self.doc_type);
        let doc_text = str_or_empty(&self.doc_text);
        let likely = if releases.len() > 0 {
            Some(releases[0].as_str())
        } else {
            None
        };
        Checks {
            development: Status::from_devel_status(self.status.as_str()),
            title_and_text: Status::from_title(doc_text),
            doc_type: Status::from_doc_type(doc_type),
            doc_status: Status::from_doc_text_status(self.doc_text_status),
            target_release: Status::from_target_release(
                self.target_releases.as_slice(),
                likely,
                doc_type,
            ),
        }
    }
}

} // verus!
