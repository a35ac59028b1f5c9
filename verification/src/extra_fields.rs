//! What a release note needs from a tracker record beyond the standard fields:
//! the doc type and the doc text, the target releases and the subsystems, the
//! documentation status and the docs contact.

use vstd::prelude::*;
use vstd::string::StringExecFns;

use crate::config::tracker::{FieldNames, FieldsConfig};
use crate::extraction::{
    extract_message, extraction, faults, problem_views, scan_fields, unresolved_message,
    Extraction, Scanned,
};
use crate::field_value::FieldValue;
use crate::text::{same_text, texts};

pub mod bugzilla;
pub mod jira;

pub use crate::extraction::{
    candidate_problems, extract_field, readable_errors, ExtractError, FieldFault, FieldProblem,
    Shape,
};

verus! {

/// The status or progress of the release note.
#[derive(Clone, Copy, Debug, PartialEq, Eq, Structural)]
pub enum DocTextStatus {
    Approved,
    InProgress,
    NoDocumentation,
}

/// A status token that the table of `classify` does not hold.
#[derive(Clone, Debug, PartialEq, Eq)]
pub struct StatusError {
    pub token: String,
}

/// The table of status tokens. Tokens are compared letter for letter.
pub open spec fn classify(token: Seq<char>) -> Option<DocTextStatus> {
    if token == "+"@ || token == "Done"@ {
        Some(DocTextStatus::Approved)
    } else if token == "?"@ || token == "Proposed"@ || token == "In progress"@ || token
        == "Unset"@ {
        Some(DocTextStatus::InProgress)
    } else if token == "-"@ || token == "Rejected"@ || token == "Upstream only"@ {
        Some(DocTextStatus::NoDocumentation)
    } else {
        None
    }
}

impl DocTextStatus {
    /// Reads a status token of a tracker.
    pub fn try_from(token: &str) -> (status: Result<DocTextStatus, StatusError>)
        ensures
            match status {
                Ok(known) => classify(token@) == Some(known),
                Err(e) => classify(token@) is None && e.token@ == token@,
            },
    {
        if same_text(token, "+") || same_text(token, "Done") {
            Ok(DocTextStatus::Approved)
        } else if same_text(token, "?") || same_text(token, "Proposed") || same_text(
            token,
            "In progress",
        ) || same_text(token, "Unset") {
            Ok(DocTextStatus::InProgress)
        } else if same_text(token, "-") || same_text(token, "Rejected") || same_text(
            token,
            "Upstream only",
        ) {
            Ok(DocTextStatus::NoDocumentation)
        } else {
            Err(StatusError { token: token.to_owned() })
        }
    }

    /// The label under which the status is shown.
    pub open spec fn label(self) -> Seq<char> {
        match self {
            DocTextStatus::Approved => "Done"@,
            DocTextStatus::InProgress => "WIP"@,
            DocTextStatus::NoDocumentation => "No docs"@,
        }
    }

    /// The status as it is shown to a reader.
    pub fn to_string(&self) -> (shown: String)
        ensures
            shown@ == self.label(),
    {
        match self {
            DocTextStatus::Approved => String::from_str("Done"),
            DocTextStatus::InProgress => String::from_str("WIP"),
            DocTextStatus::NoDocumentation => String::from_str("No docs"),
        }
    }
}

impl StatusError {
    /// The text of the error message.
    pub open spec fn message_text(self) -> Seq<char> {
        "Unrecognized doc text status value: \""@ + self.token@ + "\""@
    }

    /// The error as a message that names the offending token.
    pub fn message(&self) -> (message: String)
        ensures
            message@ == self.message_text(),
    {
        let mut message = String::from_str("Unrecognized doc text status value: \"");
        message.append(self.token.as_str());
        message.append("\"");
        message
    }
}

/// Every token of the table has the status that the table gives it, every
/// other token has none, and the status depends on the token's text alone: to
/// classify a token again gives the same answer.
pub proof fn lemma_classification_table(token: Seq<char>)
    ensures
        token == "+"@ || token == "Done"@ <==> classify(token) == Some(DocTextStatus::Approved),
        token == "?"@ || token == "Proposed"@ || token == "In progress"@ || token == "Unset"@
            <==> classify(token) == Some(DocTextStatus::InProgress),
        token == "-"@ || token == "Rejected"@ || token == "Upstream only"@ <==> classify(token)
            == Some(DocTextStatus::NoDocumentation),
        !(token == "+"@ || token == "Done"@ || token == "?"@ || token == "Proposed"@ || token
            == "In progress"@ || token == "Unset"@ || token == "-"@ || token == "Rejected"@
            || token == "Upstream only"@) <==> classify(token) is None,
{
    reveal_strlit("+");
    reveal_strlit("Done");
    reveal_strlit("?");
    reveal_strlit("Proposed");
    reveal_strlit("In progress");
    reveal_strlit("Unset");
    reveal_strlit("-");
    reveal_strlit("Rejected");
    reveal_strlit("Upstream only");
    assert("Done"@.len() == 4 && "Unset"@.len() == 5);
    assert("In progress"@.len() == 11 && "Upstream only"@.len() == 13);
    assert("+"@[0] == '+' && "?"@[0] == '?' && "-"@[0] == '-');
    assert("Proposed"@[0] == 'P' && "Rejected"@[0] == 'R');
}

/// The docs contact of a ticket: an email address, or none.
#[derive(Debug, PartialEq, Eq)]
pub struct DocsContact(pub Option<String>);

impl View for DocsContact {
    type V = Option<Seq<char>>;

    open spec fn view(&self) -> Option<Seq<char>> {
        match self.0 {
            Some(address) => Some(address@),
            None => None,
        }
    }
}

/// What stands for a docs contact that is absent or empty.
pub open spec fn contact_shown(contact: Option<Seq<char>>) -> Seq<char> {
    match contact {
        Some(address) => if address.len() == 0 {
            "Missing docs contact"@
        } else {
            address
        },
        None => "Missing docs contact"@,
    }
}

impl DocsContact {
    /// The docs contact as a string slice: the address, or a placeholder where
    /// the contact is absent or empty.
    pub fn as_str(&self) -> (shown: &str)
        ensures
            shown@ == contact_shown(self@),
    {
        match &self.0 {
            Some(address) => {
                if address.as_str().is_empty() {
                    "Missing docs contact"
                } else {
                    address.as_str()
                }
            },
            None => "Missing docs contact",
        }
    }

    /// The docs contact as it is shown to a reader.
    pub fn to_string(&self) -> (shown: String)
        ensures
            shown@ == contact_shown(self@),
    {
        self.as_str().to_owned()
    }
}

impl Clone for DocsContact {
    fn clone(&self) -> (copy: DocsContact)
        ensures
            copy@ == self@,
    {
        match &self.0 {
            Some(address) => DocsContact(Some(address.clone())),
            None => DocsContact(None),
        }
    }
}

/// Which field of a release note an error is about.
#[derive(Clone, Copy, Debug, PartialEq, Eq, Structural)]
pub enum FieldName {
    DocType,
    DocText,
    TargetRelease,
    Subsystems,
    DocTextStatus,
    DocsContact,
}

impl FieldName {
    /// The field as an error message calls it.
    pub open spec fn label(self) -> Seq<char> {
        match self {
            FieldName::DocType => "doc type"@,
            FieldName::DocText => "doc text"@,
            FieldName::TargetRelease => "target release"@,
            FieldName::Subsystems => "subsystems"@,
            FieldName::DocTextStatus => "doc text status"@,
            FieldName::DocsContact => "docs contact"@,
        }
    }

    /// The field as an error message calls it.
    pub fn as_str(self) -> (label: &'static str)
        ensures
            label@ == self.label(),
    {
        match self {
            FieldName::DocType => "doc type",
            FieldName::DocText => "doc text",
            FieldName::TargetRelease => "target release",
            FieldName::Subsystems => "subsystems",
            FieldName::DocTextStatus => "doc text status",
            FieldName::DocsContact => "docs contact",
        }
    }
}

/// Why a field of a ticket could not be had.
#[derive(Clone, Debug, PartialEq, Eq)]
pub enum Cause {
    /// No candidate field gave a value: one problem for each candidate, in
    /// the order of the candidates.
    Unresolved(Vec<FieldProblem>),
    /// The status is a token that the table of `classify` does not hold.
    UnrecognizedStatus(String),
}

/// Why a field of a ticket could not be had, as plain values.
pub enum CauseView {
    Unresolved(Seq<(Seq<char>, FieldFault)>),
    UnrecognizedStatus(Seq<char>),
}

impl View for Cause {
    type V = CauseView;

    open spec fn view(&self) -> CauseView {
        match self {
            Cause::Unresolved(problems) => CauseView::Unresolved(problem_views(problems@)),
            Cause::UnrecognizedStatus(token) => CauseView::UnrecognizedStatus(token@),
        }
    }
}

/// A field of a ticket could not be had: which ticket, which field, and why.
#[derive(Clone, Debug, PartialEq, Eq)]
pub struct FieldError {
    pub ticket: String,
    pub field: FieldName,
    pub cause: Cause,
}

/// A failure to get a field of a ticket, as plain values.
pub struct FieldErrorView {
    pub ticket: Seq<char>,
    pub field: FieldName,
    pub cause: CauseView,
}

impl View for FieldError {
    type V = FieldErrorView;

    open spec fn view(&self) -> FieldErrorView {
        FieldErrorView { ticket: self.ticket@, field: self.field, cause: self.cause@ }
    }
}

/// The message of a failure to get a field of a ticket: the field and the
/// ticket on the first line, the cause below it.
pub open spec fn field_error_message(error: FieldErrorView) -> Seq<char> {
    "Failed to extract the "@ + error.field.label() + " of ticket "@ + error.ticket + ".\n"@
        + match error.cause {
        CauseView::Unresolved(problems) => extract_message(error.ticket, problems),
        CauseView::UnrecognizedStatus(token) => "Unrecognized doc text status value: \""@ + token
            + "\""@,
    }
}

impl FieldError {
    /// The error as a message that names the ticket, the field and the cause.
    pub fn message(&self) -> (message: String)
        ensures
            message@ == field_error_message(self@),
    {
        let mut message = String::from_str("Failed to extract the ");
        message.append(self.field.as_str());
        message.append(" of ticket ");
        message.append(self.ticket.as_str());
        message.append(".\n");
        match &self.cause {
            Cause::Unresolved(problems) => {
                message.append(unresolved_message(self.ticket.as_str(), problems).as_str());
            },
            Cause::UnrecognizedStatus(token) => {
                message.append("Unrecognized doc text status value: \"");
                message.append(token.as_str());
                message.append("\"");
            },
        }
        message
    }
}

/// Whether a result holds what the rule gives, text for text.
pub open spec fn text_result(
    got: Result<String, FieldError>,
    rule: Result<Seq<char>, FieldErrorView>,
) -> bool {
    match got {
        Ok(value) => rule == Ok::<Seq<char>, FieldErrorView>(value@),
        Err(e) => rule == Err::<Seq<char>, FieldErrorView>(e@),
    }
}

/// Whether a result holds what the rule gives, text for text.
pub open spec fn texts_result(
    got: Result<Vec<String>, FieldError>,
    rule: Result<Seq<Seq<char>>, FieldErrorView>,
) -> bool {
    match got {
        Ok(values) => rule == Ok::<Seq<Seq<char>>, FieldErrorView>(texts(values@)),
        Err(e) => rule == Err::<Seq<Seq<char>>, FieldErrorView>(e@),
    }
}

/// Whether a result holds what the rule gives.
pub open spec fn status_result(
    got: Result<DocTextStatus, FieldError>,
    rule: Result<DocTextStatus, FieldErrorView>,
) -> bool {
    match got {
        Ok(status) => rule == Ok::<DocTextStatus, FieldErrorView>(status),
        Err(e) => rule == Err::<DocTextStatus, FieldErrorView>(e@),
    }
}

/// The first of the items at or after `from` that holds something.
pub open spec fn first_some<T>(items: Seq<Option<T>>, from: int) -> Option<T>
    decreases items.len() - from,
{
    if from < 0 || from >= items.len() {
        None
    } else {
        match items[from] {
            Some(held) => Some(held),
            None => first_some(items, from + 1),
        }
    }
}

/// A text field of a ticket by the rule of `extraction`: an unset field gives
/// the empty text, and a failure names the ticket and the field.
pub open spec fn extracted(
    extra: FieldValue,
    names: Seq<Seq<char>>,
    ticket: Seq<char>,
    field: FieldName,
) -> Result<Seq<char>, FieldErrorView> {
    match extraction(extra, names) {
        Extraction::Text(text) => Ok(text),
        Extraction::Empty => Ok(Seq::empty()),
        Extraction::Unresolved(faults) => Err(
            FieldErrorView { ticket, field, cause: CauseView::Unresolved(faults) },
        ),
    }
}

/// The failure of a field none of whose candidates gave a value.
pub open spec fn unresolved(
    extra: FieldValue,
    names: Seq<Seq<char>>,
    ticket: Seq<char>,
    field: FieldName,
    expected: Shape,
) -> FieldErrorView {
    FieldErrorView { ticket, field, cause: CauseView::Unresolved(faults(extra, names, expected)) }
}

/// The token that stands for a documentation status that is not set.
pub open spec fn unset_status_token() -> Seq<char> {
    "?"@
}

/// Whether the field `name` of the record is not set: the record has no such
/// field, or the field is there and holds nothing.
pub open spec fn is_not_set(extra: FieldValue, name: Seq<char>) -> bool {
    match extra.member(name) {
        Some(value) => value is Null,
        None => true,
    }
}

/// Whether none of the fields is set.
pub open spec fn none_set(extra: FieldValue, names: Seq<Seq<char>>) -> bool {
    forall|i: int| 0 <= i < names.len() ==> is_not_set(extra, #[trigger] names[i])
}

/// Tells whether none of the fields of a record is set.
pub fn no_field_set(extra: &FieldValue, fields: &[String]) -> (none: bool)
    ensures
        none == none_set(*extra, texts(fields@)),
{
    let mut i: usize = 0;
    while i < fields.len()
        invariant
            i <= fields.len(),
            forall|j: int| 0 <= j < i ==> is_not_set(*extra, #[trigger] texts(fields@)[j]),
        decreases fields.len() - i,
    {
        assert(fields@[i as int]@ == texts(fields@)[i as int]);
        match extra.get(fields[i].as_str()) {
            Some(value) => {
                if !value.is_null() {
                    return false;
                }
            },
            None => {},
        }
        i += 1;
    }
    true
}

/// Something about a record that is put right without failing, and that is
/// worth telling whoever runs the program.
#[derive(Clone, Copy, Debug, PartialEq, Eq, Structural)]
pub enum Notice {
    /// None of the candidates of the field holds a text, and one is present
    /// and unset: the field counts as empty.
    EmptyField(FieldName),
    /// No candidate gives a target release: the ticket has none.
    NoTargetRelease,
    /// The documentation status is not set: it counts as `?`.
    StatusUnset,
    /// The record names no docs contact.
    NoDocsContact,
}

/// The notice where the condition holds, none where it does not.
pub open spec fn notice_where(condition: bool, notice: Notice) -> Seq<Notice> {
    if condition {
        seq![notice]
    } else {
        Seq::empty()
    }
}

/// The notice of a text field that counts as empty because a candidate is
/// present and unset.
pub open spec fn empty_notice(extra: FieldValue, names: Seq<Seq<char>>, field: FieldName) -> Seq<
    Notice,
> {
    notice_where(extraction(extra, names) is Empty, Notice::EmptyField(field))
}

/// Adds the notice where the condition holds.
pub fn note_where(notices: &mut Vec<Notice>, condition: bool, notice: Notice)
    ensures
        final(notices)@ == old(notices)@ + notice_where(condition, notice),
{
    if condition {
        notices.push(notice);
    } else {
    }
}

/// Adds the notice of a text field that counts as empty.
pub fn note_empty(notices: &mut Vec<Notice>, extra: &FieldValue, fields: &[String], field: FieldName)
    ensures
        final(notices)@ == old(notices)@ + empty_notice(*extra, texts(fields@), field),
{
    let empty = match scan_fields(extra, fields) {
        Scanned::Empty => true,
        _ => false,
    };
    note_where(notices, empty, Notice::EmptyField(field));
}

/// The status that a token stands for, or the failure that names the token.
pub open spec fn status_of_token(token: Seq<char>, ticket: Seq<char>) -> Result<
    DocTextStatus,
    FieldErrorView,
> {
    match classify(token) {
        Some(status) => Ok(status),
        None => Err(
            FieldErrorView {
                ticket,
                field: FieldName::DocTextStatus,
                cause: CauseView::UnrecognizedStatus(token),
            },
        ),
    }
}

/// Extracts a text field of a ticket, and names the ticket and the field
/// where that fails.
pub fn extract_for(extra: &FieldValue, fields: &[String], id: &str, field: FieldName) -> (got:
    Result<String, FieldError>)
    ensures
        text_result(got, extracted(*extra, texts(fields@), id@, field)),
{
    match extract_field(extra, fields, id) {
        Ok(value) => Ok(value),
        Err(e) => Err(FieldError { ticket: e.ticket, field, cause: Cause::Unresolved(e.problems) }),
    }
}

/// Reads a token of the documentation status, and names the ticket where the
/// token is not known.
pub fn status_from_token(token: &str, id: &str) -> (got: Result<DocTextStatus, FieldError>)
    ensures
        status_result(got, status_of_token(token@, id@)),
{
    match DocTextStatus::try_from(token) {
        Ok(status) => Ok(status),
        Err(e) => Err(
            FieldError {
                ticket: id.to_owned(),
                field: FieldName::DocTextStatus,
                cause: Cause::UnrecognizedStatus(e.token),
            },
        ),
    }
}

/// What a release note needs from a record beyond the standard fields. Each
/// tracker's record answers in its own way; what it answers is a function of
/// the record and of the configured names alone.
pub trait ExtraFields {
    /// The doc type that the record gives under the configured names.
    spec fn doc_type_of(&self, names: FieldNames) -> Result<Seq<char>, FieldErrorView>;

    /// The doc text that the record gives under the configured names.
    spec fn doc_text_of(&self, names: FieldNames) -> Result<Seq<char>, FieldErrorView>;

    /// The target releases that the record gives under the configured names.
    spec fn target_releases_of(&self, names: FieldNames) -> Result<Seq<Seq<char>>, FieldErrorView>;

    /// The subsystems that the record gives under the configured names.
    spec fn subsystems_of(&self, names: FieldNames) -> Result<Seq<Seq<char>>, FieldErrorView>;

    /// The documentation status that the record gives under the configured names.
    spec fn doc_text_status_of(&self, names: FieldNames) -> Result<DocTextStatus, FieldErrorView>;

    /// The docs contact that the record gives under the configured names.
    spec fn docs_contact_of(&self, names: FieldNames) -> Option<Seq<char>>;

    /// The address of the ticket on the configured host.
    spec fn url_of(&self, names: FieldNames) -> Seq<char>;

    /// What is put right in the record without failing, in the order of the
    /// fields.
    spec fn notices_of(&self, names: FieldNames) -> Seq<Notice>;

    /// Extract the doc type from the ticket.
    fn doc_type<C: FieldsConfig>(&self, config: &C) -> (got: Result<String, FieldError>)
        ensures
            text_result(got, self.doc_type_of(config.names())),
    ;

    /// Extract the doc text from the ticket.
    fn doc_text<C: FieldsConfig>(&self, config: &C) -> (got: Result<String, FieldError>)
        ensures
            text_result(got, self.doc_text_of(config.names())),
    ;

    /// Extract the target release from the ticket.
    fn target_releases<C: FieldsConfig>(&self, config: &C) -> (got: Result<Vec<String>, FieldError>)
        ensures
            texts_result(got, self.target_releases_of(config.names())),
    ;

    /// Extract the subsystems from the ticket.
    fn subsystems<C: FieldsConfig>(&self, config: &C) -> (got: Result<Vec<String>, FieldError>)
        ensures
            texts_result(got, self.subsystems_of(config.names())),
    ;

    /// Extract the doc text status ("requires doc text") from the ticket.
    fn doc_text_status<C: FieldsConfig>(&self, config: &C) -> (got: Result<
        DocTextStatus,
        FieldError,
    >)
        ensures
            status_result(got, self.doc_text_status_of(config.names())),
    ;

    /// Extract the docs contact from the ticket.
    fn docs_contact<C: FieldsConfig>(&self, config: &C) -> (contact: DocsContact)
        ensures
            contact@ == self.docs_contact_of(config.names()),
    ;

    /// Construct a URL back to the original ticket online.
    fn url<C: FieldsConfig>(&self, tracker: &C) -> (url: String)
        ensures
            url@ == self.url_of(tracker.names()),
    ;

    /// Lists what the other methods put right without failing: fields that
    /// count as empty, a target release that cannot be had, a documentation
    /// status that is not set, a docs contact that is missing.
    fn notices<C: FieldsConfig>(&self, config: &C) -> (notices: Vec<Notice>)
        ensures
            notices@ == self.notices_of(config.names()),
    ;
}

} // verus!
