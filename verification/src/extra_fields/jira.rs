//! How a Jira issue answers for the fields of a release note.

use vstd::prelude::*;
use vstd::slice::slice_subrange;
use vstd::string::StringExecFns;

use crate::config::tracker::{FieldNames, FieldsConfig};
use crate::extra_fields::{
    empty_notice, extract_for, extracted, first_some, lemma_classification_table, no_field_set,
    none_set, note_empty, note_where, notice_where, status_from_token, status_of_token, unresolved,
    unset_status_token, Cause, DocTextStatus, DocsContact, ExtraFields, FieldError, FieldErrorView,
    FieldName, Notice,
};
use crate::extraction::{candidate_problems, Shape};
use crate::field_value::FieldValue;
use crate::record::Issue;
use crate::text::texts;

verus! {

/// For each candidate, the text of the member `inner` of the field of that
/// name, where the record has such a field and it has such a member.
pub open spec fn member_texts(extra: FieldValue, names: Seq<Seq<char>>, inner: Seq<char>) -> Seq<
    Option<Seq<char>>,
> {
    Seq::new(names.len(), |i: int| extra.nested_text(names[i], inner))
}

/// The text of the member `value` of an item.
pub open spec fn value_text(item: FieldValue) -> Option<Seq<char>> {
    match item.member("value"@) {
        Some(value) => value.text(),
        None => None,
    }
}

/// The texts of the members `value` of the items of a list, where the value is
/// a list and each of its items has such a member that is a text.
pub open spec fn value_list(value: FieldValue) -> Option<Seq<Seq<char>>> {
    match value {
        FieldValue::List(items) => if forall|i: int|
            0 <= i < items@.len() ==> value_text(#[trigger] items@[i]) is Some {
            Some(Seq::new(items@.len(), |i: int| value_text(items@[i])->0))
        } else {
            None
        },
        _ => None,
    }
}

/// For each candidate, the list of values that the field of that name holds.
pub open spec fn value_lists(extra: FieldValue, names: Seq<Seq<char>>) -> Seq<
    Option<Seq<Seq<char>>>,
> {
    Seq::new(
        names.len(),
        |i: int|
            match extra.member(names[i]) {
                Some(value) => value_list(value),
                None => None,
            },
    )
}

/// The first of the names alone, where there is one.
pub open spec fn first_only(names: Seq<Seq<char>>) -> Seq<Seq<char>> {
    if names.len() > 0 {
        seq![names[0]]
    } else {
        Seq::empty()
    }
}

/// The text of the member `inner` of the first candidate field that has such
/// a member holding a text.
pub fn first_member_text<'a>(extra: &'a FieldValue, fields: &[String], inner: &str) -> (found:
    Option<&'a str>)
    ensures
        match found {
            Some(text) => first_some(member_texts(*extra, texts(fields@), inner@), 0) == Some(
                text@,
            ),
            None => first_some(member_texts(*extra, texts(fields@), inner@), 0) is None,
        },
{
    let ghost items = member_texts(*extra, texts(fields@), inner@);
    let mut i: usize = 0;
    while i < fields.len()
        invariant
            i <= fields.len(),
            items == member_texts(*extra, texts(fields@), inner@),
            first_some(items, 0) == first_some(items, i as int),
        decreases fields.len() - i,
    {
        match extra.get_nested_str(fields[i].as_str(), inner) {
            Some(text) => {
                return Some(text);
            },
            None => {},
        }
        i += 1;
    }
    None
}

/// Reads a list of objects that each hold a text under `value`.
pub fn read_value_list(value: &FieldValue) -> (read: Option<Vec<String>>)
    ensures
        match read {
            Some(values) => value_list(*value) == Some(texts(values@)),
            None => value_list(*value) is None,
        },
{
    match value {
        FieldValue::List(items) => {
            let mut values: Vec<String> = Vec::new();
            let mut i: usize = 0;
            while i < items.len()
                invariant
                    i <= items.len(),
                    *value matches FieldValue::List(list) && list == *items,
                    values@.len() == i,
                    forall|j: int|
                        0 <= j < i ==> value_text(#[trigger] items@[j]) == Some(values@[j]@),
                decreases items.len() - i,
            {
                match items[i].get("value") {
                    Some(held) => match held.as_str() {
                        Some(text) => {
                            values.push(text.to_owned());
                        },
                        None => {
                            return None;
                        },
                    },
                    None => {
                        return None;
                    },
                }
                i += 1;
            }
            Some(values)
        },
        _ => None,
    }
}

impl ExtraFields for Issue {
    /// The doc type of an issue is the text under `value` in the field of
    /// the first configured name. No later name is tried.
    open spec fn doc_type_of(&self, names: FieldNames) -> Result<Seq<char>, FieldErrorView> {
        match first_some(member_texts(self.extra, first_only(names.doc_type), "value"@), 0) {
            Some(doc_type) => Ok(doc_type),
            None => Err(
                unresolved(
                    self.extra,
                    first_only(names.doc_type),
                    self.key@,
                    FieldName::DocType,
                    Shape::ValueObject,
                ),
            ),
        }
    }

    open spec fn doc_text_of(&self, names: FieldNames) -> Result<Seq<char>, FieldErrorView> {
        extracted(self.extra, names.doc_text, self.key@, FieldName::DocText)
    }

    /// The fix versions, each once for each time it is listed.
    open spec fn target_releases_of(&self, names: FieldNames) -> Result<
        Seq<Seq<char>>,
        FieldErrorView,
    > {
        Ok(texts(self.fix_versions@))
    }

    /// The values of the first candidate field that holds a list of values.
    open spec fn subsystems_of(&self, names: FieldNames) -> Result<Seq<Seq<char>>, FieldErrorView> {
        match first_some(value_lists(self.extra, names.subsystems), 0) {
            Some(subsystems) => Ok(subsystems),
            None => Err(
                unresolved(
                    self.extra,
                    names.subsystems,
                    self.key@,
                    FieldName::Subsystems,
                    Shape::ValueList,
                ),
            ),
        }
    }

    /// The text under `value` in the first candidate field that has one, read
    /// as a status token. Where no candidate has one and none of them is set,
    /// the status counts as `?`: a candidate is not set where the issue has no
    /// such field, and also where the field is there and holds nothing. A
    /// candidate that is set to something without a text under `value` is an
    /// error.
    open spec fn doc_text_status_of(&self, names: FieldNames) -> Result<
        DocTextStatus,
        FieldErrorView,
    > {
        match first_some(member_texts(self.extra, names.doc_text_status, "value"@), 0) {
            Some(token) => status_of_token(token, self.key@),
            None => if none_set(self.extra, names.doc_text_status) {
                status_of_token(unset_status_token(), self.key@)
            } else {
                Err(
                    unresolved(
                        self.extra,
                        names.doc_text_status,
                        self.key@,
                        FieldName::DocTextStatus,
                        Shape::ValueObject,
                    ),
                )
            },
        }
    }

    /// The text under `emailAddress` in the first candidate field that has one.
    open spec fn docs_contact_of(&self, names: FieldNames) -> Option<Seq<char>> {
        first_some(member_texts(self.extra, names.docs_contact, "emailAddress"@), 0)
    }

    open spec fn url_of(&self, names: FieldNames) -> Seq<char> {
        names.host + "/browse/"@ + self.key@
    }

    /// The doc text where it counts as empty, the documentation status where
    /// none of its fields is set, and the docs contact where no field gives
    /// an address.
    open spec fn notices_of(&self, names: FieldNames) -> Seq<Notice> {
        empty_notice(self.extra, names.doc_text, FieldName::DocText) + notice_where(
            first_some(member_texts(self.extra, names.doc_text_status, "value"@), 0) is None
                && none_set(self.extra, names.doc_text_status),
            Notice::StatusUnset,
        ) + notice_where(self.docs_contact_of(names) is None, Notice::NoDocsContact)
    }

    fn doc_type<C: FieldsConfig>(&self, config: &C) -> (got: Result<String, FieldError>) {
        let all = config.doc_type();
        let fields = if all.len() > 0 {
            slice_subrange(all, 0, 1)
        } else {
            all
        };
        assert(texts(fields@) =~= first_only(texts(all@)));
        match first_member_text(&self.extra, fields, "value") {
            Some(doc_type) => Ok(doc_type.to_owned()),
            None => Err(
                FieldError {
                    ticket: self.key.clone(),
                    field: FieldName::DocType,
                    cause: Cause::Unresolved(
                        candidate_problems(&self.extra, fields, Shape::ValueObject),
                    ),
                },
            ),
        }
    }

    fn doc_text<C: FieldsConfig>(&self, config: &C) -> (got: Result<String, FieldError>) {
        extract_for(&self.extra, config.doc_text(), self.key.as_str(), FieldName::DocText)
    }

    fn target_releases<C: FieldsConfig>(&self, config: &C) -> (got: Result<
        Vec<String>,
        FieldError,
    >) {
        let releases = self.fix_versions.clone();
        Ok(releases)
    }

    fn subsystems<C: FieldsConfig>(&self, config: &C) -> (got: Result<Vec<String>, FieldError>) {
        let fields = config.subsystems();
        let ghost items = value_lists(self.extra, texts(fields@));
        let mut i: usize = 0;
        while i < fields.len()
            invariant
                i <= fields.len(),
                texts(fields@) == config.names().subsystems,
                items == value_lists(self.extra, texts(fields@)),
                first_some(items, 0) == first_some(items, i as int),
            decreases fields.len() - i,
        {
            match self.extra.get(fields[i].as_str()) {
                Some(value) => match read_value_list(value) {
                    Some(subsystems) => {
                        return Ok(subsystems);
                    },
                    None => {},
                },
                None => {},
            }
            i += 1;
        }
        Err(
            FieldError {
                ticket: self.key.clone(),
                field: FieldName::Subsystems,
                cause: Cause::Unresolved(candidate_problems(&self.extra, fields, Shape::ValueList)),
            },
        )
    }

    fn doc_text_status<C: FieldsConfig>(&self, config: &C) -> (got: Result<
        DocTextStatus,
        FieldError,
    >) {
        let fields = config.doc_text_status();
        match first_member_text(&self.extra, fields, "value") {
            Some(token) => status_from_token(token, self.key.as_str()),
            None => {
                if no_field_set(&self.extra, fields) {
                    status_from_token("?", self.key.as_str())
                } else {
                    Err(
                        FieldError {
                            ticket: self.key.clone(),
                            field: FieldName::DocTextStatus,
                            cause: Cause::Unresolved(
                                candidate_problems(&self.extra, fields, Shape::ValueObject),
                            ),
                        },
                    )
                }
            },
        }
    }

    fn docs_contact<C: FieldsConfig>(&self, config: &C) -> (contact: DocsContact) {
        match first_member_text(&self.extra, config.docs_contact(), "emailAddress") {
            Some(address) => DocsContact(Some(address.to_owned())),
            None => DocsContact(None),
        }
    }

    fn url<C: FieldsConfig>(&self, tracker: &C) -> (url: String) {
        let mut url = tracker.host().to_owned();
        url.append("/browse/");
        url.append(self.key.as_str());
        url
    }

    fn notices<C: FieldsConfig>(&self, config: &C) -> (notices: Vec<Notice>) {
        let mut notices: Vec<Notice> = Vec::new();
        note_empty(&mut notices, &self.extra, config.doc_text(), FieldName::DocText);
        let status_fields = config.doc_text_status();
        let unset = first_member_text(&self.extra, status_fields, "value").is_none()
            && no_field_set(&self.extra, status_fields);
        note_where(&mut notices, unset, Notice::StatusUnset);
        let no_contact = first_member_text(&self.extra, config.docs_contact(), "emailAddress")
            .is_none();
        note_where(&mut notices, no_contact, Notice::NoDocsContact);
        notices
    }
}

/// Where no candidate from `from` on has a text under `inner`, the scan for
/// one finds none.
proof fn lemma_no_member_text(extra: FieldValue, names: Seq<Seq<char>>, inner: Seq<char>, from: int)
    requires
        0 <= from,
        forall|i: int|
            from <= i < names.len() ==> extra.nested_text(#[trigger] names[i], inner) is None,
    ensures
        first_some(member_texts(extra, names, inner), from) is None,
    decreases names.len() - from,
{
    if from < names.len() {
        lemma_no_member_text(extra, names, inner, from + 1);
    }
}

/// An issue that has none of the configured fields of the documentation
/// status is in progress: the status counts as `?`, and that is no error.
pub proof fn lemma_unset_issue_status_is_in_progress(issue: Issue, names: FieldNames)
    requires
        forall|i: int|
            0 <= i < names.doc_text_status.len() ==> issue.extra.member(
                #[trigger] names.doc_text_status[i],
            ) is None,
    ensures
        issue.doc_text_status_of(names) == Ok::<DocTextStatus, FieldErrorView>(
            DocTextStatus::InProgress,
        ),
{
    lemma_no_member_text(issue.extra, names.doc_text_status, "value"@, 0);
    lemma_classification_table(unset_status_token());
}

} // verus!
