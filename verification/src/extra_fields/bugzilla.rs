//! How a Bugzilla bug answers for the fields of a release note.

use vstd::prelude::*;
use vstd::string::StringExecFns;

use crate::config::tracker::{FieldNames, FieldsConfig};
use crate::extra_fields::{
    empty_notice, extract_for, extracted, first_some, lemma_classification_table, note_empty,
    note_where, notice_where, status_from_token, status_of_token, unresolved, unset_status_token,
    Cause, DocTextStatus, DocsContact, ExtraFields, FieldError, FieldErrorView, FieldName, Notice,
};
use crate::extraction::{
    candidate_problems, extract_field, extraction, scan_fields, Extraction, Scanned, Shape,
};
use crate::field_value::FieldValue;
use crate::record::Bug;
use crate::text::{decimal, int_to_string, optional_text, same_text, texts};

verus! {

/// The name of the team of a pool: the text at `team.name` in it.
pub open spec fn pool_team(pool: FieldValue) -> Option<Seq<char>> {
    pool.nested_text("team"@, "name"@)
}

/// For each candidate, the team of the pool that the field of that name holds.
pub open spec fn pool_teams(extra: FieldValue, names: Seq<Seq<char>>) -> Seq<Option<Seq<char>>> {
    Seq::new(
        names.len(),
        |i: int|
            match extra.member(names[i]) {
                Some(pool) => pool_team(pool),
                None => None,
            },
    )
}

/// The placeholder by which Bugzilla marks a target release that is not set.
pub open spec fn unset_release() -> Seq<char> {
    "---"@
}

impl ExtraFields for Bug {
    open spec fn doc_type_of(&self, names: FieldNames) -> Result<Seq<char>, FieldErrorView> {
        extracted(self.extra, names.doc_type, decimal(self.id as int), FieldName::DocType)
    }

    open spec fn doc_text_of(&self, names: FieldNames) -> Result<Seq<char>, FieldErrorView> {
        extracted(self.extra, names.doc_text, decimal(self.id as int), FieldName::DocText)
    }

    /// A bug has one target release or none. It has none where no candidate
    /// field gives a value, where a candidate is present and unset, and where
    /// the value is empty or the placeholder `---`.
    open spec fn target_releases_of(&self, names: FieldNames) -> Result<
        Seq<Seq<char>>,
        FieldErrorView,
    > {
        match extraction(self.extra, names.target_release) {
            Extraction::Text(release) => if release.len() == 0 || release == unset_release() {
                Ok(Seq::empty())
            } else {
                Ok(seq![release])
            },
            Extraction::Empty => Ok(Seq::empty()),
            Extraction::Unresolved(_) => Ok(Seq::empty()),
        }
    }

    /// A bug has one subsystem: the team of the first candidate field that
    /// holds a pool.
    open spec fn subsystems_of(&self, names: FieldNames) -> Result<Seq<Seq<char>>, FieldErrorView> {
        match first_some(pool_teams(self.extra, names.subsystems), 0) {
            Some(team) => Ok(seq![team]),
            None => Err(
                unresolved(
                    self.extra,
                    names.subsystems,
                    decimal(self.id as int),
                    FieldName::Subsystems,
                    Shape::Pool,
                ),
            ),
        }
    }

    /// The state of the flag that the first configured name gives, read as a
    /// status token. A bug without that flag, or a configuration without a
    /// name for it, counts as `?`.
    open spec fn doc_text_status_of(&self, names: FieldNames) -> Result<
        DocTextStatus,
        FieldErrorView,
    > {
        let token = if names.doc_text_status.len() > 0 {
            match self.flag(names.doc_text_status[0]) {
                Some(state) => state,
                None => unset_status_token(),
            }
        } else {
            unset_status_token()
        };
        status_of_token(token, decimal(self.id as int))
    }

    open spec fn docs_contact_of(&self, names: FieldNames) -> Option<Seq<char>> {
        optional_text(self.docs_contact)
    }

    open spec fn url_of(&self, names: FieldNames) -> Seq<char> {
        names.host + "/show_bug.cgi?id="@ + decimal(self.id as int)
    }

    /// The doc type and the doc text where they count as empty, the target
    /// release where it is unset or cannot be had, the flag of the
    /// documentation status where the bug lacks it, and the docs contact where
    /// the bug names none.
    open spec fn notices_of(&self, names: FieldNames) -> Seq<Notice> {
        empty_notice(self.extra, names.doc_type, FieldName::DocType) + empty_notice(
            self.extra,
            names.doc_text,
            FieldName::DocText,
        ) + empty_notice(self.extra, names.target_release, FieldName::TargetRelease)
            + notice_where(
            extraction(self.extra, names.target_release) is Unresolved,
            Notice::NoTargetRelease,
        ) + notice_where(
            names.doc_text_status.len() == 0 || self.flag(names.doc_text_status[0]) is None,
            Notice::StatusUnset,
        ) + notice_where(self.docs_contact is None, Notice::NoDocsContact)
    }

    fn doc_type<C: FieldsConfig>(&self, config: &C) -> (got: Result<String, FieldError>) {
        let id = int_to_string(self.id);
        extract_for(&self.extra, config.doc_type(), id.as_str(), FieldName::DocType)
    }

    fn doc_text<C: FieldsConfig>(&self, config: &C) -> (got: Result<String, FieldError>) {
        let id = int_to_string(self.id);
        extract_for(&self.extra, config.doc_text(), id.as_str(), FieldName::DocText)
    }

    fn target_releases<C: FieldsConfig>(&self, config: &C) -> (got: Result<
        Vec<String>,
        FieldError,
    >) {
        let id = int_to_string(self.id);
        let mut releases: Vec<String> = Vec::new();
        match extract_field(&self.extra, config.target_release(), id.as_str()) {
            Ok(release) => {
                if !release.as_str().is_empty() && !same_text(release.as_str(), "---") {
                    releases.push(release);
                    assert(texts(releases@) =~= seq![release@]);
                } else {
                    assert(texts(releases@) =~= Seq::empty());
                }
            },
            Err(_) => {
                assert(texts(releases@) =~= Seq::empty());
            },
        }
        Ok(releases)
    }

    fn subsystems<C: FieldsConfig>(&self, config: &C) -> (got: Result<Vec<String>, FieldError>) {
        let fields = config.subsystems();
        let ghost items = pool_teams(self.extra, texts(fields@));
        let mut i: usize = 0;
        while i < fields.len()
            invariant
                i <= fields.len(),
                texts(fields@) == config.names().subsystems,
                items == pool_teams(self.extra, texts(fields@)),
                first_some(items, 0) == first_some(items, i as int),
            decreases fields.len() - i,
        {
            match self.extra.get(fields[i].as_str()) {
                Some(pool) => match pool.get_nested_str("team", "name") {
                    Some(team) => {
                        let mut subsystems: Vec<String> = Vec::new();
                        subsystems.push(team.to_owned());
                        assert(texts(subsystems@) =~= seq![team@]);
                        return Ok(subsystems);
                    },
                    None => {},
                },
                None => {},
            }
            i += 1;
        }
        Err(
            FieldError {
                ticket: int_to_string(self.id),
                field: FieldName::Subsystems,
                cause: Cause::Unresolved(candidate_problems(&self.extra, fields, Shape::Pool)),
            },
        )
    }

    fn doc_text_status<C: FieldsConfig>(&self, config: &C) -> (got: Result<
        DocTextStatus,
        FieldError,
    >) {
        let id = int_to_string(self.id);
        let flags = config.doc_text_status();
        let token = if flags.len() > 0 {
            match self.get_flag(flags[0].as_str()) {
                Some(state) => state,
                None => "?",
            }
        } else {
            "?"
        };
        status_from_token(token, id.as_str())
    }

    fn docs_contact<C: FieldsConfig>(&self, config: &C) -> (contact: DocsContact) {
        DocsContact(self.docs_contact.clone())
    }

    fn url<C: FieldsConfig>(&self, tracker: &C) -> (url: String) {
        let mut url = tracker.host().to_owned();
        url.append("/show_bug.cgi?id=");
        url.append(int_to_string(self.id).as_str());
        url
    }

    fn notices<C: FieldsConfig>(&self, config: &C) -> (notices: Vec<Notice>) {
        let mut notices: Vec<Notice> = Vec::new();
        note_empty(&mut notices, &self.extra, config.doc_type(), FieldName::DocType);
        note_empty(&mut notices, &self.extra, config.doc_text(), FieldName::DocText);
        note_empty(&mut notices, &self.extra, config.target_release(), FieldName::TargetRelease);
        let no_release = match scan_fields(&self.extra, config.target_release()) {
            Scanned::Unresolved(_) => true,
            _ => false,
        };
        note_where(&mut notices, no_release, Notice::NoTargetRelease);
        let flags = config.doc_text_status();
        let unset = if flags.len() > 0 {
            self.get_flag(flags[0].as_str()).is_none()
        } else {
            true
        };
        note_where(&mut notices, unset, Notice::StatusUnset);
        note_where(&mut notices, self.docs_contact.is_none(), Notice::NoDocsContact);
        notices
    }
}

/// A bug without the flag of the documentation status is in progress: the
/// status counts as `?`, and that is no error.
pub proof fn lemma_unset_bug_status_is_in_progress(bug: Bug, names: FieldNames)
    requires
        names.doc_text_status.len() == 0 || bug.flag(names.doc_text_status[0]) is None,
    ensures
        bug.doc_text_status_of(names) == Ok::<DocTextStatus, FieldErrorView>(
            DocTextStatus::InProgress,
        ),
{
    lemma_classification_table(unset_status_token());
}

} // verus!
