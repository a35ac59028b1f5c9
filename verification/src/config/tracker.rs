//! The issue trackers of a release-notes project and the names under which
//! each keeps the fields that a release note needs.

use vstd::prelude::*;
use vstd::string::StringExecFns;

use crate::text::texts;

verus! {

/// An issue-tracking service, as in the platform.
#[derive(Debug, Copy, Clone, Eq, PartialEq, Hash, Structural)]
pub enum Service {
    Bugzilla,
    Jira,
}

impl Service {
    /// The name of the service.
    pub open spec fn name(self) -> Seq<char> {
        match self {
            Service::Bugzilla => "Bugzilla"@,
            Service::Jira => "Jira"@,
        }
    }

    /// The short name of the service.
    pub open spec fn short(self) -> Seq<char> {
        match self {
            Service::Bugzilla => "BZ"@,
            Service::Jira => "Jira"@,
        }
    }

    /// Return the short name or acronym of the service, if any.
    /// Otherwise, return the regular name.
    pub fn short_name(self) -> (short: &'static str)
        ensures
            short@ == self.short(),
    {
        match self {
            Service::Bugzilla => "BZ",
            Service::Jira => "Jira",
        }
    }

    /// The service as it is shown to a reader.
    pub fn to_string(&self) -> (shown: String)
        ensures
            shown@ == self.name(),
    {
        match self {
            Service::Bugzilla => String::from_str("Bugzilla"),
            Service::Jira => String::from_str("Jira"),
        }
    }
}

/// The required fields in the Bugzilla configuration.
/// They are slightly different from the required Jira fields.
#[derive(Clone, Debug, Eq, PartialEq)]
pub struct BugzillaFields {
    pub doc_type: Vec<String>,
    pub doc_text: Vec<String>,
    pub doc_text_status: Vec<String>,
    /// This field is optional. Runtime decides if we need it.
    pub subsystems: Option<Vec<String>>,
    /// These fields are standard, but you can override them.
    pub target_release: Option<Vec<String>>,
    pub docs_contact: Option<Vec<String>>,
}

/// The required fields in the Jira configuration.
/// They are slightly different from the required Bugzilla fields.
#[derive(Clone, Debug, Eq, PartialEq)]
pub struct JiraFields {
    pub doc_type: Vec<String>,
    pub doc_text: Vec<String>,
    pub doc_text_status: Vec<String>,
    pub docs_contact: Vec<String>,
    /// This field is optional. Runtime decides if we need it.
    pub subsystems: Option<Vec<String>>,
    /// This field is standard, but you can override it.
    pub target_release: Option<Vec<String>>,
}

/// The particular instance of an issue tracker,
/// with a host URL and access credentials.
#[derive(Clone, Debug, Eq, PartialEq)]
pub struct BugzillaInstance {
    pub host: String,
    pub api_key: Option<String>,
    pub fields: BugzillaFields,
}

/// The particular instance of an issue tracker,
/// with a host URL and access credentials.
#[derive(Clone, Debug, Eq, PartialEq)]
pub struct JiraInstance {
    pub host: String,
    pub api_key: Option<String>,
    pub fields: JiraFields,
}

/// The issue tracker instances configured in the current release notes project.
#[derive(Clone, Debug, Eq, PartialEq)]
pub struct Config {
    pub jira: JiraInstance,
    pub bugzilla: BugzillaInstance,
}

/// The configured names of a tracker, as plain values: for each field that a
/// release note needs, the candidate names in the order in which they are
/// tried, and the host of the tracker.
pub struct FieldNames {
    pub doc_type: Seq<Seq<char>>,
    pub doc_text: Seq<Seq<char>>,
    pub target_release: Seq<Seq<char>>,
    pub subsystems: Seq<Seq<char>>,
    pub doc_text_status: Seq<Seq<char>>,
    pub docs_contact: Seq<Seq<char>>,
    pub host: Seq<char>,
}

/// The names of a list of candidates that the configuration may leave out:
/// none where it does.
pub open spec fn optional_names(list: Option<Vec<String>>) -> Seq<Seq<char>> {
    match list {
        Some(names) => texts(names@),
        None => Seq::empty(),
    }
}

/// The candidates of a list that the configuration may leave out.
fn optional_fields(list: &Option<Vec<String>>) -> (fields: &[String])
    ensures
        texts(fields@) == optional_names(*list),
{
    match list {
        Some(names) => names.as_slice(),
        None => {
            let fields: &[String] = &[];
            fields
        },
    }
}

/// Generalize over the different required fields in the Bugzilla and Jira configuration.
/// These trait methods expose a unified interface to both configurations.
pub trait FieldsConfig {
    /// Everything that the configuration names, as plain values.
    spec fn names(&self) -> FieldNames;

    /// The configured names of the doc type field.
    fn doc_type(&self) -> (fields: &[String])
        ensures
            texts(fields@) == self.names().doc_type,
    ;

    /// The configured names of the doc text field.
    fn doc_text(&self) -> (fields: &[String])
        ensures
            texts(fields@) == self.names().doc_text,
    ;

    /// The configured names of the target release field.
    fn target_release(&self) -> (fields: &[String])
        ensures
            texts(fields@) == self.names().target_release,
    ;

    /// The configured names of the subsystems field.
    fn subsystems(&self) -> (fields: &[String])
        ensures
            texts(fields@) == self.names().subsystems,
    ;

    /// The configured names of the doc text status field.
    fn doc_text_status(&self) -> (fields: &[String])
        ensures
            texts(fields@) == self.names().doc_text_status,
    ;

    /// The configured names of the docs contact field.
    fn docs_contact(&self) -> (fields: &[String])
        ensures
            texts(fields@) == self.names().docs_contact,
    ;

    /// The configured URL to the instance host.
    fn host(&self) -> (host: &str)
        ensures
            host@ == self.names().host,
    ;
}

impl FieldsConfig for BugzillaInstance {
    open spec fn names(&self) -> FieldNames {
        FieldNames {
            doc_type: texts(self.fields.doc_type@),
            doc_text: texts(self.fields.doc_text@),
            target_release: optional_names(self.fields.target_release),
            subsystems: optional_names(self.fields.subsystems),
            doc_text_status: texts(self.fields.doc_text_status@),
            docs_contact: optional_names(self.fields.docs_contact),
            host: self.host@,
        }
    }

    fn doc_type(&self) -> (fields: &[String]) {
        self.fields.doc_type.as_slice()
    }

    fn doc_text(&self) -> (fields: &[String]) {
        self.fields.doc_text.as_slice()
    }

    fn target_release(&self) -> (fields: &[String]) {
        optional_fields(&self.fields.target_release)
    }

    fn subsystems(&self) -> (fields: &[String]) {
        optional_fields(&self.fields.subsystems)
    }

    fn doc_text_status(&self) -> (fields: &[String]) {
        self.fields.doc_text_status.as_slice()
    }

    /// The docs contact field is standard in Bugzilla, but you can override it.
    /// An empty slice signifies that the user entered no configuration.
    fn docs_contact(&self) -> (fields: &[String]) {
        optional_fields(&self.fields.docs_contact)
    }

    fn host(&self) -> (host: &str) {
        self.host.as_str()
    }
}

impl FieldsConfig for JiraInstance {
    open spec fn names(&self) -> FieldNames {
        FieldNames {
            doc_type: texts(self.fields.doc_type@),
            doc_text: texts(self.fields.doc_text@),
            target_release: optional_names(self.fields.target_release),
            subsystems: optional_names(self.fields.subsystems),
            doc_text_status: texts(self.fields.doc_text_status@),
            docs_contact: texts(self.fields.docs_contact@),
            host: self.host@,
        }
    }

    fn doc_type(&self) -> (fields: &[String]) {
        self.fields.doc_type.as_slice()
    }

    fn doc_text(&self) -> (fields: &[String]) {
        self.fields.doc_text.as_slice()
    }

    /// The target release field is standard in Jira, but you can override it.
    /// An empty slice signifies that the user entered no configuration.
    fn target_release(&self) -> (fields: &[String]) {
        optional_fields(&self.fields.target_release)
    }

    fn subsystems(&self) -> (fields: &[String]) {
        optional_fields(&self.fields.subsystems)
    }

    fn doc_text_status(&self) -> (fields: &[String]) {
        self.fields.doc_text_status.as_slice()
    }

    fn docs_contact(&self) -> (fields: &[String]) {
        self.fields.docs_contact.as_slice()
    }

    fn host(&self) -> (host: &str) {
        self.host.as_str()
    }
}

} // verus!
