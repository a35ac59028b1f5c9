use acorns::config::tracker::{BugzillaFields, BugzillaInstance, JiraFields, JiraInstance, Service};
use acorns::config::Overrides;
use acorns::extra_fields::{
    Cause, DocTextStatus, DocsContact, ExtraFields, FieldError, FieldFault, FieldName,
    FieldProblem, Notice, Shape,
};
use acorns::field_value::{FieldValue, Member};
use acorns::record::{Bug, Flag, Issue};
use acorns::ticket_abstraction::{AbstractTicket, TicketId};

fn text(value: &str) -> FieldValue {
    FieldValue::Text(value.to_string())
}

fn record(members: Vec<(&str, FieldValue)>) -> FieldValue {
    FieldValue::Record(
        members
            .into_iter()
            .map(|(name, value)| Member { name: name.to_string(), value })
            .collect(),
    )
}

fn names(list: &[&str]) -> Vec<String> {
    list.iter().map(|name| name.to_string()).collect()
}

fn bugzilla() -> BugzillaInstance {
    BugzillaInstance {
        host: "https://bugzilla.example.com".to_string(),
        api_key: None,
        fields: BugzillaFields {
            doc_type: names(&["cf_doc_type"]),
            doc_text: names(&["cf_release_notes"]),
            doc_text_status: names(&["requires_doc_text"]),
            subsystems: Some(names(&["pool", "cf_pool"])),
            target_release: Some(names(&["cf_internal_target_release", "target_release"])),
            docs_contact: None,
        },
    }
}

fn jira() -> JiraInstance {
    JiraInstance {
        host: "https://issues.example.com".to_string(),
        api_key: None,
        fields: JiraFields {
            doc_type: names(&["customfield_1", "customfield_9"]),
            doc_text: names(&["customfield_2"]),
            doc_text_status: names(&["customfield_3", "customfield_30"]),
            docs_contact: names(&["customfield_4", "customfield_40"]),
            subsystems: Some(names(&["customfield_5", "customfield_50"])),
            target_release: None,
        },
    }
}

fn pool(team: &str) -> FieldValue {
    record(vec![("team", record(vec![("name", text(team)), ("id", FieldValue::Number("7".to_string()))]))])
}

fn bug(extra: FieldValue) -> Bug {
    Bug {
        id: 123,
        summary: "A bug".to_string(),
        status: "NEW".to_string(),
        is_open: true,
        priority: "high".to_string(),
        assigned_to: "dev@example.com".to_string(),
        component: names(&["kernel"]),
        product: "RHEL".to_string(),
        flags: Some(vec![Flag { name: "requires_doc_text".to_string(), status: "+".to_string() }]),
        groups: vec![],
        docs_contact: Some("writer@example.com".to_string()),
        extra,
    }
}

fn bug_extra(target_release: FieldValue) -> FieldValue {
    record(vec![
        ("cf_doc_type", text("Bug Fix")),
        ("cf_release_notes", text(".Title\n\nBody.")),
        ("cf_internal_target_release", target_release),
        ("pool", pool("sst_storage")),
    ])
}

fn value_object(value: &str) -> FieldValue {
    record(vec![("value", text(value)), ("id", text("10"))])
}

fn issue(extra: FieldValue) -> Issue {
    Issue {
        key: "ABC-1".to_string(),
        summary: "An issue".to_string(),
        description: Some("Long text".to_string()),
        status: "In Progress".to_string(),
        priority: "Major".to_string(),
        assignee: "dev".to_string(),
        components: names(&["ui", "api"]),
        project: "Project ABC".to_string(),
        labels: names(&["docs"]),
        fix_versions: names(&["9.1", "9.0", "9.1"]),
        extra,
    }
}

fn issue_extra() -> FieldValue {
    record(vec![
        ("customfield_1", value_object("Enhancement")),
        ("customfield_2", text(".New feature\n\nText.")),
        ("customfield_3", value_object("Done")),
        ("customfield_4", record(vec![("emailAddress", text("writer@example.com"))])),
        (
            "customfield_5",
            FieldValue::List(vec![value_object("sst_one"), value_object("sst_two")]),
        ),
    ])
}

fn unresolved(ticket: &str, field: FieldName, problems: Vec<(&str, FieldFault)>) -> FieldError {
    FieldError {
        ticket: ticket.to_string(),
        field,
        cause: Cause::Unresolved(
            problems
                .into_iter()
                .map(|(field, fault)| FieldProblem { field: field.to_string(), fault })
                .collect(),
        ),
    }
}

#[test]
fn bug_target_release_placeholder_is_no_release() {
    let record = bug(bug_extra(text("---")));
    assert_eq!(record.target_releases(&bugzilla()), Ok(vec![]));
    let ticket = AbstractTicket::from_bug(record, &bugzilla()).unwrap();
    assert_eq!(ticket.target_releases, Vec::<String>::new());
}

#[test]
fn bug_target_release_is_kept() {
    let record = bug(bug_extra(text("9.0.1")));
    assert_eq!(record.target_releases(&bugzilla()), Ok(names(&["9.0.1"])));
    let ticket = AbstractTicket::from_bug(record, &bugzilla()).unwrap();
    assert_eq!(ticket.target_releases, names(&["9.0.1"]));
}

#[test]
fn bug_target_release_falls_back_to_later_candidate() {
    let extra = record(vec![("target_release", text("8.6"))]);
    assert_eq!(bug(extra).target_releases(&bugzilla()), Ok(names(&["8.6"])));
}

#[test]
fn bug_without_target_release_field_has_no_release() {
    let extra = record(vec![("cf_doc_type", text("Bug Fix"))]);
    assert_eq!(bug(extra).target_releases(&bugzilla()), Ok(vec![]));
    let mut config = bugzilla();
    config.fields.target_release = None;
    assert_eq!(bug(bug_extra(text("9.0"))).target_releases(&config), Ok(vec![]));
}

#[test]
fn bug_unset_target_release_is_no_release() {
    let record = bug(bug_extra(FieldValue::Null));
    assert_eq!(record.target_releases(&bugzilla()), Ok(vec![]));
    let ticket = AbstractTicket::from_bug(record, &bugzilla()).unwrap();
    assert_eq!(ticket.target_releases, Vec::<String>::new());
}

#[test]
fn bug_empty_target_release_is_no_release() {
    let record = bug(bug_extra(text("")));
    assert_eq!(record.target_releases(&bugzilla()), Ok(vec![]));
}

#[test]
fn bug_becomes_ticket() {
    let ticket = AbstractTicket::from_bug(bug(bug_extra(text("9.0"))), &bugzilla()).unwrap();
    let expected = AbstractTicket {
        id: TicketId { key: "123".to_string(), tracker: Service::Bugzilla },
        summary: "A bug".to_string(),
        description: None,
        doc_type: Some("Bug Fix".to_string()),
        doc_text: Some(".Title\n\nBody.".to_string()),
        docs_contact: DocsContact(Some("writer@example.com".to_string())),
        status: "NEW".to_string(),
        is_open: true,
        priority: "high".to_string(),
        url: "https://bugzilla.example.com/show_bug.cgi?id=123".to_string(),
        assignee: "dev@example.com".to_string(),
        components: names(&["kernel"]),
        product: "RHEL".to_string(),
        labels: None,
        flags: Some(names(&["requires_doc_text: +"])),
        target_releases: names(&["9.0"]),
        subsystems: names(&["sst_storage"]),
        groups: Some(vec![]),
        public: true,
        doc_text_status: DocTextStatus::Approved,
        duplicates: vec![],
    };
    assert_eq!(ticket, expected);
}

#[test]
fn bug_with_groups_is_not_public() {
    let mut record = bug(bug_extra(text("9.0")));
    record.groups = names(&["private"]);
    let ticket = AbstractTicket::from_bug(record, &bugzilla()).unwrap();
    assert!(!ticket.public);
    assert_eq!(ticket.groups, Some(names(&["private"])));
}

#[test]
fn bug_without_docs_contact_has_none() {
    let mut record = bug(bug_extra(text("9.0")));
    record.docs_contact = None;
    assert_eq!(record.docs_contact(&bugzilla()), DocsContact(None));
    let ticket = AbstractTicket::from_bug(record, &bugzilla()).unwrap();
    assert_eq!(ticket.docs_contact.as_str(), "Missing docs contact");
}

#[test]
fn bug_flag_decides_status() {
    let mut record = bug(bug_extra(text("9.0")));
    record.flags = Some(vec![
        Flag { name: "other".to_string(), status: "+".to_string() },
        Flag { name: "requires_doc_text".to_string(), status: "-".to_string() },
    ]);
    assert_eq!(record.get_flag("requires_doc_text"), Some("-"));
    assert_eq!(record.get_flag("absent"), None);
    assert_eq!(record.doc_text_status(&bugzilla()), Ok(DocTextStatus::NoDocumentation));
}

#[test]
fn bug_unset_flag_counts_as_in_progress() {
    let mut record = bug(bug_extra(text("9.0")));
    record.flags = Some(vec![]);
    assert_eq!(record.doc_text_status(&bugzilla()), Ok(DocTextStatus::InProgress));
    record.flags = None;
    assert_eq!(record.get_flag("requires_doc_text"), None);
    assert_eq!(record.doc_text_status(&bugzilla()), Ok(DocTextStatus::InProgress));
    let mut config = bugzilla();
    config.fields.doc_text_status = vec![];
    assert_eq!(record.doc_text_status(&config), Ok(DocTextStatus::InProgress));
}

#[test]
fn bug_unknown_flag_state_fails() {
    let mut record = bug(bug_extra(text("9.0")));
    record.flags =
        Some(vec![Flag { name: "requires_doc_text".to_string(), status: "maybe".to_string() }]);
    let error = record.doc_text_status(&bugzilla()).unwrap_err();
    assert_eq!(
        error,
        FieldError {
            ticket: "123".to_string(),
            field: FieldName::DocTextStatus,
            cause: Cause::UnrecognizedStatus("maybe".to_string()),
        }
    );
    assert_eq!(
        error.message(),
        "Failed to extract the doc text status of ticket 123.\n\
         Unrecognized doc text status value: \"maybe\""
    );
    assert_eq!(AbstractTicket::from_bug(record, &bugzilla()), Err(error));
}

#[test]
fn bug_subsystem_comes_from_first_pool() {
    let extra = record(vec![
        ("pool", text("not a pool")),
        ("cf_pool", pool("sst_network")),
    ]);
    assert_eq!(bug(extra).subsystems(&bugzilla()), Ok(names(&["sst_network"])));
}

#[test]
fn bug_without_pool_fails() {
    let extra = record(vec![("pool", record(vec![("team", text("flat"))]))]);
    let error = bug(extra).subsystems(&bugzilla()).unwrap_err();
    assert_eq!(
        error,
        unresolved(
            "123",
            FieldName::Subsystems,
            vec![("pool", FieldFault::Malformed(Shape::Pool)), ("cf_pool", FieldFault::Missing)]
        )
    );
    assert_eq!(
        error.message(),
        "Failed to extract the subsystems of ticket 123.\n\
         Fields are missing or malformed in ticket 123:\n\
         The following errors occurred:\n\
         Field `pool` is not a pool with a team name in ticket 123.\n\
         Field `cf_pool` is missing in ticket 123."
    );
}

#[test]
fn bug_without_doc_type_fails_first() {
    let extra = record(vec![("pool", pool("sst"))]);
    let error = AbstractTicket::from_bug(bug(extra), &bugzilla()).unwrap_err();
    assert_eq!(
        error,
        unresolved("123", FieldName::DocType, vec![("cf_doc_type", FieldFault::Missing)])
    );
}

#[test]
fn bug_without_doc_text_fails_second() {
    let extra = record(vec![("cf_doc_type", text("Bug Fix"))]);
    let error = AbstractTicket::from_bug(bug(extra), &bugzilla()).unwrap_err();
    assert_eq!(error.field, FieldName::DocText);
}

#[test]
fn bug_url_holds_negative_ids_too() {
    let mut record = bug(bug_extra(text("9.0")));
    record.id = -5;
    assert_eq!(record.url(&bugzilla()), "https://bugzilla.example.com/show_bug.cgi?id=-5");
}

#[test]
fn flag_is_shown_as_name_and_state() {
    let flag = Flag { name: "needinfo".to_string(), status: "?".to_string() };
    assert_eq!(flag.to_string(), "needinfo: ?");
}

#[test]
fn issue_becomes_ticket() {
    let ticket = AbstractTicket::from_issue(issue(issue_extra()), &jira()).unwrap();
    let expected = AbstractTicket {
        id: TicketId { key: "ABC-1".to_string(), tracker: Service::Jira },
        summary: "An issue".to_string(),
        description: Some("Long text".to_string()),
        doc_type: Some("Enhancement".to_string()),
        doc_text: Some(".New feature\n\nText.".to_string()),
        docs_contact: DocsContact(Some("writer@example.com".to_string())),
        status: "In Progress".to_string(),
        is_open: true,
        priority: "Major".to_string(),
        url: "https://issues.example.com/browse/ABC-1".to_string(),
        assignee: "dev".to_string(),
        components: names(&["ui", "api"]),
        product: "Project ABC".to_string(),
        labels: Some(names(&["docs"])),
        flags: None,
        target_releases: names(&["9.1", "9.0", "9.1"]),
        subsystems: names(&["sst_one", "sst_two"]),
        groups: None,
        public: false,
        doc_text_status: DocTextStatus::Approved,
        duplicates: vec![],
    };
    assert_eq!(ticket, expected);
}

#[test]
fn closed_issue_is_not_open() {
    let mut record = issue(issue_extra());
    record.status = "Closed".to_string();
    assert!(!AbstractTicket::from_issue(record, &jira()).unwrap().is_open);
    let mut record = issue(issue_extra());
    record.status = "closed".to_string();
    assert!(AbstractTicket::from_issue(record, &jira()).unwrap().is_open);
}

#[test]
fn issue_doc_type_uses_first_name_only() {
    let extra = record(vec![("customfield_9", value_object("Enhancement"))]);
    let error = issue(extra).doc_type(&jira()).unwrap_err();
    assert_eq!(
        error,
        unresolved("ABC-1", FieldName::DocType, vec![("customfield_1", FieldFault::Missing)])
    );
    let extra = record(vec![("customfield_1", text("flat"))]);
    let error = issue(extra).doc_type(&jira()).unwrap_err();
    assert_eq!(
        error,
        unresolved(
            "ABC-1",
            FieldName::DocType,
            vec![("customfield_1", FieldFault::Malformed(Shape::ValueObject))]
        )
    );
    let mut config = jira();
    config.fields.doc_type = vec![];
    let error = issue(issue_extra()).doc_type(&config).unwrap_err();
    assert_eq!(error, unresolved("ABC-1", FieldName::DocType, vec![]));
}

#[test]
fn issue_subsystems_come_from_first_list() {
    let extra = record(vec![
        ("customfield_5", FieldValue::List(vec![value_object("a"), text("flat")])),
        ("customfield_50", FieldValue::List(vec![value_object("b")])),
    ]);
    assert_eq!(issue(extra).subsystems(&jira()), Ok(names(&["b"])));
    let extra = record(vec![("customfield_50", FieldValue::List(vec![]))]);
    assert_eq!(issue(extra).subsystems(&jira()), Ok(vec![]));
}

#[test]
fn issue_without_subsystems_fails() {
    let extra = record(vec![("customfield_5", FieldValue::Null)]);
    let error = issue(extra).subsystems(&jira()).unwrap_err();
    assert_eq!(
        error,
        unresolved(
            "ABC-1",
            FieldName::Subsystems,
            vec![
                ("customfield_5", FieldFault::Malformed(Shape::ValueList)),
                ("customfield_50", FieldFault::Missing)
            ]
        )
    );
}

#[test]
fn issue_status_comes_from_first_field_with_a_value() {
    let extra = record(vec![
        ("customfield_3", record(vec![("other", text("Done"))])),
        ("customfield_30", value_object("Rejected")),
    ]);
    assert_eq!(issue(extra).doc_text_status(&jira()), Ok(DocTextStatus::NoDocumentation));
}

#[test]
fn issue_unknown_status_fails_at_once() {
    let extra = record(vec![
        ("customfield_3", value_object("Maybe")),
        ("customfield_30", value_object("Done")),
    ]);
    let error = issue(extra).doc_text_status(&jira()).unwrap_err();
    assert_eq!(error.cause, Cause::UnrecognizedStatus("Maybe".to_string()));
    assert_eq!(error.ticket, "ABC-1");
}

#[test]
fn issue_without_status_field_counts_as_in_progress() {
    assert_eq!(issue(record(vec![])).doc_text_status(&jira()), Ok(DocTextStatus::InProgress));
    let mut config = jira();
    config.fields.doc_text_status = vec![];
    assert_eq!(issue(issue_extra()).doc_text_status(&config), Ok(DocTextStatus::InProgress));
}

#[test]
fn issue_with_null_status_field_counts_as_in_progress() {
    let extra = record(vec![("customfield_30", FieldValue::Null)]);
    assert_eq!(issue(extra).doc_text_status(&jira()), Ok(DocTextStatus::InProgress));
    let extra = record(vec![
        ("customfield_3", FieldValue::Null),
        ("customfield_30", FieldValue::Null),
    ]);
    assert_eq!(issue(extra).doc_text_status(&jira()), Ok(DocTextStatus::InProgress));
}

#[test]
fn issue_with_malformed_status_field_fails() {
    let extra = record(vec![("customfield_30", record(vec![("other", text("Done"))]))]);
    let error = issue(extra).doc_text_status(&jira()).unwrap_err();
    assert_eq!(
        error,
        unresolved(
            "ABC-1",
            FieldName::DocTextStatus,
            vec![
                ("customfield_3", FieldFault::Missing),
                ("customfield_30", FieldFault::Malformed(Shape::ValueObject))
            ]
        )
    );
    assert_eq!(
        error.message(),
        "Failed to extract the doc text status of ticket ABC-1.\n\
         Fields are missing or malformed in ticket ABC-1:\n\
         The following errors occurred:\n\
         Field `customfield_3` is missing in ticket ABC-1.\n\
         Field `customfield_30` is not an object with a text value in ticket ABC-1."
    );
    let extra = record(vec![("customfield_3", text("Done")), ("customfield_30", FieldValue::Null)]);
    assert!(issue(extra).doc_text_status(&jira()).is_err());
}

#[test]
fn issue_without_status_becomes_ticket_in_progress() {
    let extra = record(vec![
        ("customfield_1", value_object("Enhancement")),
        ("customfield_2", text(".New feature")),
        ("customfield_5", FieldValue::List(vec![])),
    ]);
    let ticket = AbstractTicket::from_issue(issue(extra), &jira()).unwrap();
    assert_eq!(ticket.doc_text_status, DocTextStatus::InProgress);
}

#[test]
fn bug_notices_tell_what_was_put_right() {
    assert_eq!(bug(bug_extra(text("9.0"))).notices(&bugzilla()), vec![]);
    let extra = record(vec![
        ("cf_doc_type", FieldValue::Null),
        ("cf_release_notes", text("")),
        ("target_release", FieldValue::Null),
    ]);
    let mut record_ = bug(extra);
    record_.flags = Some(vec![]);
    record_.docs_contact = None;
    assert_eq!(
        record_.notices(&bugzilla()),
        vec![
            Notice::EmptyField(FieldName::DocType),
            Notice::EmptyField(FieldName::TargetRelease),
            Notice::StatusUnset,
            Notice::NoDocsContact,
        ]
    );
    let mut gone = bug(record(vec![]));
    gone.docs_contact = Some(String::new());
    assert_eq!(gone.notices(&bugzilla()), vec![Notice::NoTargetRelease]);
}

#[test]
fn issue_notices_tell_what_was_put_right() {
    assert_eq!(issue(issue_extra()).notices(&jira()), vec![]);
    let extra = record(vec![("customfield_2", FieldValue::Null)]);
    assert_eq!(
        issue(extra).notices(&jira()),
        vec![Notice::EmptyField(FieldName::DocText), Notice::StatusUnset, Notice::NoDocsContact]
    );
    let extra = record(vec![
        ("customfield_3", text("no object")),
        ("customfield_4", record(vec![("emailAddress", text("w@example.com"))])),
    ]);
    assert_eq!(issue(extra).notices(&jira()), vec![]);
}

#[test]
fn issue_docs_contact_comes_from_first_address() {
    let extra = record(vec![
        ("customfield_4", record(vec![("name", text("Jane"))])),
        ("customfield_40", record(vec![("emailAddress", text("jane@example.com"))])),
    ]);
    assert_eq!(issue(extra).docs_contact(&jira()), DocsContact(Some("jane@example.com".to_string())));
    assert_eq!(issue(record(vec![])).docs_contact(&jira()), DocsContact(None));
}

#[test]
fn issue_target_releases_keep_order_and_repeats() {
    assert_eq!(issue(issue_extra()).target_releases(&jira()), Ok(names(&["9.1", "9.0", "9.1"])));
}

#[test]
fn overrides_replace_what_they_set() {
    let mut ticket = AbstractTicket::from_bug(bug(bug_extra(text("9.0"))), &bugzilla()).unwrap();
    let untouched = ticket.clone();
    ticket.apply_overrides(&Overrides { doc_type: None, components: None, subsystems: None });
    assert_eq!(ticket, untouched);
    ticket.apply_overrides(&Overrides {
        doc_type: Some("Known Issue".to_string()),
        components: Some(names(&["a", "b"])),
        subsystems: None,
    });
    assert_eq!(ticket.doc_type, Some("Known Issue".to_string()));
    assert_eq!(ticket.components, names(&["a", "b"]));
    assert_eq!(ticket.subsystems, untouched.subsystems);
    ticket.apply_overrides(&Overrides {
        doc_type: None,
        components: None,
        subsystems: Some(vec![]),
    });
    assert_eq!(ticket.doc_type, Some("Known Issue".to_string()));
    assert_eq!(ticket.subsystems, Vec::<String>::new());
    assert_eq!(ticket.summary, untouched.summary);
}

#[test]
fn ticket_clone_copies_duplicates() {
    let mut ticket = AbstractTicket::from_issue(issue(issue_extra()), &jira()).unwrap();
    let inner = AbstractTicket::from_bug(bug(bug_extra(text("9.0"))), &bugzilla()).unwrap();
    ticket.duplicates.push(inner);
    let copy = ticket.clone();
    assert_eq!(copy, ticket);
    assert_eq!(copy.duplicates.len(), 1);
    assert_eq!(copy.duplicates[0].id.key, "123");
}
