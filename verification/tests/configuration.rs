use std::sync::Arc;

use acorns::config::tracker::{
    BugzillaFields, BugzillaInstance, Config, FieldsConfig, JiraFields, JiraInstance, Service,
};
use acorns::config::{
    locate_data_dir, queries_from_entries, DataDir, Filter, Identifier, IdentifierError,
    KeyFormats, KeyOrSearch, Overrides, Project, Section, Template, TicketQuery, TicketQueryEntry,
    TicketQueryOptions,
};

fn names(list: &[&str]) -> Vec<String> {
    list.iter().map(|name| name.to_string()).collect()
}

fn key(text: &str) -> Identifier {
    Identifier { key: Some(KeyFormats::String(text.to_string())), search: None }
}

fn entry(tracker: Service, identifier: Identifier, references: Vec<TicketQueryEntry>) -> TicketQueryEntry {
    TicketQueryEntry(tracker, identifier, TicketQueryOptions { overrides: None, references })
}

fn trackers() -> Config {
    Config {
        jira: JiraInstance {
            host: "https://issues.example.com".to_string(),
            api_key: Some("key".to_string()),
            fields: JiraFields {
                doc_type: names(&["j_type"]),
                doc_text: names(&["j_text"]),
                doc_text_status: names(&["j_status"]),
                docs_contact: names(&["j_contact"]),
                subsystems: None,
                target_release: Some(names(&["j_release"])),
            },
        },
        bugzilla: BugzillaInstance {
            host: "https://bugzilla.example.com".to_string(),
            api_key: None,
            fields: BugzillaFields {
                doc_type: names(&["b_type", "b_type_2"]),
                doc_text: names(&["b_text"]),
                doc_text_status: names(&["b_status"]),
                subsystems: Some(names(&["b_pool"])),
                target_release: None,
                docs_contact: None,
            },
        },
    }
}

fn template() -> Template {
    Template {
        chapters: vec![Section {
            title: "New features".to_string(),
            intro_abstract: None,
            filter: Filter { doc_type: Some(names(&["Enhancement"])), subsystem: None, component: None },
            subsections: None,
        }],
        subsections: None,
    }
}

#[test]
fn key_formats_into_string() {
    assert_eq!(KeyFormats::String("ABC-1".to_string()).into_string(), "ABC-1");
    assert_eq!(KeyFormats::Number(12345).into_string(), "12345");
    assert_eq!(KeyFormats::Number(0).into_string(), "0");
    assert_eq!(KeyFormats::Number(-7).into_string(), "-7");
    assert_eq!(KeyFormats::Number(10).into_string(), "10");
    assert_eq!(KeyFormats::Number(i32::MAX).into_string(), "2147483647");
    assert_eq!(KeyFormats::Number(i32::MIN).into_string(), "-2147483648");
}

#[test]
fn identifier_with_key_or_search() {
    assert_eq!(
        KeyOrSearch::from_identifier(key("ABC-1")),
        Ok(KeyOrSearch::Key("ABC-1".to_string()))
    );
    assert_eq!(
        KeyOrSearch::from_identifier(Identifier { key: Some(KeyFormats::Number(42)), search: None }),
        Ok(KeyOrSearch::Key("42".to_string()))
    );
    assert_eq!(
        KeyOrSearch::from_identifier(Identifier { key: None, search: Some("a = b".to_string()) }),
        Ok(KeyOrSearch::Search("a = b".to_string()))
    );
}

#[test]
fn identifier_with_both_or_neither_is_refused() {
    let both = Identifier { key: Some(KeyFormats::Number(1)), search: Some("x".to_string()) };
    assert_eq!(KeyOrSearch::from_identifier(both), Err(IdentifierError::BothSet));
    let neither = Identifier { key: None, search: None };
    assert_eq!(KeyOrSearch::from_identifier(neither), Err(IdentifierError::NeitherSet));
}

#[test]
fn key_or_search_text() {
    assert_eq!(KeyOrSearch::Key("k".to_string()).as_str(), "k");
    assert_eq!(KeyOrSearch::Search("s".to_string()).as_str(), "s");
    assert_eq!(KeyOrSearch::Key("k".to_string()).clone(), KeyOrSearch::Key("k".to_string()));
}

#[test]
fn entry_becomes_query_with_references() {
    let overrides = Overrides { doc_type: Some("Known Issue".to_string()), components: None, subsystems: None };
    let item = TicketQueryEntry(
        Service::Bugzilla,
        Identifier { key: Some(KeyFormats::Number(100)), search: None },
        TicketQueryOptions {
            overrides: Some(Overrides {
                doc_type: Some("Known Issue".to_string()),
                components: None,
                subsystems: None,
            }),
            references: vec![
                entry(Service::Jira, key("ABC-1"), vec![entry(Service::Jira, key("ABC-2"), vec![])]),
                entry(Service::Bugzilla, key("200"), vec![]),
            ],
        },
    );
    let query = TicketQuery::from_entry(item).unwrap();
    let leaf = |tracker, text: &str| {
        Arc::new(TicketQuery {
            tracker,
            using: KeyOrSearch::Key(text.to_string()),
            overrides: None,
            references: vec![],
        })
    };
    let expected = TicketQuery {
        tracker: Service::Bugzilla,
        using: KeyOrSearch::Key("100".to_string()),
        overrides: Some(overrides),
        references: vec![
            Arc::new(TicketQuery {
                tracker: Service::Jira,
                using: KeyOrSearch::Key("ABC-1".to_string()),
                overrides: None,
                references: vec![leaf(Service::Jira, "ABC-2")],
            }),
            leaf(Service::Bugzilla, "200"),
        ],
    };
    assert_eq!(query, expected);
}

#[test]
fn entry_with_bad_reference_is_refused() {
    let neither = Identifier { key: None, search: None };
    let both = Identifier { key: Some(KeyFormats::Number(1)), search: Some("x".to_string()) };
    let item = entry(
        Service::Jira,
        key("ABC-1"),
        vec![
            entry(Service::Jira, key("ABC-2"), vec![]),
            entry(Service::Jira, key("ABC-3"), vec![entry(Service::Jira, neither, vec![])]),
            entry(Service::Jira, both, vec![]),
        ],
    );
    assert_eq!(TicketQuery::from_entry(item), Err(IdentifierError::NeitherSet));
    let both = Identifier { key: Some(KeyFormats::Number(1)), search: Some("x".to_string()) };
    let neither = Identifier { key: None, search: None };
    let own = entry(Service::Jira, both, vec![entry(Service::Jira, neither, vec![])]);
    assert_eq!(TicketQuery::from_entry(own), Err(IdentifierError::BothSet));
}

#[test]
fn entries_become_queries_in_order() {
    let entries = vec![
        entry(Service::Bugzilla, key("2"), vec![]),
        entry(Service::Jira, key("A-1"), vec![]),
        entry(Service::Bugzilla, key("1"), vec![]),
    ];
    let queries = queries_from_entries(entries).unwrap();
    let keys: Vec<&str> = queries.iter().map(|q| q.using.as_str()).collect();
    assert_eq!(keys, vec!["2", "A-1", "1"]);
    assert_eq!(queries_from_entries(vec![]), Ok(vec![]));
}

#[test]
fn data_dir_prefers_current_name() {
    assert_eq!(locate_data_dir(true, false), Some(DataDir::Current));
    assert_eq!(locate_data_dir(true, true), Some(DataDir::Current));
    assert_eq!(locate_data_dir(false, true), Some(DataDir::Legacy));
    assert_eq!(locate_data_dir(false, false), None);
}

#[test]
fn project_is_assembled() {
    let project = Project::new(
        "/work/notes".to_string(),
        "/work/notes/acorns/generated".to_string(),
        vec![entry(Service::Bugzilla, key("1"), vec![]), entry(Service::Jira, key("A-1"), vec![])],
        trackers(),
        template(),
    )
    .unwrap();
    assert_eq!(project.base_dir, "/work/notes");
    assert_eq!(project.generated_dir, "/work/notes/acorns/generated");
    assert_eq!(project.tickets.len(), 2);
    assert_eq!(project.tickets[1].tracker, Service::Jira);
    assert_eq!(project.trackers, trackers());
    assert_eq!(project.templates, template());
}

#[test]
fn project_with_bad_entry_is_refused() {
    let neither = Identifier { key: None, search: None };
    let project = Project::new(
        String::new(),
        String::new(),
        vec![entry(Service::Bugzilla, key("1"), vec![]), entry(Service::Jira, neither, vec![])],
        trackers(),
        template(),
    );
    assert_eq!(project.unwrap_err(), IdentifierError::NeitherSet);
}

#[test]
fn service_names() {
    assert_eq!(Service::Bugzilla.short_name(), "BZ");
    assert_eq!(Service::Jira.short_name(), "Jira");
    assert_eq!(Service::Bugzilla.to_string(), "Bugzilla");
    assert_eq!(Service::Jira.to_string(), "Jira");
}

#[test]
fn bugzilla_fields_config() {
    let config = trackers().bugzilla;
    assert_eq!(config.doc_type(), names(&["b_type", "b_type_2"]).as_slice());
    assert_eq!(config.doc_text(), names(&["b_text"]).as_slice());
    assert_eq!(config.doc_text_status(), names(&["b_status"]).as_slice());
    assert_eq!(config.subsystems(), names(&["b_pool"]).as_slice());
    assert!(config.target_release().is_empty());
    assert!(config.docs_contact().is_empty());
    assert_eq!(config.host(), "https://bugzilla.example.com");
}

#[test]
fn jira_fields_config() {
    let config = trackers().jira;
    assert_eq!(config.doc_type(), names(&["j_type"]).as_slice());
    assert_eq!(config.doc_text(), names(&["j_text"]).as_slice());
    assert_eq!(config.doc_text_status(), names(&["j_status"]).as_slice());
    assert_eq!(config.docs_contact(), names(&["j_contact"]).as_slice());
    assert!(config.subsystems().is_empty());
    assert_eq!(config.target_release(), names(&["j_release"]).as_slice());
    assert_eq!(config.host(), "https://issues.example.com");
}
