use std::sync::Arc;

use acorns::config::tracker::Service;
use acorns::config::{KeyOrSearch, TicketQuery};
use acorns::extra_fields::{DocTextStatus, DocsContact};
use acorns::ticket_abstraction::{
    asked_of, from_queries, AbstractTicket, AnnotatedTicket, QueryError, TicketId,
};

fn ticket(tracker: Service, key: &str, summary: &str) -> AnnotatedTicket {
    AnnotatedTicket { ticket: plain(tracker, key, summary), search: None }
}

fn found(search: &str, tracker: Service, key: &str, summary: &str) -> AnnotatedTicket {
    AnnotatedTicket { ticket: plain(tracker, key, summary), search: Some(search.to_string()) }
}

fn plain(tracker: Service, key: &str, summary: &str) -> AbstractTicket {
    AbstractTicket {
        id: TicketId { key: key.to_string(), tracker },
        summary: summary.to_string(),
        description: None,
        doc_type: None,
        doc_text: None,
        docs_contact: DocsContact(None),
        status: String::new(),
        is_open: true,
        priority: String::new(),
        url: String::new(),
        assignee: String::new(),
        components: vec![],
        product: String::new(),
        labels: None,
        flags: None,
        target_releases: vec![],
        subsystems: vec![],
        groups: None,
        public: false,
        doc_text_status: DocTextStatus::InProgress,
        duplicates: vec![],
    }
}

fn query(tracker: Service, key: &str) -> Arc<TicketQuery> {
    Arc::new(TicketQuery {
        tracker,
        using: KeyOrSearch::Key(key.to_string()),
        overrides: None,
        references: vec![],
    })
}

fn summaries(tickets: &[AbstractTicket]) -> Vec<&str> {
    tickets.iter().map(|t| t.summary.as_str()).collect()
}

#[test]
fn query_without_ticket_fails_and_is_named() {
    let queries = vec![query(Service::Bugzilla, "123"), query(Service::Jira, "ABC-1")];
    let fetched = vec![ticket(Service::Bugzilla, "123", "bug")];
    let error = from_queries(&queries, &fetched).unwrap_err();
    assert_eq!(
        error,
        QueryError {
            index: 1,
            tracker: Service::Jira,
            using: KeyOrSearch::Key("ABC-1".to_string()),
        }
    );
    assert_eq!(error.message(), "Query produced no tickets: Jira ABC-1");
}

#[test]
fn first_failing_query_is_reported() {
    let queries = vec![
        query(Service::Bugzilla, "1"),
        query(Service::Bugzilla, "2"),
        query(Service::Bugzilla, "3"),
    ];
    let fetched = vec![ticket(Service::Bugzilla, "1", "one")];
    let error = from_queries(&queries, &fetched).unwrap_err();
    assert_eq!(error.index, 1);
    assert_eq!(error.using, KeyOrSearch::Key("2".to_string()));
    assert_eq!(error.message(), "Query produced no tickets: Bugzilla 2");
}

#[test]
fn tickets_come_in_the_order_of_the_queries() {
    let queries = vec![
        query(Service::Jira, "ABC-2"),
        query(Service::Bugzilla, "10"),
        query(Service::Jira, "ABC-1"),
    ];
    let fetched = vec![
        ticket(Service::Bugzilla, "10", "bug ten"),
        ticket(Service::Jira, "ABC-1", "issue one"),
        ticket(Service::Jira, "ABC-2", "issue two"),
    ];
    let sorted = from_queries(&queries, &fetched).unwrap();
    assert_eq!(summaries(&sorted), vec!["issue two", "bug ten", "issue one"]);
}

#[test]
fn same_key_on_other_tracker_does_not_match() {
    let queries = vec![query(Service::Jira, "123")];
    let fetched = vec![ticket(Service::Bugzilla, "123", "bug")];
    assert_eq!(from_queries(&queries, &fetched).unwrap_err().index, 0);
}

#[test]
fn several_matches_keep_fetch_order() {
    let queries = vec![query(Service::Bugzilla, "7"), query(Service::Bugzilla, "8")];
    let fetched = vec![
        ticket(Service::Bugzilla, "7", "first seven"),
        ticket(Service::Bugzilla, "8", "eight"),
        ticket(Service::Bugzilla, "7", "second seven"),
    ];
    let sorted = from_queries(&queries, &fetched).unwrap();
    assert_eq!(summaries(&sorted), vec!["first seven", "second seven", "eight"]);
}

#[test]
fn repeated_queries_repeat_their_tickets() {
    let queries = vec![query(Service::Bugzilla, "7"), query(Service::Bugzilla, "7")];
    let fetched = vec![ticket(Service::Bugzilla, "7", "seven")];
    let sorted = from_queries(&queries, &fetched).unwrap();
    assert_eq!(summaries(&sorted), vec!["seven", "seven"]);
}

#[test]
fn unasked_tickets_are_left_out() {
    let queries = vec![query(Service::Bugzilla, "7")];
    let fetched =
        vec![ticket(Service::Bugzilla, "6", "six"), ticket(Service::Bugzilla, "7", "seven")];
    let sorted = from_queries(&queries, &fetched).unwrap();
    assert_eq!(summaries(&sorted), vec!["seven"]);
}

#[test]
fn no_queries_give_no_tickets() {
    let fetched = vec![ticket(Service::Bugzilla, "7", "seven")];
    assert_eq!(from_queries(&[], &fetched), Ok(vec![]));
    assert_eq!(from_queries(&[], &[]), Ok(vec![]));
}

fn search(tracker: Service, text: &str) -> Arc<TicketQuery> {
    Arc::new(TicketQuery {
        tracker,
        using: KeyOrSearch::Search(text.to_string()),
        overrides: None,
        references: vec![],
    })
}

#[test]
fn search_is_answered_by_what_it_found() {
    let queries = vec![
        query(Service::Bugzilla, "7"),
        search(Service::Jira, "project = ABC"),
        query(Service::Jira, "XYZ-1"),
    ];
    let fetched = vec![
        found("project = ABC", Service::Jira, "ABC-2", "second hit"),
        ticket(Service::Jira, "XYZ-1", "asked by key"),
        found("project = ABC", Service::Jira, "ABC-1", "first hit"),
        found("project = DEF", Service::Jira, "DEF-1", "other search"),
        ticket(Service::Bugzilla, "7", "bug"),
    ];
    let sorted = from_queries(&queries, &fetched).unwrap();
    assert_eq!(summaries(&sorted), vec!["bug", "second hit", "first hit", "asked by key"]);
}

#[test]
fn search_without_hits_fails() {
    let queries = vec![search(Service::Jira, "project = ABC")];
    let fetched = vec![
        ticket(Service::Jira, "ABC-1", "asked by key"),
        found("project = ABC", Service::Bugzilla, "1", "other tracker"),
        found("project = abc", Service::Jira, "ABC-2", "other search"),
    ];
    let error = from_queries(&queries, &fetched).unwrap_err();
    assert_eq!(error.index, 0);
    assert_eq!(error.message(), "Query produced no tickets: Jira project = ABC");
}

#[test]
fn key_is_answered_however_the_ticket_was_found() {
    let queries = vec![query(Service::Jira, "ABC-1"), search(Service::Jira, "project = ABC")];
    let fetched = vec![found("project = ABC", Service::Jira, "ABC-1", "hit")];
    let sorted = from_queries(&queries, &fetched).unwrap();
    assert_eq!(summaries(&sorted), vec!["hit", "hit"]);
}

#[test]
fn ticket_answers_its_own_query_only() {
    let seven = ticket(Service::Bugzilla, "7", "seven");
    assert!(seven.answers(&query(Service::Bugzilla, "7")));
    assert!(!seven.answers(&query(Service::Bugzilla, "70")));
    assert!(!seven.answers(&query(Service::Jira, "7")));
}

#[test]
fn overrides_of_a_query_are_applied_to_its_tickets() {
    let overriding = Arc::new(TicketQuery {
        tracker: Service::Bugzilla,
        using: KeyOrSearch::Key("7".to_string()),
        overrides: Some(acorns::config::Overrides {
            doc_type: Some("Known Issue".to_string()),
            components: None,
            subsystems: Some(vec!["sst".to_string()]),
        }),
        references: vec![],
    });
    let queries = vec![overriding, query(Service::Bugzilla, "7")];
    let fetched = vec![ticket(Service::Bugzilla, "7", "seven")];
    let sorted = from_queries(&queries, &fetched).unwrap();
    assert_eq!(sorted[0].doc_type, Some("Known Issue".to_string()));
    assert_eq!(sorted[0].subsystems, vec!["sst".to_string()]);
    assert_eq!(sorted[1].doc_type, None);
    assert_eq!(sorted[1].subsystems, Vec::<String>::new());
    assert_eq!(fetched[0].ticket.doc_type, None);
}

#[test]
fn queries_are_sorted_out_by_tracker() {
    let queries = vec![
        query(Service::Jira, "ABC-2"),
        search(Service::Bugzilla, "product = RHEL"),
        query(Service::Bugzilla, "10"),
        search(Service::Jira, "project = ABC"),
        query(Service::Jira, "ABC-1"),
        query(Service::Bugzilla, "10"),
        search(Service::Jira, "project = DEF"),
    ];
    assert_eq!(
        asked_of(&queries, Service::Jira),
        (
            vec!["ABC-2".to_string(), "ABC-1".to_string()],
            vec!["project = ABC".to_string(), "project = DEF".to_string()]
        )
    );
    assert_eq!(
        asked_of(&queries, Service::Bugzilla),
        (vec!["10".to_string(), "10".to_string()], vec!["product = RHEL".to_string()])
    );
    assert_eq!(asked_of(&[], Service::Jira), (vec![], vec![]));
}
