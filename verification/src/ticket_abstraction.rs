//! The ticket that all reports are written from, whichever tracker it came
//! from: how a record becomes one, and how the tickets that were fetched are
//! put into the order in which the project asks for them.

use std::sync::Arc;

use vstd::prelude::*;
use vstd::string::StringExecFns;

use crate::config::tracker::{FieldNames, FieldsConfig, Service};
use crate::config::{
    query_views, KeyOrSearch, Overrides, OverridesView, QueryText, QueryView, TicketQuery,
};
use crate::extra_fields::{DocTextStatus, DocsContact, ExtraFields, FieldError, FieldErrorView};
use crate::record::{Bug, Flag, Issue};
use crate::text::{decimal, int_to_string, optional_text, optional_texts, same_text, texts};

verus! {

/// An abstract ticket representation that generalizes over Bugzilla, Jira, and any other issue trackers.
#[derive(Debug, PartialEq, Eq)]
pub struct AbstractTicket {
    pub id: TicketId,
    pub summary: String,
    pub description: Option<String>,
    pub doc_type: Option<String>,
    pub doc_text: Option<String>,
    pub docs_contact: DocsContact,
    pub status: String,
    pub is_open: bool,
    pub priority: String,
    pub url: String,
    pub assignee: String,
    pub components: Vec<String>,
    pub product: String,
    pub labels: Option<Vec<String>>,
    pub flags: Option<Vec<String>>,
    /// The releases that the ticket is meant for. There may be none.
    pub target_releases: Vec<String>,
    pub subsystems: Vec<String>,
    pub groups: Option<Vec<String>>,
    pub public: bool,
    pub doc_text_status: DocTextStatus,
    /// The tickets that duplicate this one, each held whole.
    pub duplicates: Vec<AbstractTicket>,
}

/// An identification of the original ticket on the issue tracker.
#[derive(Debug, PartialEq, Eq)]
pub struct TicketId {
    pub key: String,
    pub tracker: Service,
}

/// The identification of a ticket, as plain values.
pub struct TicketIdView {
    pub key: Seq<char>,
    pub tracker: Service,
}

impl View for TicketId {
    type V = TicketIdView;

    open spec fn view(&self) -> TicketIdView {
        TicketIdView { key: self.key@, tracker: self.tracker }
    }
}

/// A ticket as plain values.
pub struct TicketView {
    pub id: TicketIdView,
    pub summary: Seq<char>,
    pub description: Option<Seq<char>>,
    pub doc_type: Option<Seq<char>>,
    pub doc_text: Option<Seq<char>>,
    pub docs_contact: Option<Seq<char>>,
    pub status: Seq<char>,
    pub is_open: bool,
    pub priority: Seq<char>,
    pub url: Seq<char>,
    pub assignee: Seq<char>,
    pub components: Seq<Seq<char>>,
    pub product: Seq<char>,
    pub labels: Option<Seq<Seq<char>>>,
    pub flags: Option<Seq<Seq<char>>>,
    pub target_releases: Seq<Seq<char>>,
    pub subsystems: Seq<Seq<char>>,
    pub groups: Option<Seq<Seq<char>>>,
    pub public: bool,
    pub doc_text_status: DocTextStatus,
    pub duplicates: Seq<TicketView>,
}

/// A ticket as plain values, its duplicates with it.
pub open spec fn ticket_view(ticket: AbstractTicket) -> TicketView
    decreases ticket,
{
    TicketView {
        id: ticket.id@,
        summary: ticket.summary@,
        description: optional_text(ticket.description),
        doc_type: optional_text(ticket.doc_type),
        doc_text: optional_text(ticket.doc_text),
        docs_contact: ticket.docs_contact@,
        status: ticket.status@,
        is_open: ticket.is_open,
        priority: ticket.priority@,
        url: ticket.url@,
        assignee: ticket.assignee@,
        components: texts(ticket.components@),
        product: ticket.product@,
        labels: optional_texts(ticket.labels),
        flags: optional_texts(ticket.flags),
        target_releases: texts(ticket.target_releases@),
        subsystems: texts(ticket.subsystems@),
        groups: optional_texts(ticket.groups),
        public: ticket.public,
        doc_text_status: ticket.doc_text_status,
        duplicates: Seq::new(
            ticket.duplicates@.len(),
            |i: int|
                if 0 <= i < ticket.duplicates@.len() {
                    ticket_view(ticket.duplicates@[i])
                } else {
                    arbitrary()
                },
        ),
    }
}

impl View for AbstractTicket {
    type V = TicketView;

    open spec fn view(&self) -> TicketView {
        ticket_view(*self)
    }
}

/// The tickets of a list as plain values, in order.
pub open spec fn ticket_views(tickets: Seq<AbstractTicket>) -> Seq<TicketView> {
    tickets.map_values(|t: AbstractTicket| t@)
}

/// The flags of a bug as texts, in order.
pub open spec fn flag_texts(flags: Option<Vec<Flag>>) -> Option<Seq<Seq<char>>> {
    match flags {
        Some(list) => Some(list@.map_values(|f: Flag| f.shown())),
        None => None,
    }
}

/// The ticket that a bug becomes under the configured names, or the failure
/// of the first field that cannot be had: the doc type, the doc text, the
/// subsystems, the documentation status, in this order.
pub open spec fn bug_ticket(bug: Bug, names: FieldNames) -> Result<TicketView, FieldErrorView> {
    match bug.doc_type_of(names) {
        Err(e) => Err(e),
        Ok(doc_type) => match bug.doc_text_of(names) {
            Err(e) => Err(e),
            Ok(doc_text) => match bug.target_releases_of(names) {
                Err(e) => Err(e),
                Ok(target_releases) => match bug.subsystems_of(names) {
                    Err(e) => Err(e),
                    Ok(subsystems) => match bug.doc_text_status_of(names) {
                        Err(e) => Err(e),
                        Ok(doc_text_status) => Ok(
                            TicketView {
                                id: TicketIdView {
                                    key: decimal(bug.id as int),
                                    tracker: Service::Bugzilla,
                                },
                                summary: bug.summary@,
                                description: None,
                                doc_type: Some(doc_type),
                                doc_text: Some(doc_text),
                                docs_contact: bug.docs_contact_of(names),
                                status: bug.status@,
                                is_open: bug.is_open,
                                priority: bug.priority@,
                                url: bug.url_of(names),
                                assignee: bug.assigned_to@,
                                components: texts(bug.component@),
                                product: bug.product@,
                                labels: None,
                                flags: flag_texts(bug.flags),
                                target_releases,
                                subsystems,
                                groups: Some(texts(bug.groups@)),
                                public: bug.groups@.len() == 0,
                                doc_text_status,
                                duplicates: Seq::empty(),
                            },
                        ),
                    },
                },
            },
        },
    }
}

/// The ticket that an issue becomes under the configured names, or the
/// failure of the first field that cannot be had: the doc type, the doc text,
/// the subsystems, the documentation status, in this order.
pub open spec fn issue_ticket(issue: Issue, names: FieldNames) -> Result<
    TicketView,
    FieldErrorView,
> {
    match issue.doc_type_of(names) {
        Err(e) => Err(e),
        Ok(doc_type) => match issue.doc_text_of(names) {
            Err(e) => Err(e),
            Ok(doc_text) => match issue.target_releases_of(names) {
                Err(e) => Err(e),
                Ok(target_releases) => match issue.subsystems_of(names) {
                    Err(e) => Err(e),
                    Ok(subsystems) => match issue.doc_text_status_of(names) {
                        Err(e) => Err(e),
                        Ok(doc_text_status) => Ok(
                            TicketView {
                                id: TicketIdView { key: issue.key@, tracker: Service::Jira },
                                summary: issue.summary@,
                                description: optional_text(issue.description),
                                doc_type: Some(doc_type),
                                doc_text: Some(doc_text),
                                docs_contact: issue.docs_contact_of(names),
                                status: issue.status@,
                                is_open: issue.status@ != "Closed"@,
                                priority: issue.priority@,
                                url: issue.url_of(names),
                                assignee: issue.assignee@,
                                components: texts(issue.components@),
                                product: issue.project@,
                                labels: Some(texts(issue.labels@)),
                                flags: None,
                                target_releases,
                                subsystems,
                                groups: None,
                                public: false,
                                doc_text_status,
                                duplicates: Seq::empty(),
                            },
                        ),
                    },
                },
            },
        },
    }
}

/// Whether a result holds the ticket, or the failure, that the rule gives.
pub open spec fn ticket_result(
    got: Result<AbstractTicket, FieldError>,
    rule: Result<TicketView, FieldErrorView>,
) -> bool {
    match got {
        Ok(ticket) => rule == Ok::<TicketView, FieldErrorView>(ticket@),
        Err(e) => rule == Err::<TicketView, FieldErrorView>(e@),
    }
}

/// A ticket with the fields that a query overrides replaced.
pub open spec fn overridden(ticket: TicketView, overrides: OverridesView) -> TicketView {
    TicketView {
        doc_type: match overrides.doc_type {
            Some(doc_type) => Some(doc_type),
            None => ticket.doc_type,
        },
        components: match overrides.components {
            Some(components) => components,
            None => ticket.components,
        },
        subsystems: match overrides.subsystems {
            Some(subsystems) => subsystems,
            None => ticket.subsystems,
        },
        ..ticket
    }
}

/// A copy of a list of strings.
fn copy_strings(list: &Vec<String>) -> (copy: Vec<String>)
    ensures
        texts(copy@) == texts(list@),
{
    let copy = list.clone();
    copy
}

/// A copy of a list of strings that may be absent.
fn copy_optional_strings(list: &Option<Vec<String>>) -> (copy: Option<Vec<String>>)
    ensures
        optional_texts(copy) == optional_texts(*list),
{
    match list {
        Some(list) => Some(copy_strings(list)),
        None => None,
    }
}

impl Clone for TicketId {
    fn clone(&self) -> (copy: TicketId)
        ensures
            copy@ == self@,
    {
        TicketId { key: self.key.clone(), tracker: self.tracker }
    }
}

impl AbstractTicket {
    /// Turns a bug into a ticket, under the names that the tracker's
    /// configuration gives.
    pub fn from_bug<C: FieldsConfig>(bug: Bug, config: &C) -> (got: Result<
        AbstractTicket,
        FieldError,
    >)
        ensures
            ticket_result(got, bug_ticket(bug, config.names())),
    {
        let doc_type = match bug.doc_type(config) {
            Ok(doc_type) => doc_type,
            Err(e) => {
                return Err(e);
            },
        };
        let doc_text = match bug.doc_text(config) {
            Ok(doc_text) => doc_text,
            Err(e) => {
                return Err(e);
            },
        };
        let target_releases = match bug.target_releases(config) {
            Ok(target_releases) => target_releases,
            Err(e) => {
                return Err(e);
            },
        };
        let subsystems = match bug.subsystems(config) {
            Ok(subsystems) => subsystems,
            Err(e) => {
                return Err(e);
            },
        };
        let doc_text_status = match bug.doc_text_status(config) {
            Ok(doc_text_status) => doc_text_status,
            Err(e) => {
                return Err(e);
            },
        };
        let docs_contact = bug.docs_contact(config);
        let url = bug.url(config);
        // Convert all flags to `name: value` strings.
        let flags = match &bug.flags {
            Some(list) => {
                let mut shown: Vec<String> = Vec::new();
                let mut i: usize = 0;
                while i < list.len()
                    invariant
                        i <= list.len(),
                        shown@.len() == i,
                        forall|j: int| 0 <= j < i ==> (#[trigger] shown@[j])@ == list@[j].shown(),
                    decreases list.len() - i,
                {
                    shown.push(list[i].to_string());
                    i += 1;
                }
                assert(texts(shown@) =~= list@.map_values(|f: Flag| f.shown()));
                Some(shown)
            },
            None => None,
        };
        // A bug is public if no groups are set for it.
        let public = bug.groups.len() == 0;
        let ticket = AbstractTicket {
            id: TicketId { key: int_to_string(bug.id), tracker: Service::Bugzilla },
            summary: bug.summary,
            description: None,
            doc_type: Some(doc_type),
            doc_text: Some(doc_text),
            docs_contact,
            status: bug.status,
            is_open: bug.is_open,
            priority: bug.priority,
            url,
            assignee: bug.assigned_to,
            components: bug.component,
            product: bug.product,
            // Bugzilla has no labels.
            labels: None,
            flags,
            target_releases,
            subsystems,
            groups: Some(bug.groups),
            public,
            doc_text_status,
            duplicates: Vec::new(),
        };
        assert(ticket@.duplicates =~= Seq::empty());
        Ok(ticket)
    }

    /// Turns an issue into a ticket, under the names that the tracker's
    /// configuration gives.
    pub fn from_issue<C: FieldsConfig>(issue: Issue, config: &C) -> (got: Result<
        AbstractTicket,
        FieldError,
    >)
        ensures
            ticket_result(got, issue_ticket(issue, config.names())),
    {
        let doc_type = match issue.doc_type(config) {
            Ok(doc_type) => doc_type,
            Err(e) => {
                return Err(e);
            },
        };
        let doc_text = match issue.doc_text(config) {
            Ok(doc_text) => doc_text,
            Err(e) => {
                return Err(e);
            },
        };
        let target_releases = match issue.target_releases(config) {
            Ok(target_releases) => target_releases,
            Err(e) => {
                return Err(e);
            },
        };
        let subsystems = match issue.subsystems(config) {
            Ok(subsystems) => subsystems,
            Err(e) => {
                return Err(e);
            },
        };
        let doc_text_status = match issue.doc_text_status(config) {
            Ok(doc_text_status) => doc_text_status,
            Err(e) => {
                return Err(e);
            },
        };
        let docs_contact = issue.docs_contact(config);
        let url = issue.url(config);
        let is_open = !same_text(issue.status.as_str(), "Closed");
        let ticket = AbstractTicket {
            id: TicketId { key: issue.key, tracker: Service::Jira },
            summary: issue.summary,
            description: issue.description,
            doc_type: Some(doc_type),
            doc_text: Some(doc_text),
            docs_contact,
            status: issue.status,
            is_open,
            priority: issue.priority,
            url,
            assignee: issue.assignee,
            components: issue.components,
            product: issue.project,
            labels: Some(issue.labels),
            // Jira does not support flags.
            flags: None,
            target_releases,
            subsystems,
            // Jira does not recognize groups in the Bugzilla way.
            groups: None,
            public: false,
            doc_text_status,
            duplicates: Vec::new(),
        };
        assert(ticket@.duplicates =~= Seq::empty());
        Ok(ticket)
    }

    /// Replaces the doc type, the components and the subsystems by those that
    /// a query sets in their place. What the query leaves unset stays as the
    /// tracker gave it.
    pub fn apply_overrides(&mut self, overrides: &Overrides)
        ensures
            final(self)@ == overridden(old(self)@, overrides@),
    {
        if let Some(doc_type) = &overrides.doc_type {
            self.doc_type = Some(doc_type.clone());
        }
        if let Some(components) = &overrides.components {
            self.components = copy_strings(components);
        }
        if let Some(subsystems) = &overrides.subsystems {
            self.subsystems = copy_strings(subsystems);
        }
    }

}

impl Clone for AbstractTicket {
    /// A copy of the ticket, its duplicates with it.
    fn clone(&self) -> (copy: AbstractTicket)
        ensures
            copy@ == self@,
        decreases self,
    {
        let mut duplicates: Vec<AbstractTicket> = Vec::new();
        let mut i: usize = 0;
        while i < self.duplicates.len()
            invariant
                i <= self.duplicates.len(),
                duplicates@.len() == i,
                forall|j: int| 0 <= j < i ==> (#[trigger] duplicates@[j])@ == self.duplicates@[j]@,
            decreases self.duplicates.len() - i,
        {
            duplicates.push(self.duplicates[i].clone());
            i += 1;
        }
        let copy = AbstractTicket {
            id: self.id.clone(),
            summary: self.summary.clone(),
            description: self.description.clone(),
            doc_type: self.doc_type.clone(),
            doc_text: self.doc_text.clone(),
            docs_contact: self.docs_contact.clone(),
            status: self.status.clone(),
            is_open: self.is_open,
            priority: self.priority.clone(),
            url: self.url.clone(),
            assignee: self.assignee.clone(),
            components: copy_strings(&self.components),
            product: self.product.clone(),
            labels: copy_optional_strings(&self.labels),
            flags: copy_optional_strings(&self.flags),
            target_releases: copy_strings(&self.target_releases),
            subsystems: copy_strings(&self.subsystems),
            groups: copy_optional_strings(&self.groups),
            public: self.public,
            doc_text_status: self.doc_text_status,
            duplicates,
        };
        assert(copy@.duplicates =~= self@.duplicates);
        copy
    }
}

/// The keys that the first `count` queries ask of a tracker, in the order of
/// the queries.
pub open spec fn keys_asked(queries: Seq<QueryView>, tracker: Service, count: int) -> Seq<
    Seq<char>,
>
    decreases count,
{
    if count <= 0 || count > queries.len() {
        Seq::empty()
    } else {
        match queries[count - 1].using {
            QueryText::Key(key) if queries[count - 1].tracker == tracker => keys_asked(
                queries,
                tracker,
                count - 1,
            ).push(key),
            _ => keys_asked(queries, tracker, count - 1),
        }
    }
}

/// The searches that the first `count` queries ask of a tracker, in the order
/// of the queries.
pub open spec fn searches_asked(queries: Seq<QueryView>, tracker: Service, count: int) -> Seq<
    Seq<char>,
>
    decreases count,
{
    if count <= 0 || count > queries.len() {
        Seq::empty()
    } else {
        match queries[count - 1].using {
            QueryText::Search(search) if queries[count - 1].tracker == tracker => searches_asked(
                queries,
                tracker,
                count - 1,
            ).push(search),
            _ => searches_asked(queries, tracker, count - 1),
        }
    }
}

/// Sorts out what the queries ask of one tracker: the keys of the queries for
/// a key, and the search expressions of the searches, each list in the order
/// of the queries. The queries of the other tracker are left out.
pub fn asked_of(queries: &[Arc<TicketQuery>], tracker: Service) -> (asked: (
    Vec<String>,
    Vec<String>,
))
    ensures
        texts(asked.0@) == keys_asked(query_views(queries@), tracker, queries@.len() as int),
        texts(asked.1@) == searches_asked(query_views(queries@), tracker, queries@.len() as int),
{
    let ghost all = query_views(queries@);
    let mut keys: Vec<String> = Vec::new();
    let mut searches: Vec<String> = Vec::new();
    let mut i: usize = 0;
    while i < queries.len()
        invariant
            i <= queries.len(),
            all == query_views(queries@),
            texts(keys@) == keys_asked(all, tracker, i as int),
            texts(searches@) == searches_asked(all, tracker, i as int),
        decreases queries.len() - i,
    {
        let query: &TicketQuery = &queries[i];
        if query.tracker == tracker {
            match &query.using {
                KeyOrSearch::Key(key) => {
                    keys.push(key.clone());
                },
                KeyOrSearch::Search(search) => {
                    searches.push(search.clone());
                },
            }
        }
        i += 1;
    }
    (keys, searches)
}

/// A ticket as it came from a tracker: the ticket, and the search that found
/// it where it was found by a search and not asked for by its key.
#[derive(Debug, PartialEq, Eq)]
pub struct AnnotatedTicket {
    pub ticket: AbstractTicket,
    /// The search expression that found the ticket.
    pub search: Option<String>,
}

/// A fetched ticket as plain values.
pub struct AnnotatedView {
    pub ticket: TicketView,
    pub search: Option<Seq<char>>,
}

impl View for AnnotatedTicket {
    type V = AnnotatedView;

    open spec fn view(&self) -> AnnotatedView {
        AnnotatedView { ticket: self.ticket@, search: optional_text(self.search) }
    }
}

/// The fetched tickets of a list as plain values, in order.
pub open spec fn annotated_views(fetched: Seq<AnnotatedTicket>) -> Seq<AnnotatedView> {
    fetched.map_values(|t: AnnotatedTicket| t@)
}

/// Whether a fetched ticket answers a query. It has to come from the tracker
/// that the query names. A query for a key is answered by the tickets of that
/// key, however they were found; a search by the tickets that it found.
pub open spec fn answers(query: QueryView, fetched: AnnotatedView) -> bool {
    query.tracker == fetched.ticket.id.tracker && match query.using {
        QueryText::Key(key) => key == fetched.ticket.id.key,
        QueryText::Search(search) => fetched.search == Some(search),
    }
}

/// A ticket as a query takes it: with the fields replaced that the query
/// overrides.
pub open spec fn taken_by(query: QueryView, ticket: TicketView) -> TicketView {
    match query.overrides {
        Some(overrides) => overridden(ticket, overrides),
        None => ticket,
    }
}

/// Those of the first `count` fetched tickets that answer a query, in the
/// order in which they were fetched, each as often as it was fetched, and each
/// with the overrides of the query.
pub open spec fn matches_upto(query: QueryView, fetched: Seq<AnnotatedView>, count: int) -> Seq<
    TicketView,
>
    decreases count,
{
    if count <= 0 || count > fetched.len() {
        Seq::empty()
    } else if answers(query, fetched[count - 1]) {
        matches_upto(query, fetched, count - 1).push(taken_by(query, fetched[count - 1].ticket))
    } else {
        matches_upto(query, fetched, count - 1)
    }
}

/// The fetched tickets that answer a query.
pub open spec fn matches(query: QueryView, fetched: Seq<AnnotatedView>) -> Seq<TicketView> {
    matches_upto(query, fetched, fetched.len() as int)
}

/// The tickets of the first `count` queries: for each query in its turn the
/// fetched tickets that answer it. A query that no ticket answers fails the
/// whole: the result is then the place of the first such query.
pub open spec fn resolved_upto(queries: Seq<QueryView>, fetched: Seq<AnnotatedView>, count: int)
    -> Result<Seq<TicketView>, int>
    decreases count,
{
    if count <= 0 || count > queries.len() {
        Ok(Seq::empty())
    } else {
        match resolved_upto(queries, fetched, count - 1) {
            Err(place) => Err(place),
            Ok(before) => if matches(queries[count - 1], fetched).len() == 0 {
                Err(count - 1)
            } else {
                Ok(before + matches(queries[count - 1], fetched))
            },
        }
    }
}

/// The tickets of all the queries, or the place of the first query that no
/// ticket answers.
pub open spec fn resolved(queries: Seq<QueryView>, fetched: Seq<AnnotatedView>) -> Result<
    Seq<TicketView>,
    int,
> {
    resolved_upto(queries, fetched, queries.len() as int)
}

/// A query that no fetched ticket answers.
#[derive(Clone, Debug, PartialEq, Eq)]
pub struct QueryError {
    /// The place of the query among the configured queries.
    pub index: usize,
    pub tracker: Service,
    pub using: KeyOrSearch,
}

/// The message that names a query that produced no tickets.
pub open spec fn query_error_message(tracker: Service, using: QueryText) -> Seq<char> {
    "Query produced no tickets: "@ + tracker.name() + " "@ + using.text()
}

impl QueryError {
    /// The error as a message that names the query.
    pub fn message(&self) -> (message: String)
        ensures
            message@ == query_error_message(self.tracker, self.using@),
    {
        let mut message = String::from_str("Query produced no tickets: ");
        message.append(self.tracker.to_string().as_str());
        message.append(" ");
        message.append(self.using.as_str());
        message
    }
}

impl AnnotatedTicket {
    /// Whether the fetched ticket answers a query.
    pub fn answers(&self, query: &TicketQuery) -> (yes: bool)
        ensures
            yes == answers(query@, self@),
    {
        query.tracker == self.ticket.id.tracker && match &query.using {
            KeyOrSearch::Key(key) => same_text(key.as_str(), self.ticket.id.key.as_str()),
            KeyOrSearch::Search(search) => match &self.search {
                Some(found_by) => same_text(found_by.as_str(), search.as_str()),
                None => false,
            },
        }
    }
}

/// Once a query has failed, the queries after it change nothing.
proof fn lemma_resolution_error_stays(
    queries: Seq<QueryView>,
    fetched: Seq<AnnotatedView>,
    count: int,
    more: int,
)
    requires
        0 <= count <= more <= queries.len(),
        resolved_upto(queries, fetched, count) is Err,
    ensures
        resolved_upto(queries, fetched, more) == resolved_upto(queries, fetched, count),
    decreases more - count,
{
    if count < more {
        lemma_resolution_error_stays(queries, fetched, count, more - 1);
    }
}

/// Puts the fetched tickets into the order of the configured queries.
///
/// For each query in its turn, the result holds the fetched tickets that
/// answer it, in the order in which they were fetched and each as often as it
/// was fetched. Each is a copy with the overrides of its query. Queries are
/// neither reordered nor held against each other. A query that no ticket
/// answers fails the whole, and the error names the first such query.
pub fn from_queries(queries: &[Arc<TicketQuery>], fetched: &[AnnotatedTicket]) -> (sorted: Result<
    Vec<AbstractTicket>,
    QueryError,
>)
    ensures
        match sorted {
            Ok(tickets) => resolved(query_views(queries@), annotated_views(fetched@)) == Ok::<
                Seq<TicketView>,
                int,
            >(ticket_views(tickets@)),
            Err(e) => resolved(query_views(queries@), annotated_views(fetched@)) == Err::<
                Seq<TicketView>,
                int,
            >(e.index as int) && e.index < queries@.len() && e.tracker == queries@[e.index as int].tracker
                && e.using@ == queries@[e.index as int].using@,
        },
{
    let ghost asked = query_views(queries@);
    let ghost found = annotated_views(fetched@);
    let mut sorted: Vec<AbstractTicket> = Vec::new();
    assert(ticket_views(sorted@) =~= Seq::empty());
    let mut q: usize = 0;
    while q < queries.len()
        invariant
            q <= queries.len(),
            asked == query_views(queries@),
            found == annotated_views(fetched@),
            resolved_upto(asked, found, q as int) == Ok::<Seq<TicketView>, int>(
                ticket_views(sorted@),
            ),
        decreases queries.len() - q,
    {
        let query: &TicketQuery = &queries[q];
        let ghost before = ticket_views(sorted@);
        let mut any = false;
        let mut t: usize = 0;
        while t < fetched.len()
            invariant
                t <= fetched.len(),
                found == annotated_views(fetched@),
                ticket_views(sorted@) == before + matches_upto(query@, found, t as int),
                any == (matches_upto(query@, found, t as int).len() > 0),
            decreases fetched.len() - t,
        {
            if fetched[t].answers(query) {
                let ghost so_far = ticket_views(sorted@);
                let mut copy = fetched[t].ticket.clone();
                if let Some(overrides) = &query.overrides {
                    copy.apply_overrides(overrides);
                }
                sorted.push(copy);
                any = true;
                assert(ticket_views(sorted@) =~= so_far.push(copy@));
            }
            t += 1;
        }
        // A query might result in no tickets. For example, Bugzilla silently
        // ignores nonexistent IDs. In that case, report the query and stop.
        if !any {
            proof {
                lemma_resolution_error_stays(asked, found, q as int + 1, asked.len() as int);
            }
            return Err(QueryError { index: q, tracker: query.tracker, using: query.using.clone() });
        }
        q += 1;
    }
    Ok(sorted)
}

} // verus!
