//! The configuration of a release-notes project: which tickets it asks for,
//! from which trackers, and how the document is laid out.

use std::sync::Arc;

use vstd::prelude::*;

use crate::text::{decimal, int_to_string, optional_text, optional_texts};

pub mod tracker;

verus! {

/// A ticket query extracted from the user configuration file.
/// It holds all the information necessary to download information
/// on a particular ticket or a group of tickets from an issue tracker.
#[derive(Debug, Eq, PartialEq, Hash)]
pub struct TicketQuery {
    pub tracker: tracker::Service,
    pub using: KeyOrSearch,
    pub overrides: Option<Overrides>,
    pub references: Vec<Arc<TicketQuery>>,
}

/// Variants of the ticket query that the user can configure.
///
/// * `Key`: Requests a specific ticket by its key.
/// * `Search`: Requests all tickets that match a free-form query.
#[derive(Debug, Eq, PartialEq, Hash)]
pub enum KeyOrSearch {
    Key(String),
    Search(String),
}

/// A ticket query as the configuration file writes it: the tracker, what to
/// look for, and options.
#[derive(Debug)]
pub struct TicketQueryEntry(pub tracker::Service, pub Identifier, pub TicketQueryOptions);

/// The string that identifies tickets to pull from the tracker,
/// either in the form of a ticket key (which can be a string or a number),
/// or in the form of a search string.
///
/// The file format keeps both as optional fields. Exactly one of them has to
/// be set.
#[derive(Debug)]
pub struct Identifier {
    pub key: Option<KeyFormats>,
    pub search: Option<String>,
}

/// A simple enum between a string and an integer.
///
/// This increases ergonomics in specifying the tickets in the configuration file,
/// because you can specify Bugzilla keys as numbers without any quotes, such as `[BZ, 12345]`.
#[derive(Clone, Debug)]
pub enum KeyFormats {
    String(String),
    Number(i32),
}

/// A shared options entry in a ticket query written
/// in the configuration file format.
#[derive(Debug)]
pub struct TicketQueryOptions {
    pub overrides: Option<Overrides>,
    pub references: Vec<TicketQueryEntry>,
}

/// Optional, configurable overrides that modify an `AbstractTicket`.
/// The selected fields that you can modify affect the organization of the ticket in the document.
#[derive(Debug, Eq, PartialEq, Hash)]
pub struct Overrides {
    pub doc_type: Option<String>,
    pub components: Option<Vec<String>>,
    pub subsystems: Option<Vec<String>>,
}

/// This struct models the template configuration file.
/// It includes both `chapters` and `subsections` because this is a way
/// to create reusable section definitions that can then
/// appear several times in different places. They have to be defined
/// on the top level, outside the actual chapters.
#[derive(Debug, PartialEq)]
pub struct Template {
    pub chapters: Vec<Section>,
    pub subsections: Option<Vec<Section>>,
}

/// This struct covers the necessary properties of a section, which can either
/// turn into a module if it's a leaf, or into an assembly if it includes
/// more subsections.
///
/// The `filter` field narrows down the tickets that can appear in this module
/// or in the modules that are included in this assembly.
#[derive(Debug, PartialEq)]
pub struct Section {
    pub title: String,
    pub intro_abstract: Option<String>,
    pub filter: Filter,
    pub subsections: Option<Vec<Section>>,
}

/// The configuration of a filter, which narrows down the tickets
/// that can appear in the section that the filter belongs to.
#[derive(Debug, Eq, PartialEq)]
pub struct Filter {
    pub doc_type: Option<Vec<String>>,
    pub subsystem: Option<Vec<String>>,
    pub component: Option<Vec<String>>,
}

/// Parsed input metadata that represent the configuration of a release notes project.
#[derive(Debug)]
pub struct Project {
    pub base_dir: String,
    pub generated_dir: String,
    pub tickets: Vec<Arc<TicketQuery>>,
    pub trackers: tracker::Config,
    pub templates: Template,
}

/// What a query looks for, as plain values.
pub enum QueryText {
    Key(Seq<char>),
    Search(Seq<char>),
}

impl QueryText {
    /// The key or the search expression.
    pub open spec fn text(self) -> Seq<char> {
        match self {
            QueryText::Key(key) => key,
            QueryText::Search(search) => search,
        }
    }
}

impl View for KeyOrSearch {
    type V = QueryText;

    open spec fn view(&self) -> QueryText {
        match self {
            KeyOrSearch::Key(key) => QueryText::Key(key@),
            KeyOrSearch::Search(search) => QueryText::Search(search@),
        }
    }
}

/// The overrides of a query, as plain values.
pub struct OverridesView {
    pub doc_type: Option<Seq<char>>,
    pub components: Option<Seq<Seq<char>>>,
    pub subsystems: Option<Seq<Seq<char>>>,
}

impl View for Overrides {
    type V = OverridesView;

    open spec fn view(&self) -> OverridesView {
        OverridesView {
            doc_type: optional_text(self.doc_type),
            components: optional_texts(self.components),
            subsystems: optional_texts(self.subsystems),
        }
    }
}

/// The overrides of a query that may have none, as plain values.
pub open spec fn optional_overrides(held: Option<Overrides>) -> Option<OverridesView> {
    match held {
        Some(overrides) => Some(overrides@),
        None => None,
    }
}

/// A query with the queries that it refers to, as plain values.
pub struct QueryView {
    pub tracker: tracker::Service,
    pub using: QueryText,
    pub overrides: Option<OverridesView>,
    pub references: Seq<QueryView>,
}

/// A query as plain values.
pub open spec fn query_view(query: TicketQuery) -> QueryView
    decreases query,
{
    QueryView {
        tracker: query.tracker,
        using: query.using@,
        overrides: optional_overrides(query.overrides),
        references: Seq::new(
            query.references@.len(),
            |i: int|
                if 0 <= i < query.references@.len() {
                    query_view(*query.references@[i])
                } else {
                    arbitrary()
                },
        ),
    }
}

impl View for TicketQuery {
    type V = QueryView;

    open spec fn view(&self) -> QueryView {
        query_view(*self)
    }
}

/// The queries of a list, as plain values.
pub open spec fn query_views(queries: Seq<Arc<TicketQuery>>) -> Seq<QueryView> {
    queries.map_values(|q: Arc<TicketQuery>| (*q)@)
}

/// What is wrong with an identifier of the configuration file.
#[derive(Clone, Copy, Debug, PartialEq, Eq, Structural)]
pub enum IdentifierError {
    /// It sets both a key and a search.
    BothSet,
    /// It sets neither a key nor a search.
    NeitherSet,
}

impl KeyFormats {
    /// The key as a text.
    pub open spec fn text(self) -> Seq<char> {
        match self {
            KeyFormats::String(s) => s@,
            KeyFormats::Number(n) => decimal(n as int),
        }
    }

    /// Convert the enum to a string:
    /// either returns the string variant as is, or stringify the integer.
    pub fn into_string(self) -> (key: String)
        ensures
            key@ == self.text(),
    {
        match self {
            KeyFormats::String(s) => s,
            KeyFormats::Number(n) => int_to_string(n),
        }
    }
}

/// What an identifier asks for: a key or a search where exactly one of the
/// two is set, else what is wrong with it.
pub open spec fn identifier_text(item: Identifier) -> Result<QueryText, IdentifierError> {
    match (item.key, item.search) {
        (Some(key), None) => Ok(QueryText::Key(key.text())),
        (None, Some(search)) => Ok(QueryText::Search(search@)),
        (Some(_), Some(_)) => Err(IdentifierError::BothSet),
        (None, None) => Err(IdentifierError::NeitherSet),
    }
}

impl KeyOrSearch {
    /// Reads an identifier of the configuration file. One that sets both a key
    /// and a search, or neither, is refused.
    pub fn from_identifier(item: Identifier) -> (using: Result<KeyOrSearch, IdentifierError>)
        ensures
            match using {
                Ok(found) => identifier_text(item) == Ok::<QueryText, IdentifierError>(found@),
                Err(e) => identifier_text(item) == Err::<QueryText, IdentifierError>(e),
            },
    {
        match (item.key, item.search) {
            (Some(key), None) => Ok(KeyOrSearch::Key(key.into_string())),
            (None, Some(search)) => Ok(KeyOrSearch::Search(search)),
            (Some(_), Some(_)) => Err(IdentifierError::BothSet),
            (None, None) => Err(IdentifierError::NeitherSet),
        }
    }

    /// The key or the search expression that the query carries.
    pub fn as_str(&self) -> (text: &str)
        ensures
            text@ == self@.text(),
    {
        match self {
            KeyOrSearch::Key(key) => key.as_str(),
            KeyOrSearch::Search(search) => search.as_str(),
        }
    }
}

/// The query that an entry of the configuration file stands for, with the
/// queries of its references in their order; or what is wrong with the first
/// identifier that is refused: the entry's own, else that of the first
/// reference that holds one.
pub open spec fn entry_query(entry: TicketQueryEntry) -> Result<QueryView, IdentifierError>
    decreases entry,
{
    match identifier_text(entry.1) {
        Err(e) => Err(e),
        Ok(using) => match entries_queries(entry.2.references@, entry.2.references@.len() as int) {
            Err(e) => Err(e),
            Ok(references) => Ok(
                QueryView {
                    tracker: entry.0,
                    using,
                    overrides: optional_overrides(entry.2.overrides),
                    references,
                },
            ),
        },
    }
}

/// The queries of the first `count` entries of a list.
pub open spec fn entries_queries(entries: Seq<TicketQueryEntry>, count: int) -> Result<
    Seq<QueryView>,
    IdentifierError,
>
    decreases entries, count,
{
    if count <= 0 || count > entries.len() {
        Ok(Seq::empty())
    } else {
        match entries_queries(entries, count - 1) {
            Err(e) => Err(e),
            Ok(before) => match entry_query(entries[count - 1]) {
                Err(e) => Err(e),
                Ok(query) => Ok(before.push(query)),
            },
        }
    }
}

/// Turns the entries of the configuration file into queries, in their order.
pub fn queries_from_entries(entries: Vec<TicketQueryEntry>) -> (queries: Result<
    Vec<Arc<TicketQuery>>,
    IdentifierError,
>)
    ensures
        match queries {
            Ok(list) => entries_queries(entries@, entries@.len() as int) == Ok::<
                Seq<QueryView>,
                IdentifierError,
            >(query_views(list@)),
            Err(e) => entries_queries(entries@, entries@.len() as int) == Err::<
                Seq<QueryView>,
                IdentifierError,
            >(e),
        },
    decreases entries@,
{
    let mut list: Vec<Arc<TicketQuery>> = Vec::new();
    let ghost all = entries@;
    assert(query_views(list@) =~= Seq::empty());
    for entry in it: entries
        invariant
            it.seq() == all,
            entries_queries(all, it.index() as int) == Ok::<Seq<QueryView>, IdentifierError>(
                query_views(list@),
            ),
    {
        let ghost before = query_views(list@);
        match TicketQuery::from_entry(entry) {
            Ok(query) => {
                list.push(Arc::new(query));
                assert(query_views(list@) =~= before.push(query@));
            },
            Err(e) => {
                proof {
                    lemma_entries_error_stays(all, it.index() + 1, all.len() as int);
                }
                return Err(e);
            },
        }
    }
    Ok(list)
}

/// Once an entry is refused, the list is refused with the same error however
/// many entries follow.
proof fn lemma_entries_error_stays(entries: Seq<TicketQueryEntry>, count: int, more: int)
    requires
        0 <= count <= more <= entries.len(),
        entries_queries(entries, count) is Err,
    ensures
        entries_queries(entries, more) == entries_queries(entries, count),
    decreases more - count,
{
    if count < more {
        lemma_entries_error_stays(entries, count, more - 1);
    }
}

impl Clone for KeyOrSearch {
    fn clone(&self) -> (copy: KeyOrSearch)
        ensures
            copy@ == self@,
    {
        match self {
            KeyOrSearch::Key(key) => KeyOrSearch::Key(key.clone()),
            KeyOrSearch::Search(search) => KeyOrSearch::Search(search.clone()),
        }
    }
}

impl TicketQuery {
    /// Turns an entry of the configuration file into a query, and the entries
    /// that it refers to with it.
    pub fn from_entry(item: TicketQueryEntry) -> (query: Result<TicketQuery, IdentifierError>)
        ensures
            match query {
                Ok(made) => entry_query(item) == Ok::<QueryView, IdentifierError>(made@),
                Err(e) => entry_query(item) == Err::<QueryView, IdentifierError>(e),
            },
        decreases item,
    {
        let TicketQueryEntry(tracker, identifier, options) = item;
        let using = match KeyOrSearch::from_identifier(identifier) {
            Ok(using) => using,
            Err(e) => {
                return Err(e);
            },
        };
        let references = match queries_from_entries(options.references) {
            Ok(references) => references,
            Err(e) => {
                return Err(e);
            },
        };
        let made = TicketQuery { using, tracker, overrides: options.overrides, references };
        assert(made@.references =~= query_views(references@));
        Ok(made)
    }
}

/// Which directory holds the data of a project.
#[derive(Clone, Copy, Debug, PartialEq, Eq, Structural)]
pub enum DataDir {
    /// The directory named after this program.
    Current,
    /// The directory named after the program's earlier name.
    Legacy,
}

/// Find the base data and configuration directory.
///
/// The directory named after the program is taken where it exists. Where only
/// the directory of the earlier name exists, that one is taken. Where neither
/// exists, there is none.
pub fn locate_data_dir(current_exists: bool, legacy_exists: bool) -> (found: Option<DataDir>)
    ensures
        current_exists ==> found == Some(DataDir::Current),
        !current_exists && legacy_exists ==> found == Some(DataDir::Legacy),
        !current_exists && !legacy_exists ==> found is None,
{
    if current_exists {
        Some(DataDir::Current)
    } else if legacy_exists {
        Some(DataDir::Legacy)
    } else {
        None
    }
}

impl Project {
    /// Set up a Project configuration from the parsed configuration files
    /// and the paths to the relevant project directories.
    pub fn new(
        base_dir: String,
        generated_dir: String,
        tickets: Vec<TicketQueryEntry>,
        trackers: tracker::Config,
        templates: Template,
    ) -> (project: Result<Project, IdentifierError>)
        ensures
            match project {
                Ok(made) => made.base_dir == base_dir && made.generated_dir == generated_dir
                    && made.trackers == trackers && made.templates == templates && entries_queries(
                    tickets@,
                    tickets@.len() as int,
                ) == Ok::<Seq<QueryView>, IdentifierError>(query_views(made.tickets@)),
                Err(e) => entries_queries(tickets@, tickets@.len() as int) == Err::<
                    Seq<QueryView>,
                    IdentifierError,
                >(e),
            },
    {
        match queries_from_entries(tickets) {
            Ok(tickets) => Ok(Project { base_dir, generated_dir, tickets, trackers, templates }),
            Err(e) => Err(e),
        }
    }
}

} // verus!
