//! How the reports show a ticket's lists and names, and the most common
//! products and releases of a project.

use vstd::prelude::*;
use vstd::string::StringExecFns;

use crate::extra_fields::contact_shown;
use crate::tally::{is_most_common, most_common_texts};
use crate::text::{before_at, email_prefix, join, join_strings, texts};
use crate::ticket_abstraction::{ticket_views, AbstractTicket, TicketView};

verus! {

/// The items of a list with a comma and a space between each two, or the
/// placeholder where the list is empty.
pub open spec fn listed_or(list: Seq<Seq<char>>, placeholder: Seq<char>) -> Seq<char> {
    if list.len() == 0 {
        placeholder
    } else {
        join(list, ", "@)
    }
}

/// The flags of a ticket where it has flags, else its labels where it has
/// labels, as a list; or a placeholder where it has neither.
pub open spec fn flags_or_labels_of(ticket: TicketView) -> Seq<char> {
    match ticket.flags {
        Some(flags) => join(flags, ", "@),
        None => match ticket.labels {
            Some(labels) => join(labels, ", "@),
            None => "No flags or labels"@,
        },
    }
}

/// The assignee of a ticket as the reports show it: the part of the address
/// before the `@`, or a placeholder where the ticket has no assignee.
pub open spec fn assignee_shown(assignee: Seq<char>) -> Seq<char> {
    if assignee.len() == 0 {
        "No assignee"@
    } else {
        before_at(assignee)
    }
}

/// Writes a list with a comma and a space between each two items, or the
/// placeholder where the list is empty.
fn list_or(list: &[String], placeholder: &str) -> (shown: String)
    ensures
        shown@ == listed_or(texts(list@), placeholder@),
{
    if list.len() == 0 {
        placeholder.to_owned()
    } else {
        join_strings(list, ", ")
    }
}

impl AbstractTicket {
    /// The docs contact without the domain of the address.
    pub fn docs_contact_short(&self) -> (short: &str)
        ensures
            short@ == before_at(contact_shown(self@.docs_contact)),
    {
        email_prefix(self.docs_contact.as_str())
    }

    /// The assignee without the domain of the address.
    pub fn assignee_short(&self) -> (short: &str)
        ensures
            short@ == assignee_shown(self@.assignee),
    {
        if self.assignee.as_str().is_empty() {
            "No assignee"
        } else {
            email_prefix(self.assignee.as_str())
        }
    }

    /// The flags of the ticket, or its labels where it has no flags.
    pub fn flags_or_labels(&self) -> (shown: String)
        ensures
            shown@ == flags_or_labels_of(self@),
    {
        if let Some(flags) = &self.flags {
            join_strings(flags.as_slice(), ", ")
        } else if let Some(labels) = &self.labels {
            join_strings(labels.as_slice(), ", ")
        } else {
            String::from_str("No flags or labels")
        }
    }

    /// The target releases of the ticket as a list.
    pub fn display_target_releases(&self) -> (shown: String)
        ensures
            shown@ == listed_or(self@.target_releases, "No releases"@),
    {
        list_or(self.target_releases.as_slice(), "No releases")
    }

    /// The subsystems of the ticket as a list.
    pub fn display_subsystems(&self) -> (shown: String)
        ensures
            shown@ == listed_or(self@.subsystems, "No subsystems"@),
    {
        list_or(self.subsystems.as_slice(), "No subsystems")
    }

    /// The components of the ticket as a list.
    pub fn display_components(&self) -> (shown: String)
        ensures
            shown@ == listed_or(self@.components, "No components"@),
    {
        list_or(self.components.as_slice(), "No components")
    }
}

/// Display the list of releases or products as a string.
/// If the list is empty, provide a placeholder instead.
pub fn list_or_placeholder(list: &[String], name: &str) -> (shown: String)
    ensures
        shown@ == listed_or(texts(list@), "no "@ + name@),
{
    if list.len() == 0 {
        let mut shown = String::from_str("no ");
        shown.append(name);
        shown
    } else {
        join_strings(list, ", ")
    }
}

/// The products of the tickets, in the order of the tickets.
pub open spec fn products_of(tickets: Seq<TicketView>) -> Seq<Seq<char>> {
    tickets.map_values(|t: TicketView| t.product)
}

/// The target releases of the first `upto` tickets: those of the first
/// ticket, then those of the second, and so on.
pub open spec fn releases_of(tickets: Seq<TicketView>, upto: int) -> Seq<Seq<char>>
    decreases upto,
{
    if upto <= 0 || upto > tickets.len() {
        Seq::empty()
    } else {
        releases_of(tickets, upto - 1) + tickets[upto - 1].target_releases
    }
}

/// List the products set in the tickets, sorted from most common to least common.
/// Returns up to 3 most common products and ignores the rest. Of two products
/// that are equally common, the one that the tickets name first comes first.
pub fn combined_products(tickets: &[AbstractTicket]) -> (products: Vec<String>)
    ensures
        is_most_common(products_of(ticket_views(tickets@)), 3, texts(products@)),
{
    let mut all: Vec<String> = Vec::new();
    let mut i: usize = 0;
    while i < tickets.len()
        invariant
            i <= tickets.len(),
            all@.len() == i,
            forall|j: int| 0 <= j < i ==> (#[trigger] all@[j])@ == tickets@[j]@.product,
        decreases tickets.len() - i,
    {
        all.push(tickets[i].product.clone());
        i += 1;
    }
    assert(texts(all@) =~= products_of(ticket_views(tickets@)));
    most_common_texts(all.as_slice(), 3)
}

/// List the releases set in the tickets, sorted from most common to least common.
/// Returns up to 3 most common releases and ignores the rest. A ticket counts
/// for each of its releases. Of two releases that are equally common, the one
/// that the tickets name first comes first.
pub fn combined_releases(tickets: &[AbstractTicket]) -> (releases: Vec<String>)
    ensures
        is_most_common(
            releases_of(ticket_views(tickets@), tickets@.len() as int),
            3,
            texts(releases@),
        ),
{
    let ghost views = ticket_views(tickets@);
    let mut all: Vec<String> = Vec::new();
    let mut i: usize = 0;
    while i < tickets.len()
        invariant
            i <= tickets.len(),
            views == ticket_views(tickets@),
            texts(all@) == releases_of(views, i as int),
        decreases tickets.len() - i,
    {
        let ticket = &tickets[i];
        let ghost before = texts(all@);
        let mut r: usize = 0;
        while r < ticket.target_releases.len()
            invariant
                r <= ticket.target_releases.len(),
                texts(all@) == before + texts(ticket.target_releases@).take(r as int),
            decreases ticket.target_releases.len() - r,
        {
            let ghost so_far = texts(all@);
            all.push(ticket.target_releases[r].clone());
            assert(texts(all@) =~= so_far.push(ticket.target_releases@[r as int]@));
            r += 1;
        }
        i += 1;
    }
    most_common_texts(all.as_slice(), 3)
}

} // verus!
