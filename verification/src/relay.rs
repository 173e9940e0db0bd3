//! What the pipeline asks of a relay link, and what the link delivers.
//!
//! The link itself stays outside: it connects, registers filters, and yields
//! notifications. These types are the plain values that cross that border.

use crate::event::{Event, EventKind, EventView};
use vstd::prelude::*;

verus! {

/// Names one standing filter registration at the relays.
#[derive(Clone, Debug, PartialEq, Eq)]
pub struct SubscriptionHandle {
    pub id: String,
}

impl View for SubscriptionHandle {
    type V = Seq<char>;

    open spec fn view(&self) -> Seq<char> {
        self.id@
    }
}

impl DeepView for SubscriptionHandle {
    type V = Seq<char>;

    open spec fn deep_view(&self) -> Seq<char> {
        self@
    }
}

/// A query that relays answer with the events matching it.
///
/// An empty list of kinds or of authors does not restrict that property.
#[derive(Clone, Debug, PartialEq, Eq)]
pub struct Filter {
    pub kinds: Vec<EventKind>,
    pub authors: Vec<String>,
    /// The most events that a relay should send from what it has stored.
    pub limit: Option<usize>,
}

/// A [`Filter`] as mathematical values.
pub struct FilterView {
    pub kinds: Seq<EventKind>,
    pub authors: Seq<Seq<char>>,
    pub limit: Option<usize>,
}

impl View for Filter {
    type V = FilterView;

    open spec fn view(&self) -> FilterView {
        FilterView { kinds: self.kinds@, authors: self.authors.deep_view(), limit: self.limit }
    }
}

impl DeepView for Filter {
    type V = FilterView;

    open spec fn deep_view(&self) -> FilterView {
        self@
    }
}

/// The filter of the main subscription: posts and profile updates, of anyone.
pub open spec fn main_filter() -> FilterView {
    FilterView {
        kinds: seq![EventKind::TextNote, EventKind::ProfileMetadata],
        authors: Seq::empty(),
        limit: None,
    }
}

/// The filter of a resolver subscription: the one latest profile update of
/// `author`.
pub open spec fn resolver_filter(author: Seq<char>) -> FilterView {
    FilterView {
        kinds: seq![EventKind::ProfileMetadata],
        authors: seq![author],
        limit: Some(1usize),
    }
}

impl Filter {
    /// The filter that the pipeline keeps registered for as long as it runs.
    pub fn main() -> (filter: Filter)
        ensures
            filter@ == main_filter(),
    {
        let mut kinds: Vec<EventKind> = Vec::new();
        kinds.push(EventKind::TextNote);
        kinds.push(EventKind::ProfileMetadata);
        let authors: Vec<String> = Vec::new();
        let filter = Filter { kinds, authors, limit: None };
        assert(filter@.kinds =~= main_filter().kinds);
        assert(filter@.authors =~= main_filter().authors);
        filter
    }

    /// The narrow filter that asks for the profile of one author.
    pub fn for_author(author: &String) -> (filter: Filter)
        ensures
            filter@ == resolver_filter(author@),
    {
        let mut kinds: Vec<EventKind> = Vec::new();
        kinds.push(EventKind::ProfileMetadata);
        let mut authors: Vec<String> = Vec::new();
        authors.push(author.clone());
        let filter = Filter { kinds, authors, limit: Some(1) };
        assert(filter@.kinds =~= resolver_filter(author@).kinds);
        assert(filter@.authors =~= resolver_filter(author@).authors);
        filter
    }
}

/// The addresses of the relays that are used where the caller names none.
pub open spec fn default_relay_addresses() -> Seq<Seq<char>> {
    seq!["wss://relay.snort.social"@, "wss://relay.nostr.band"@]
}

/// The relays to connect to where the caller names none.
pub fn default_relays() -> (relays: Vec<String>)
    ensures
        relays.deep_view() == default_relay_addresses(),
{
    let mut relays: Vec<String> = Vec::new();
    relays.push(String::from_str("wss://relay.snort.social"));
    relays.push(String::from_str("wss://relay.nostr.band"));
    assert(relays.deep_view() =~= default_relay_addresses());
    relays
}

/// One item of a relay link's notification stream.
#[derive(Clone, Debug, PartialEq, Eq)]
pub enum Notification {
    /// An event that matches a registered filter.
    Event(Event),
    /// A relay message that is no event, in its raw form.
    Message(String),
    /// The link is shutting down.
    Shutdown,
    /// Anything else the link reports.
    Other,
}

/// A [`Notification`] as mathematical values.
pub enum NotificationView {
    Event(EventView),
    Message(Seq<char>),
    Shutdown,
    Other,
}

impl View for Notification {
    type V = NotificationView;

    open spec fn view(&self) -> NotificationView {
        match self {
            Notification::Event(event) => NotificationView::Event(event@),
            Notification::Message(raw) => NotificationView::Message(raw@),
            Notification::Shutdown => NotificationView::Shutdown,
            Notification::Other => NotificationView::Other,
        }
    }
}

impl DeepView for Notification {
    type V = NotificationView;

    open spec fn deep_view(&self) -> NotificationView {
        self@
    }
}

} // verus!
