//! Application state: the filter flag, the last fetched page, and the
//! decisions of the polling loop.
use crate::link::{index_of_text, link_target, open_link_target};
use crate::model::{displays, map_notifications, Notification, NotificationItem};
use crate::request::{describes, fetch_request, listing_query, notifications_url, Method, Request};
use vstd::prelude::*;

verus! {

/// Seconds between two polls of the feed.
pub const POLL_INTERVAL_SECS: u64 = 60;

/// Why a fetch failed.
#[derive(Clone, Copy, Debug, PartialEq, Eq, Structural)]
pub enum FetchError {
    /// The request did not complete (name resolution, connection, timeout).
    Transport,
    /// The server answered with a status outside the 2xx range.
    Status(u16),
    /// The body was not a list of notifications.
    Body,
}

/// A fetch that was started: its place in the order of starts, and the
/// include-all flag it was started with.
#[derive(Clone, Copy, Debug, PartialEq, Eq, Structural)]
pub struct FetchTicket {
    pub seq: u64,
    pub all: bool,
}

/// The include-all flag that an "unread only" toggle stands for.
pub open spec fn include_all_for(unread_only: bool) -> bool {
    !unread_only
}

/// The state the presentation layer reads from.
pub struct FeedState {
    /// Whether fetches ask for all notifications rather than unread ones.
    pub include_all: bool,
    /// The raw entries of the page last applied.
    pub items: Vec<NotificationItem>,
    /// The display list of that page.
    pub displayed: Vec<Notification>,
    /// The error of the last failed fetch that was newer than the page shown.
    pub last_error: Option<FetchError>,
    /// The sequence number of the last fetch started.
    pub issued: u64,
    /// The sequence number of the fetch whose outcome was applied last.
    pub applied: u64,
}

impl FeedState {
    /// The display list is the display form of the raw page, entry by entry,
    /// and no outcome applied is newer than the last fetch started.
    pub open spec fn wf(&self) -> bool {
        &&& self.displayed@.len() == self.items@.len()
        &&& forall|i: int|
            0 <= i < self.items@.len() ==> #[trigger] displays(self.items@[i], self.displayed@[i])
        &&& self.applied <= self.issued
    }

    /// An empty feed that shows unread notifications only.
    pub fn new() -> (r: FeedState)
        ensures
            r.wf(),
            r.include_all == false,
            r.items@.len() == 0,
            r.displayed@.len() == 0,
            r.last_error is None,
            r.issued == 0,
            r.applied == 0,
    {
        FeedState {
            include_all: false,
            items: Vec::new(),
            displayed: Vec::new(),
            last_error: None,
            issued: 0,
            applied: 0,
        }
    }

    /// Starts a fetch with the current flag; `None` once sequence numbers
    /// are exhausted.
    pub fn begin_fetch(&mut self) -> (r: Option<FetchTicket>)
        requires
            old(self).wf(),
        ensures
            final(self).wf(),
            r is None <==> old(self).issued == u64::MAX,
            r is None ==> *final(self) == *old(self),
            r matches Some(t) ==> {
                &&& t.seq == old(self).issued + 1
                &&& t.all == old(self).include_all
                &&& final(self).issued == t.seq
                &&& final(self).include_all == old(self).include_all
                &&& final(self).items == old(self).items
                &&& final(self).displayed == old(self).displayed
                &&& final(self).last_error == old(self).last_error
                &&& final(self).applied == old(self).applied
            },
    {
        if self.issued == u64::MAX {
            return None;
        }
        self.issued = self.issued + 1;
        Some(FetchTicket { seq: self.issued, all: self.include_all })
    }

    /// Takes the "unread only" toggle: stores its negation as the include-all
    /// flag and starts a fetch with it.
    pub fn apply_filter(&mut self, unread_only: bool) -> (r: Option<FetchTicket>)
        requires
            old(self).wf(),
        ensures
            final(self).wf(),
            final(self).include_all == include_all_for(unread_only),
            r is None <==> old(self).issued == u64::MAX,
            r matches Some(t) ==> t.all == include_all_for(unread_only)
                && t.seq == old(self).issued + 1 && final(self).issued == t.seq,
            r is None ==> final(self).issued == old(self).issued,
            final(self).items == old(self).items,
            final(self).displayed == old(self).displayed,
            final(self).last_error == old(self).last_error,
            final(self).applied == old(self).applied,
    {
        self.include_all = !unread_only;
        self.begin_fetch()
    }

    /// The request of a started fetch.
    pub fn request_for(ticket: FetchTicket, token: &str) -> (r: Request)
        ensures
            describes(r, Method::Get, notifications_url(), listing_query(ticket.all), token@),
    {
        fetch_request(token, ticket.all)
    }

    /// Applies the outcome of a fetch. An outcome older than the one applied
    /// last is dropped. A newer page replaces the raw page and the display
    /// list wholesale and clears the error; a newer failure keeps both lists
    /// and records the error. Returns whether the outcome was applied.
    pub fn finish_fetch(
        &mut self,
        ticket: FetchTicket,
        outcome: Result<Vec<NotificationItem>, FetchError>,
    ) -> (r: bool)
        requires
            old(self).wf(),
            ticket.seq <= old(self).issued,
        ensures
            final(self).wf(),
            r == (ticket.seq > old(self).applied),
            final(self).include_all == old(self).include_all,
            final(self).issued == old(self).issued,
            !r ==> *final(self) == *old(self),
            r ==> final(self).applied == ticket.seq,
            r && outcome is Ok ==> final(self).items@ == outcome->Ok_0@
                && final(self).last_error is None,
            r && outcome is Err ==> final(self).items == old(self).items
                && final(self).displayed == old(self).displayed
                && final(self).last_error == Some(outcome->Err_0),
    {
        if ticket.seq <= self.applied {
            return false;
        }
        self.applied = ticket.seq;
        match outcome {
            Ok(items) => {
                self.displayed = map_notifications(&items);
                self.items = items;
                self.last_error = None;
            },
            Err(e) => {
                self.last_error = Some(e);
            },
        }
        true
    }

    /// Where "open link" leads for the entry at the position that `index`
    /// spells in the page shown.
    pub fn link_at(&self, index: &str) -> (r: Option<String>)
        ensures
            r is Some <==> (index_of_text(index@) matches Some(k) && k < self.items@.len()),
            r matches Some(u) ==> u@ == link_target(
                self.items@[index_of_text(index@)->0 as int],
            ),
    {
        open_link_target(&self.items, index)
    }
}

/// Toggling the filter and fetching again asks for the negation of the
/// "unread only" toggle: `all=false` for unread only, `all=true` otherwise.
pub proof fn law_filter_query(unread_only: bool, s1: FeedState, t: FetchTicket)
    requires
        s1.include_all == include_all_for(unread_only),
        t.all == s1.include_all,
    ensures
        listing_query(t.all) == listing_query(!unread_only),
        unread_only ==> listing_query(t.all) == seq![("all"@, "false"@)],
        !unread_only ==> listing_query(t.all) == seq![("all"@, "true"@)],
{
}

/// Where the polling loop stands.
#[derive(Clone, Copy, Debug, PartialEq, Eq, Structural)]
pub enum PollPhase {
    Idle,
    Fetching,
}

/// What happened to the polling loop.
#[derive(Clone, Copy, Debug, PartialEq, Eq, Structural)]
pub enum PollEvent {
    Tick,
    FetchFinished,
}

/// What the polling loop does next.
#[derive(Clone, Copy, Debug, PartialEq, Eq, Structural)]
pub enum PollAction {
    Wait,
    StartFetch,
}

/// One step of the polling loop: a tick while idle starts a fetch; a tick
/// while a fetch is in flight is dropped, so fetches never overlap; the end
/// of a fetch, whatever its outcome, makes the loop idle.
pub fn poll_step(phase: PollPhase, event: PollEvent) -> (r: (PollPhase, PollAction))
    ensures
        r == match (phase, event) {
            (PollPhase::Idle, PollEvent::Tick) => (PollPhase::Fetching, PollAction::StartFetch),
            (PollPhase::Fetching, PollEvent::Tick) => (PollPhase::Fetching, PollAction::Wait),
            (_, PollEvent::FetchFinished) => (PollPhase::Idle, PollAction::Wait),
        },
{
    match event {
        PollEvent::Tick => match phase {
            PollPhase::Idle => (PollPhase::Fetching, PollAction::StartFetch),
            PollPhase::Fetching => (PollPhase::Fetching, PollAction::Wait),
        },
        PollEvent::FetchFinished => (PollPhase::Idle, PollAction::Wait),
    }
}

} // verus!
