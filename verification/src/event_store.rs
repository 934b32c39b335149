//! The event store: an ordered collection of events that only grows at its end
//! or is emptied as a whole.

use vstd::prelude::*;
use crate::models::{OpenADREvent, OpenADREventView};

verus! {

/// The events that pollers see, oldest first.
pub struct EventStore {
    events: Vec<OpenADREvent>,
}

impl View for EventStore {
    type V = Seq<OpenADREventView>;

    closed spec fn view(&self) -> Seq<OpenADREventView> {
        self.events.deep_view()
    }
}

impl EventStore {
    /// The store after `event` was appended to `events`.
    pub open spec fn appended(events: Seq<OpenADREventView>, event: OpenADREventView) -> Seq<
        OpenADREventView,
    > {
        events.push(event)
    }

    /// The store after `events` was cleared.
    pub open spec fn cleared(events: Seq<OpenADREventView>) -> Seq<OpenADREventView> {
        Seq::empty()
    }

    /// What a snapshot of `events` holds.
    pub open spec fn snapshot_of(events: Seq<OpenADREventView>) -> Seq<OpenADREventView> {
        events
    }

    /// An empty store.
    pub fn new() -> (store: EventStore)
        ensures
            store@ == Seq::<OpenADREventView>::empty(),
    {
        let store = EventStore { events: Vec::new() };
        assert(store@ =~= Seq::<OpenADREventView>::empty());
        store
    }

    /// Adds `event` at the end.
    pub fn append(&mut self, event: OpenADREvent)
        ensures
            final(self)@ == Self::appended(old(self)@, event@),
    {
        self.events.push(event);
        assert(self@ =~= old(self)@.push(event@));
    }

    /// Removes every event.
    pub fn clear(&mut self)
        ensures
            final(self)@ == Self::cleared(old(self)@),
    {
        self.events.clear();
        assert(self@ =~= Seq::<OpenADREventView>::empty());
    }

    /// A copy of the events, oldest first.
    pub fn snapshot(&self) -> (events: Vec<OpenADREvent>)
        ensures
            events.deep_view() == Self::snapshot_of(self@),
    {
        self.events.clone()
    }

    /// The number of events.
    pub fn len(&self) -> (n: usize)
        ensures
            n == self@.len(),
    {
        self.events.len()
    }
}

/// Right after a clear, a snapshot is empty, whatever the store held.
pub proof fn lemma_snapshot_after_clear_is_empty(events: Seq<OpenADREventView>)
    ensures
        EventStore::snapshot_of(EventStore::cleared(events)).len() == 0,
{
}

/// A snapshot taken after an append ends with the appended event, and holds
/// what was there before in front of it.
pub proof fn lemma_snapshot_after_append(events: Seq<OpenADREventView>, event: OpenADREventView)
    ensures
        EventStore::snapshot_of(EventStore::appended(events, event)).len() == events.len() + 1,
        EventStore::snapshot_of(EventStore::appended(events, event)).last() == event,
        EventStore::snapshot_of(EventStore::appended(events, event)).drop_last() == events,
{
    assert(events.push(event).drop_last() =~= events);
}

} // verus!
