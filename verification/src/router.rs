//! The callback router: classify each activation record and, on a match,
//! publish a bridge event to the attached UI session.
//!
//! Routing is a fire-and-forget relay. A record that does not contain the
//! provider marker is dropped silently; a matching record produces exactly
//! one publish attempt, which fails (and is dropped, without retry) only
//! when no UI session is attached. The router performs no buffering, no
//! reordering and no deduplication.

use vstd::prelude::*;

use crate::classify::classify;
use crate::classify::is_provider_callback;
use crate::event::BridgeEvent;
use crate::event::EventModel;
use crate::event::event_model_of;

verus! {

/// The events a sequence of bridge events stands for.
pub open spec fn queue_of(events: Seq<BridgeEvent>) -> Seq<EventModel> {
    events.map_values(|e: BridgeEvent| e@)
}

/// The UI session handle, seen from the bridge: an event bus that accepts
/// bridge events in order. Publishing enqueues and returns; nothing here
/// waits on a consumer.
pub struct Session {
    pub events: Vec<BridgeEvent>,
}

impl Session {
    /// The events enqueued so far, oldest first.
    pub open spec fn queue(self) -> Seq<EventModel> {
        queue_of(self.events@)
    }

    /// A fresh session with an empty event queue.
    pub fn new() -> (session: Session)
        ensures
            session.queue() == Seq::<EventModel>::empty(),
    {
        let session = Session { events: Vec::new() };
        assert(session.queue() =~= Seq::<EventModel>::empty());
        session
    }

    /// Enqueue one event at the back of the queue.
    pub fn publish(&mut self, event: BridgeEvent)
        ensures
            final (self).queue() == old(self).queue().push(event@),
    {
        let ghost pre = self.events@;
        self.events.push(event);
        assert(queue_of(self.events@) =~= queue_of(pre).push(self.events@.last()@));
    }

    /// How many events have been enqueued.
    pub fn event_count(&self) -> (n: usize)
        ensures
            n == self.queue().len(),
    {
        self.events.len()
    }

    /// The event at position `i` in the queue, oldest first.
    pub fn event_at(&self, i: usize) -> (event: &BridgeEvent)
        requires
            i < self.queue().len(),
        ensures
            event@ == self.queue()[i as int],
    {
        &self.events[i]
    }
}

/// The character sequences a batch of activation records stands for.
pub open spec fn record_views(records: Seq<String>) -> Seq<Seq<char>> {
    records.map_values(|s: String| s@)
}

/// The events that routing `records` in delivery order hands to an attached
/// session: one event per matching record, none for the rest, in order.
pub open spec fn published_of(records: Seq<Seq<char>>) -> Seq<EventModel>
    decreases records.len(),
{
    if records.len() == 0 {
        Seq::<EventModel>::empty()
    } else if is_provider_callback(records.last()) {
        published_of(records.drop_last()).push(event_model_of(records.last()))
    } else {
        published_of(records.drop_last())
    }
}

/// The matching subset of a batch of records, in delivery order.
pub open spec fn matching_records(records: Seq<Seq<char>>) -> Seq<Seq<char>> {
    records.filter(|r: Seq<char>| is_provider_callback(r))
}

/// The bridge events for a batch of records, one per record, in order.
pub open spec fn events_for(records: Seq<Seq<char>>) -> Seq<EventModel> {
    records.map_values(|r: Seq<char>| event_model_of(r))
}

/// Routing preserves delivery order: the events published for a batch of
/// records are exactly the events for its matching subset, in the order the
/// records were delivered.
pub proof fn lemma_routing_order_preserving(records: Seq<Seq<char>>)
    ensures
        published_of(records) == events_for(matching_records(records)),
    decreases records.len(),
{
    reveal(Seq::filter);
    if records.len() == 0 {
        assert(matching_records(records) =~= Seq::<Seq<char>>::empty());
        assert(events_for(matching_records(records)) =~= Seq::<EventModel>::empty());
    } else {
        let prefix = records.drop_last();
        let last = records.last();
        lemma_routing_order_preserving(prefix);
        if is_provider_callback(last) {
            assert(matching_records(records) == matching_records(prefix).push(last));
            assert(events_for(matching_records(prefix).push(last)) =~= events_for(
                matching_records(prefix),
            ).push(event_model_of(last)));
        } else {
            assert(matching_records(records) == matching_records(prefix));
        }
    }
}

/// Routing one batch after another publishes the first batch's events, then
/// the second's: relative order across batches is kept as delivered.
pub proof fn lemma_published_of_concat(a: Seq<Seq<char>>, b: Seq<Seq<char>>)
    ensures
        published_of(a + b) == published_of(a) + published_of(b),
    decreases b.len(),
{
    if b.len() == 0 {
        assert(a + b =~= a);
        assert(published_of(b) =~= Seq::<EventModel>::empty());
        assert(published_of(a) + published_of(b) =~= published_of(a));
    } else {
        lemma_published_of_concat(a, b.drop_last());
        assert((a + b).drop_last() =~= a + b.drop_last());
        if is_provider_callback(b.last()) {
            assert((published_of(a) + published_of(b.drop_last())).push(
                event_model_of(b.last()),
            ) =~= published_of(a) + published_of(b.drop_last()).push(event_model_of(b.last())));
        }
    }
}

/// Routing is not deduplicating: the same matching record delivered twice
/// publishes two independent events, one per delivery.
pub proof fn lemma_route_no_dedup(r: Seq<char>)
    ensures
        is_provider_callback(r) ==> published_of(seq![r, r]) == seq![
            event_model_of(r),
            event_model_of(r),
        ],
        !is_provider_callback(r) ==> published_of(seq![r, r]) == Seq::<EventModel>::empty(),
{
    let pair = seq![r, r];
    let single = seq![r];
    assert(pair.drop_last() =~= single);
    assert(single.drop_last() =~= Seq::<Seq<char>>::empty());
    assert(published_of(Seq::<Seq<char>>::empty()) =~= Seq::<EventModel>::empty());
    if is_provider_callback(r) {
        assert(published_of(single) =~= seq![event_model_of(r)]);
        assert(published_of(pair) =~= seq![event_model_of(r), event_model_of(r)]);
    } else {
        assert(published_of(single) =~= Seq::<EventModel>::empty());
        assert(published_of(pair) =~= Seq::<EventModel>::empty());
    }
}

/// What one routing step did with its record.
#[derive(Clone, Copy, Debug, PartialEq, Eq, Structural)]
pub enum RouteOutcome {
    /// The record matched and a bridge event was handed to the session.
    Published,
    /// The record did not match; it was dropped silently. Not a failure.
    ClassificationMiss,
    /// The record matched but no session was attached; the event was
    /// dropped, the failure is the caller's to log, and routing goes on.
    PublishError,
}

/// The router: holds the session handle, once one is attached, and relays
/// matching activation records to it.
pub struct Router {
    pub session: Option<Session>,
}

impl Router {
    /// Is a UI session attached?
    pub open spec fn attached(self) -> bool {
        self.session is Some
    }

    /// Every event published through this router so far, in publish order.
    pub open spec fn published(self) -> Seq<EventModel> {
        match self.session {
            Option::Some(s) => s.queue(),
            Option::None => Seq::<EventModel>::empty(),
        }
    }

    /// A router with no session attached yet.
    pub fn new() -> (router: Router)
        ensures
            !router.attached(),
            router.published() == Seq::<EventModel>::empty(),
    {
        Router { session: Option::None }
    }

    /// Attach the UI session handle. Happens once, at setup, before any
    /// further events are published through this router.
    pub fn attach(&mut self, session: Session)
        requires
            !old(self).attached(),
        ensures
            final (self).attached(),
            final (self).published() == session.queue(),
    {
        self.session = Option::Some(session);
    }

    /// Route one activation record.
    ///
    /// A record containing the provider marker produces exactly one bridge
    /// event — the fixed event name with the record, unmodified, as payload
    /// — appended to the attached session's queue. A record without the
    /// marker publishes nothing. A matching record with no session attached
    /// publishes nothing and reports `PublishError`. Repeated records are
    /// not deduplicated: every call stands on its own.
    pub fn route(&mut self, record: &str) -> (outcome: RouteOutcome)
        ensures
            final (self).attached() == old(self).attached(),
            (outcome == RouteOutcome::ClassificationMiss) == !is_provider_callback(record@),
            (outcome == RouteOutcome::Published) == (is_provider_callback(record@) && old(
                self,
            ).attached()),
            (outcome == RouteOutcome::PublishError) == (is_provider_callback(record@) && !old(
                self,
            ).attached()),
            is_provider_callback(record@) && old(self).attached() ==> final (self).published()
                == old(self).published().push(event_model_of(record@)),
            !(is_provider_callback(record@) && old(self).attached()) ==> final (self).published()
                == old(self).published(),
    {
        let matching = classify(record);
        if !matching {
            return RouteOutcome::ClassificationMiss;
        }
        let taken = self.session.take();
        match taken {
            Option::Some(mut session) => {
                session.publish(BridgeEvent::for_record(record));
                self.session = Option::Some(session);
                RouteOutcome::Published
            },
            Option::None => {
                self.session = Option::None;
                RouteOutcome::PublishError
            },
        }
    }

    /// Route a batch of activation records, in delivery order, one at a
    /// time. With a session attached, this appends exactly the events of
    /// the matching subset, in order; with none, nothing is published.
    pub fn route_all(&mut self, records: &Vec<String>)
        ensures
            final (self).attached() == old(self).attached(),
            old(self).attached() ==> final (self).published() == old(self).published()
                + published_of(record_views(records@)),
            !old(self).attached() ==> final (self).published() == old(self).published(),
    {
        let ghost base = self.published();
        let ghost was_attached = self.attached();
        let ghost rv = record_views(records@);
        let mut idx: usize = 0;
        while idx < records.len()
            invariant
                idx <= records@.len(),
                rv == record_views(records@),
                rv.len() == records@.len(),
                self.attached() == was_attached,
                was_attached ==> self.published() == base + published_of(rv.take(idx as int)),
                !was_attached ==> self.published() == base,
            decreases records@.len() - idx,
        {
            let _outcome = self.route(records[idx].as_str());
            proof {
                let i = idx as int;
                assert(rv[i] == records@[i]@);
                assert(rv.take(i + 1).drop_last() =~= rv.take(i));
                if was_attached && is_provider_callback(rv[i]) {
                    assert((base + published_of(rv.take(i))).push(event_model_of(rv[i])) =~= base
                        + published_of(rv.take(i)).push(event_model_of(rv[i])));
                }
            }
            idx = idx + 1;
        }
        proof {
            assert(rv.take(records@.len() as int) =~= rv);
        }
    }
}

} // verus!
