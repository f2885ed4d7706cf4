//! The notification hub: every subscriber has a bounded queue of its own, a
//! publish puts the event in each of them, and a full queue loses its oldest
//! event to make room.

use std::collections::VecDeque;
use vstd::prelude::*;

verus! {

/// What an event announces.
#[derive(Clone, Copy, Debug, PartialEq, Eq, Structural)]
pub enum EventKind {
    /// The media slot has new content.
    Media,
    /// A video is ready to play.
    Video,
    /// A sound was uploaded.
    Song,
    /// A raw address to show as it is.
    RawUrl,
}

/// One notification: what happened, and where to fetch it.
#[derive(Clone, Debug)]
pub struct Event {
    pub kind: EventKind,
    pub url: String,
}

/// An event as a mathematical value.
pub struct EventView {
    pub kind: EventKind,
    pub url: Seq<char>,
}

impl View for Event {
    type V = EventView;

    open spec fn view(&self) -> EventView {
        EventView { kind: self.kind, url: self.url@ }
    }
}

impl Event {
    /// A copy of the event.
    pub fn duplicate(&self) -> (copy: Event)
        ensures
            copy@ == self@,
    {
        Event { kind: self.kind, url: self.url.clone() }
    }
}

/// The last `capacity` events of `queue`; all of it where it holds no more.
pub open spec fn keep_last(queue: Seq<EventView>, capacity: nat) -> Seq<EventView> {
    if queue.len() <= capacity {
        queue
    } else {
        queue.subrange(queue.len() - capacity, queue.len() as int)
    }
}

/// The hub as a mathematical value.
pub struct HubView {
    /// The most events that a queue holds.
    pub capacity: nat,
    /// The identifier that the next subscriber gets.
    pub next_id: u64,
    /// Each live subscriber's unread events, oldest first.
    pub queues: Map<u64, Seq<EventView>>,
}

impl HubView {
    /// A hub without subscribers.
    pub open spec fn empty(capacity: nat) -> HubView {
        HubView { capacity, next_id: 0, queues: Map::empty() }
    }

    /// Whether another subscriber can be given an identifier.
    pub open spec fn can_subscribe(self) -> bool {
        self.next_id < u64::MAX
    }

    /// The hub after a subscriber joined under `next_id`, with nothing to read.
    pub open spec fn subscribe(self) -> HubView {
        HubView {
            next_id: (self.next_id + 1) as u64,
            queues: self.queues.insert(self.next_id, Seq::empty()),
            ..self
        }
    }

    /// The hub after subscriber `id` left.
    pub open spec fn unsubscribe(self, id: u64) -> HubView {
        HubView { queues: self.queues.remove(id), ..self }
    }

    /// The hub after `event` was published: every live queue gets it at its
    /// end and, where that overfills the queue, loses from its front.
    pub open spec fn publish(self, event: EventView) -> HubView {
        HubView {
            queues: Map::new(
                |id: u64| self.queues.contains_key(id),
                |id: u64| keep_last(self.queues[id].push(event), self.capacity),
            ),
            ..self
        }
    }

    /// The hub after `events` were published one after the other.
    pub open spec fn publish_all(self, events: Seq<EventView>) -> HubView
        decreases events.len(),
    {
        if events.len() == 0 {
            self
        } else {
            self.publish_all(events.drop_last()).publish(events.last())
        }
    }

    /// Whether every subscriber was given its identifier before `next_id`, and
    /// no queue holds more than `capacity` events.
    pub open spec fn well_formed(self) -> bool {
        forall|id: u64| #[trigger]
            self.queues.contains_key(id) ==> id < self.next_id && self.queues[id].len()
                <= self.capacity
    }

    /// What subscriber `id` reads next: its oldest unread event.
    pub open spec fn next_event(self, id: u64) -> Option<EventView> {
        if self.queues.contains_key(id) && self.queues[id].len() > 0 {
            Some(self.queues[id][0])
        } else {
            None
        }
    }

    /// The hub after subscriber `id` read its next event.
    pub open spec fn receive(self, id: u64) -> HubView {
        if self.queues.contains_key(id) && self.queues[id].len() > 0 {
            HubView { queues: self.queues.insert(id, self.queues[id].drop_first()), ..self }
        } else {
            self
        }
    }
}

struct Subscription {
    id: u64,
    queue: VecDeque<Event>,
}

/// The broadcast hub.
pub struct Hub {
    capacity: usize,
    next_id: u64,
    subscribers: Vec<Subscription>,
}

spec fn events_view(queue: Seq<Event>) -> Seq<EventView> {
    queue.map_values(|event: Event| event@)
}

spec fn has_id(subs: Seq<Subscription>, id: u64) -> bool {
    exists|i: int| 0 <= i < subs.len() && (#[trigger] subs[i]).id == id
}

spec fn index_of(subs: Seq<Subscription>, id: u64) -> int {
    choose|i: int| 0 <= i < subs.len() && (#[trigger] subs[i]).id == id
}

spec fn queues_of(subs: Seq<Subscription>) -> Map<u64, Seq<EventView>> {
    Map::new(
        |id: u64| has_id(subs, id),
        |id: u64| events_view(subs[index_of(subs, id)].queue@),
    )
}

spec fn distinct_ids(subs: Seq<Subscription>) -> bool {
    forall|i: int, j: int|
        0 <= i < j < subs.len() ==> (#[trigger] subs[i]).id != (#[trigger] subs[j]).id
}

spec fn within(subs: Seq<Subscription>, capacity: usize, next_id: u64) -> bool {
    forall|i: int|
        0 <= i < subs.len() ==> (#[trigger] subs[i]).id < next_id && subs[i].queue@.len()
            <= capacity
}

proof fn lemma_queue_at(subs: Seq<Subscription>, i: int)
    requires
        distinct_ids(subs),
        0 <= i < subs.len(),
    ensures
        has_id(subs, subs[i].id),
        index_of(subs, subs[i].id) == i,
        queues_of(subs).contains_key(subs[i].id),
        queues_of(subs)[subs[i].id] == events_view(subs[i].queue@),
{
    let j = index_of(subs, subs[i].id);
    assert(subs[j].id == subs[i].id);
    if j < i {
        assert(subs[j].id != subs[i].id);
    }
    if i < j {
        assert(subs[i].id != subs[j].id);
    }
}

proof fn lemma_view_well_formed(subs: Seq<Subscription>, capacity: usize, next_id: u64)
    requires
        distinct_ids(subs),
        within(subs, capacity, next_id),
    ensures
        (HubView { capacity: capacity as nat, next_id, queues: queues_of(subs) }).well_formed(),
{
    let view = HubView { capacity: capacity as nat, next_id, queues: queues_of(subs) };
    assert forall|id: u64| #[trigger] view.queues.contains_key(id) implies id < view.next_id
        && view.queues[id].len() <= view.capacity by {
        let k = index_of(subs, id);
        lemma_queue_at(subs, k);
        assert(subs[k].id < next_id);
    }
}

impl View for Hub {
    type V = HubView;

    closed spec fn view(&self) -> HubView {
        HubView {
            capacity: self.capacity as nat,
            next_id: self.next_id,
            queues: queues_of(self.subscribers@),
        }
    }
}

impl Hub {
    #[verifier::type_invariant]
    spec fn well_formed(self) -> bool {
        distinct_ids(self.subscribers@) && within(
            self.subscribers@,
            self.capacity,
            self.next_id,
        )
    }

    /// A hub without subscribers, whose queues hold up to `capacity` events.
    pub fn new(capacity: usize) -> (hub: Hub)
        ensures
            hub@ == HubView::empty(capacity as nat),
            hub@.well_formed(),
    {
        let hub = Hub { capacity, next_id: 0, subscribers: Vec::new() };
        assert(hub@.queues =~= Map::<u64, Seq<EventView>>::empty());
        hub
    }

    /// Adds a subscriber with an empty queue and returns its identifier:
    /// events published before this call are not replayed to it. Returns
    /// `None`, and changes nothing, once the identifiers have run out.
    pub fn subscribe(&mut self) -> (id: Option<u64>)
        ensures
            old(self)@.can_subscribe() ==> id == Some(old(self)@.next_id) && final(self)@ == old(
                self,
            )@.subscribe(),
            !old(self)@.can_subscribe() ==> id is None && final(self)@ == old(self)@,
            id is Some ==> !old(self)@.queues.contains_key(id->0),
            final(self)@.well_formed(),
    {
        proof {
            use_type_invariant(&*self);
            lemma_view_well_formed(self.subscribers@, self.capacity, self.next_id);
        }
        if self.next_id == u64::MAX {
            return None;
        }
        let id: u64 = self.next_id;
        let ghost before = self.subscribers@;
        let mut subs: Vec<Subscription> = Vec::new();
        std::mem::swap(&mut self.subscribers, &mut subs);
        subs.push(Subscription { id, queue: VecDeque::new() });
        proof {
            let n = before.len() as int;
            assert(forall|k: int| 0 <= k < n ==> subs@[k] == before[k]);
            assert(!has_id(before, id)) by {
                if has_id(before, id) {
                    let k = index_of(before, id);
                    assert(before[k].id < id);
                }
            }
            assert forall|i: int, j: int| 0 <= i < j < subs.len() implies (#[trigger] subs@[i]).id
                != (#[trigger] subs@[j]).id by {
                if j < n {
                    assert(before[i].id != before[j].id);
                } else {
                    assert(before[i].id < id);
                }
            }
            assert forall|key: u64| #[trigger]
                queues_of(subs@).contains_key(key) <==> queues_of(before).insert(
                    id,
                    Seq::empty(),
                ).contains_key(key) by {
                if has_id(before, key) {
                    let k = index_of(before, key);
                    assert(subs@[k].id == key);
                }
                if has_id(subs@, key) {
                    let k = index_of(subs@, key);
                    if k < n {
                        assert(before[k].id == key);
                    }
                }
                if key == id {
                    assert(subs@[n].id == key);
                }
            }
            assert forall|key: u64| #[trigger]
                queues_of(subs@).contains_key(key) implies queues_of(subs@)[key] == queues_of(
                before,
            ).insert(id, Seq::empty())[key] by {
                let k = index_of(subs@, key);
                lemma_queue_at(subs@, k);
                if k < n {
                    lemma_queue_at(before, k);
                } else {
                    assert(events_view(subs@[k].queue@) =~= Seq::<EventView>::empty());
                }
            }
            assert(queues_of(subs@) =~= queues_of(before).insert(id, Seq::empty()));
        }
        self.next_id = id + 1;
        self.subscribers = subs;
        proof {
            use_type_invariant(&*self);
            lemma_view_well_formed(self.subscribers@, self.capacity, self.next_id);
        }
        Some(id)
    }

    /// Publishes `event` to every live subscriber. A queue that is full loses
    /// its oldest event; no subscriber holds the publisher up.
    pub fn publish(&mut self, event: &Event)
        ensures
            final(self)@ == old(self)@.publish(event@),
            final(self)@.well_formed(),
    {
        proof {
            use_type_invariant(&*self);
        }
        let ghost before = self.subscribers@;
        let capacity: usize = self.capacity;
        let mut subs: Vec<Subscription> = Vec::new();
        std::mem::swap(&mut self.subscribers, &mut subs);
        let mut i: usize = 0;
        while i < subs.len()
            invariant
                i <= subs.len(),
                subs.len() == before.len(),
                within(before, capacity, self.next_id),
                forall|k: int| 0 <= k < subs.len() ==> (#[trigger] subs@[k]).id == before[k].id,
                forall|k: int|
                    0 <= k < i ==> events_view((#[trigger] subs@[k]).queue@) == keep_last(
                        events_view(before[k].queue@).push(event@),
                        capacity as nat,
                    ),
                forall|k: int| i <= k < subs.len() ==> #[trigger] subs@[k] == before[k],
            decreases subs.len() - i,
        {
            let ghost earlier = subs@;
            let ghost unread = before[i as int].queue@;
            assert(subs@[i as int] == before[i as int]);
            assert(unread.len() <= capacity);
            let copy = event.duplicate();
            subs[i].queue.push_back(copy);
            if subs[i].queue.len() > capacity {
                subs[i].queue.pop_front();
            }
            proof {
                let grown = events_view(unread).push(event@);
                assert(events_view(unread.push(copy)) =~= grown);
                if unread.len() + 1 > capacity {
                    assert(events_view(unread.push(copy).subrange(1, unread.len() as int + 1))
                        =~= grown.subrange(1, grown.len() as int));
                    assert(keep_last(grown, capacity as nat) =~= grown.subrange(
                        1,
                        grown.len() as int,
                    ));
                }
                assert(events_view(subs@[i as int].queue@) =~= keep_last(grown, capacity as nat));
                assert(forall|k: int|
                    0 <= k < subs.len() && k != i ==> #[trigger] subs@[k] == earlier[k]);
            }
            i += 1;
        }
        proof {
            lemma_published(before, subs@, event@, capacity);
            assert forall|k: int| 0 <= k < subs.len() implies (#[trigger] subs@[k]).id
                < self.next_id && subs@[k].queue@.len() <= capacity by {
                assert(before[k].id < self.next_id);
                assert(events_view(subs@[k].queue@).len() == subs@[k].queue@.len());
            }
            assert forall|a: int, b: int| 0 <= a < b < subs.len() implies (#[trigger] subs@[a]).id
                != (#[trigger] subs@[b]).id by {
                assert(before[a].id != before[b].id);
            }
        }
        self.subscribers = subs;
        proof {
            lemma_view_well_formed(self.subscribers@, self.capacity, self.next_id);
        }
    }

    /// Takes subscriber `id`'s oldest unread event out of its queue. Returns
    /// `None`, and changes nothing, where the queue is empty or `id` is not a
    /// live subscriber.
    pub fn receive(&mut self, id: u64) -> (event: Option<Event>)
        ensures
            final(self)@ == old(self)@.receive(id),
            event is Some == old(self)@.next_event(id) is Some,
            event is Some ==> event->0@ == old(self)@.next_event(id)->0,
            final(self)@.well_formed(),
    {
        proof {
            use_type_invariant(&*self);
            lemma_view_well_formed(self.subscribers@, self.capacity, self.next_id);
        }
        let ghost before = self.subscribers@;
        let i: usize = position(&self.subscribers, id);
        if i == self.subscribers.len() {
            proof {
                if has_id(before, id) {
                    let k = index_of(before, id);
                    assert(before[k].id == id);
                }
            }
            return None;
        }
        proof {
            lemma_queue_at(before, i as int);
        }
        let mut subs: Vec<Subscription> = Vec::new();
        std::mem::swap(&mut self.subscribers, &mut subs);
        let event = subs[i].queue.pop_front();
        proof {
            let unread = before[i as int].queue@;
            assert(forall|k: int| 0 <= k < subs.len() && k != i ==> #[trigger] subs@[k] == before[k]);
            assert(subs@[i as int].id == id);
            assert forall|a: int, b: int| 0 <= a < b < subs.len() implies (#[trigger] subs@[a]).id
                != (#[trigger] subs@[b]).id by {
                assert(before[a].id != before[b].id);
            }
            assert forall|k: int| 0 <= k < subs.len() implies (#[trigger] subs@[k]).id
                < self.next_id && subs@[k].queue@.len() <= self.capacity by {
                assert(before[k].id < self.next_id);
            }
            if unread.len() > 0 {
                assert(events_view(unread.subrange(1, unread.len() as int)) =~= events_view(
                    unread,
                ).drop_first());
                lemma_replaced(before, subs@, i as int);
            } else {
                assert(subs@[i as int].queue@ =~= unread);
                lemma_same_queues(before, subs@);
            }
        }
        self.subscribers = subs;
        proof {
            lemma_view_well_formed(self.subscribers@, self.capacity, self.next_id);
        }
        event
    }

    /// Removes subscriber `id` and what it had not read. An `id` that is not
    /// live changes nothing.
    pub fn unsubscribe(&mut self, id: u64)
        ensures
            final(self)@ == old(self)@.unsubscribe(id),
            final(self)@.well_formed(),
    {
        proof {
            use_type_invariant(&*self);
            lemma_view_well_formed(self.subscribers@, self.capacity, self.next_id);
        }
        let ghost before = self.subscribers@;
        let i: usize = position(&self.subscribers, id);
        if i == self.subscribers.len() {
            proof {
                if has_id(before, id) {
                    let k = index_of(before, id);
                    assert(before[k].id == id);
                }
                assert(self@.queues =~= self@.queues.remove(id));
            }
            return ;
        }
        let mut subs: Vec<Subscription> = Vec::new();
        std::mem::swap(&mut self.subscribers, &mut subs);
        subs.remove(i);
        proof {
            let at = i as int;
            assert(forall|k: int| 0 <= k < at ==> #[trigger] subs@[k] == before[k]);
            assert(forall|k: int| at <= k < subs.len() ==> #[trigger] subs@[k] == before[k + 1]);
            assert forall|a: int, b: int| 0 <= a < b < subs.len() implies (#[trigger] subs@[a]).id
                != (#[trigger] subs@[b]).id by {
                let from_a = if a < at { a } else { a + 1 };
                let from_b = if b < at { b } else { b + 1 };
                assert(before[from_a].id != before[from_b].id);
            }
            assert forall|k: int| 0 <= k < subs.len() implies (#[trigger] subs@[k]).id
                < self.next_id && subs@[k].queue@.len() <= self.capacity by {
                let from = if k < at { k } else { k + 1 };
                assert(before[from].id < self.next_id);
            }
            assert forall|key: u64| #[trigger]
                queues_of(subs@).contains_key(key) <==> queues_of(before).remove(id).contains_key(
                    key,
                ) by {
                if has_id(subs@, key) {
                    let k = index_of(subs@, key);
                    let from = if k < at { k } else { k + 1 };
                    assert(before[from].id == key);
                    assert(before[from].id != before[at].id);
                }
                if has_id(before, key) && key != id {
                    let k = index_of(before, key);
                    let to = if k < at { k } else { k - 1 };
                    assert(subs@[to].id == key);
                }
            }
            assert forall|key: u64| #[trigger]
                queues_of(subs@).contains_key(key) implies queues_of(subs@)[key] == queues_of(
                before,
            ).remove(id)[key] by {
                let k = index_of(subs@, key);
                let from = if k < at { k } else { k + 1 };
                lemma_queue_at(subs@, k);
                lemma_queue_at(before, from);
            }
            assert(queues_of(subs@) =~= queues_of(before).remove(id));
        }
        self.subscribers = subs;
        proof {
            lemma_view_well_formed(self.subscribers@, self.capacity, self.next_id);
        }
    }
}

/// Where in `subs` the subscriber `id` stands; the length of `subs` where it
/// is not there.
fn position(subs: &Vec<Subscription>, id: u64) -> (at: usize)
    ensures
        at <= subs.len(),
        at < subs.len() ==> subs@[at as int].id == id,
        forall|k: int| 0 <= k < at ==> (#[trigger] subs@[k]).id != id,
{
    let mut i: usize = 0;
    while i < subs.len() && subs[i].id != id
        invariant
            i <= subs.len(),
            forall|k: int| 0 <= k < i ==> (#[trigger] subs@[k]).id != id,
        decreases subs.len() - i,
    {
        i += 1;
    }
    i
}

/// Two subscriber lists with the same identifiers in the same places hold the
/// same identifiers.
proof fn lemma_same_ids(before: Seq<Subscription>, after: Seq<Subscription>, key: u64)
    requires
        before.len() == after.len(),
        forall|k: int| 0 <= k < after.len() ==> (#[trigger] after[k]).id == before[k].id,
    ensures
        has_id(before, key) == has_id(after, key),
{
    if has_id(before, key) {
        let k = index_of(before, key);
        assert(after[k].id == key);
    }
    if has_id(after, key) {
        let k = index_of(after, key);
        assert(before[k].id == key);
    }
}

proof fn lemma_published(
    before: Seq<Subscription>,
    after: Seq<Subscription>,
    event: EventView,
    capacity: usize,
)
    requires
        distinct_ids(before),
        before.len() == after.len(),
        forall|k: int| 0 <= k < after.len() ==> (#[trigger] after[k]).id == before[k].id,
        forall|k: int|
            0 <= k < after.len() ==> events_view((#[trigger] after[k]).queue@) == keep_last(
                events_view(before[k].queue@).push(event),
                capacity as nat,
            ),
    ensures
        queues_of(after) == Map::new(
            |id: u64| queues_of(before).contains_key(id),
            |id: u64| keep_last(queues_of(before)[id].push(event), capacity as nat),
        ),
{
    let wanted = Map::new(
        |id: u64| queues_of(before).contains_key(id),
        |id: u64| keep_last(queues_of(before)[id].push(event), capacity as nat),
    );
    assert forall|a: int, b: int| 0 <= a < b < after.len() implies (#[trigger] after[a]).id != (
    #[trigger] after[b]).id by {
        assert(before[a].id != before[b].id);
    }
    assert forall|key: u64| #[trigger]
        queues_of(after).contains_key(key) <==> wanted.contains_key(key) by {
        lemma_same_ids(before, after, key);
    }
    assert forall|key: u64| #[trigger] queues_of(after).contains_key(key) implies queues_of(
        after,
    )[key] == wanted[key] by {
        let k = index_of(after, key);
        lemma_queue_at(after, k);
        lemma_queue_at(before, k);
    }
    assert(queues_of(after) =~= wanted);
}

proof fn lemma_same_queues(before: Seq<Subscription>, after: Seq<Subscription>)
    requires
        distinct_ids(before),
        before.len() == after.len(),
        forall|k: int| 0 <= k < after.len() ==> (#[trigger] after[k]).id == before[k].id,
        forall|k: int| 0 <= k < after.len() ==> (#[trigger] after[k]).queue@ == before[k].queue@,
    ensures
        queues_of(after) == queues_of(before),
{
    assert forall|a: int, b: int| 0 <= a < b < after.len() implies (#[trigger] after[a]).id != (
    #[trigger] after[b]).id by {
        assert(before[a].id != before[b].id);
    }
    assert forall|key: u64| #[trigger]
        queues_of(after).contains_key(key) <==> queues_of(before).contains_key(key) by {
        lemma_same_ids(before, after, key);
    }
    assert forall|key: u64| #[trigger] queues_of(after).contains_key(key) implies queues_of(
        after,
    )[key] == queues_of(before)[key] by {
        let k = index_of(after, key);
        lemma_queue_at(after, k);
        lemma_queue_at(before, k);
    }
    assert(queues_of(after) =~= queues_of(before));
}

/// Replacing one subscriber's queue replaces one entry of the map.
proof fn lemma_replaced(before: Seq<Subscription>, after: Seq<Subscription>, at: int)
    requires
        distinct_ids(before),
        before.len() == after.len(),
        0 <= at < before.len(),
        forall|k: int| 0 <= k < after.len() ==> (#[trigger] after[k]).id == before[k].id,
        forall|k: int|
            0 <= k < after.len() && k != at ==> (#[trigger] after[k]).queue@ == before[k].queue@,
    ensures
        queues_of(after) == queues_of(before).insert(
            before[at].id,
            events_view(after[at].queue@),
        ),
{
    let wanted = queues_of(before).insert(before[at].id, events_view(after[at].queue@));
    assert forall|a: int, b: int| 0 <= a < b < after.len() implies (#[trigger] after[a]).id != (
    #[trigger] after[b]).id by {
        assert(before[a].id != before[b].id);
    }
    lemma_queue_at(before, at);
    assert forall|key: u64| #[trigger]
        queues_of(after).contains_key(key) <==> wanted.contains_key(key) by {
        lemma_same_ids(before, after, key);
    }
    assert forall|key: u64| #[trigger] queues_of(after).contains_key(key) implies queues_of(
        after,
    )[key] == wanted[key] by {
        let k = index_of(after, key);
        lemma_queue_at(after, k);
        lemma_queue_at(before, k);
    }
    assert(queues_of(after) =~= wanted);
}

} // verus!
