//! What holds of the hub over whole runs of publishes.

use crate::hub::{keep_last, EventView, HubView};
use vstd::prelude::*;

verus! {

/// Fan-out: a publish reaches every subscriber that is live at that moment,
/// and no other. Each of them keeps its identifier and, where queues hold at
/// least one event, has the published event as its newest.
pub proof fn lemma_publish_reaches_all(hub: HubView, event: EventView)
    ensures
        hub.publish(event).queues.dom() == hub.queues.dom(),
        forall|id: u64| #[trigger]
            hub.queues.contains_key(id) && hub.capacity > 0 ==> hub.publish(
                event,
            ).queues[id].len() > 0 && hub.publish(event).queues[id].last() == event,
{
    assert(hub.publish(event).queues.dom() =~= hub.queues.dom());
}

/// No replay: a subscriber that joins after a publish starts with an empty
/// queue, and the queues of the others are as the publish left them.
pub proof fn lemma_no_replay(hub: HubView, event: EventView)
    requires
        hub.well_formed(),
    ensures
        !hub.publish(event).queues.contains_key(hub.next_id),
        hub.publish(event).subscribe().queues[hub.next_id] == Seq::<EventView>::empty(),
        forall|id: u64| #[trigger]
            hub.queues.contains_key(id) ==> hub.publish(event).subscribe().queues[id]
                == hub.publish(event).queues[id],
{
    if hub.queues.contains_key(hub.next_id) {
        assert(hub.next_id < hub.next_id);
    }
}

/// Trimming a queue before an event is appended, and again after, leaves what
/// one trim at the end leaves.
proof fn lemma_trim_once(queue: Seq<EventView>, event: EventView, capacity: nat)
    ensures
        keep_last(keep_last(queue, capacity).push(event), capacity) == keep_last(
            queue.push(event),
            capacity,
        ),
{
    assert(keep_last(keep_last(queue, capacity).push(event), capacity) =~= keep_last(
        queue.push(event),
        capacity,
    ));
}

/// Backpressure: a subscriber that never reads holds, after any run of
/// publishes, the newest events up to the capacity of its queue. Once the
/// run overfills the queue, the oldest events are gone: the subscriber sees a
/// gap, and the queue never grows past its capacity.
pub proof fn lemma_slow_subscriber_loses_oldest(hub: HubView, id: u64, events: Seq<EventView>)
    requires
        hub.well_formed(),
        hub.queues.contains_key(id),
    ensures
        hub.publish_all(events).queues.contains_key(id),
        hub.publish_all(events).queues[id] == keep_last(hub.queues[id] + events, hub.capacity),
        hub.publish_all(events).queues[id].len() <= hub.capacity,
        hub.publish_all(events).capacity == hub.capacity,
        hub.queues[id].len() + events.len() > hub.capacity ==> hub.publish_all(
            events,
        ).queues[id] == (hub.queues[id] + events).subrange(
            hub.queues[id].len() + events.len() - hub.capacity,
            (hub.queues[id].len() + events.len()) as int,
        ),
    decreases events.len(),
{
    let unread = hub.queues[id];
    if events.len() == 0 {
        assert(unread + events =~= unread);
    } else {
        let earlier = events.drop_last();
        lemma_slow_subscriber_loses_oldest(hub, id, earlier);
        lemma_trim_once(unread + earlier, events.last(), hub.capacity);
        assert((unread + earlier).push(events.last()) =~= unread + events);
    }
}

/// A publish changes neither the capacity nor the next identifier, and keeps
/// the hub well formed.
pub proof fn lemma_publish_keeps_well_formed(hub: HubView, event: EventView)
    requires
        hub.well_formed(),
    ensures
        hub.publish(event).well_formed(),
        hub.publish(event).capacity == hub.capacity,
        hub.publish(event).next_id == hub.next_id,
{
}

} // verus!
