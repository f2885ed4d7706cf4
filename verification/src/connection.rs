//! One viewer's connection: it joins the hub, an outbound pump relays the
//! hub's events to it, and an inbound pump watches for the end of the
//! connection. The caller moves the bytes; what each pump does next is
//! decided here.

use crate::hub::{Hub, HubView};
use crate::websocket::{event_envelope, event_json};
use vstd::prelude::*;

verus! {

/// What came in from the viewer.
#[derive(Clone, Copy, Debug, PartialEq, Eq, Structural)]
pub enum Inbound {
    /// The answer to a keep-alive.
    Pong,
    /// The viewer closes the connection.
    Close,
    /// Reading failed.
    Failed,
    /// Anything else; viewers send no data that matters.
    Other,
}

/// What a pump does next.
#[derive(Clone, Copy, Debug, PartialEq, Eq, Structural)]
pub enum Pump {
    Continue,
    Stop,
}

/// Whether the inbound pump ends on `signal`: on a close and on a failed
/// read, on nothing else.
pub open spec fn ends_inbound(signal: Inbound) -> bool {
    signal == Inbound::Close || signal == Inbound::Failed
}

/// What the inbound pump does after `signal`.
pub fn after_inbound(signal: Inbound) -> (next: Pump)
    ensures
        next == (if ends_inbound(signal) {
            Pump::Stop
        } else {
            Pump::Continue
        }),
{
    match signal {
        Inbound::Close => Pump::Stop,
        Inbound::Failed => Pump::Stop,
        Inbound::Pong => Pump::Continue,
        Inbound::Other => Pump::Continue,
    }
}

/// What the outbound pump does after a message was handed to the
/// connection: it goes on while sending succeeds.
pub fn after_send(sent: bool) -> (next: Pump)
    ensures
        next == (if sent {
            Pump::Continue
        } else {
            Pump::Stop
        }),
{
    if sent {
        Pump::Continue
    } else {
        Pump::Stop
    }
}

/// The next message for subscriber `id`: its oldest unread event in its JSON
/// envelope, taken out of its queue. `None`, and nothing changed, where
/// nothing is unread or `id` is not a live subscriber.
pub fn next_outbound(hub: &mut Hub, id: u64) -> (message: Option<String>)
    ensures
        final(hub)@ == old(hub)@.receive(id),
        final(hub)@.well_formed(),
        message is Some == old(hub)@.next_event(id) is Some,
        message is Some ==> message->0@ == event_envelope(old(hub)@.next_event(id)->0),
{
    match hub.receive(id) {
        Some(event) => Some(event_json(&event)),
        None => None,
    }
}

/// A viewer's disconnect touches that viewer's queue alone: every other
/// subscriber keeps its unread events.
pub proof fn lemma_disconnect_is_local(hub: HubView, gone: u64, other: u64)
    requires
        other != gone,
        hub.queues.contains_key(other),
    ensures
        hub.unsubscribe(gone).queues.contains_key(other),
        hub.unsubscribe(gone).queues[other] == hub.queues[other],
        !hub.unsubscribe(gone).queues.contains_key(gone),
{
}

/// Reading is local too: one subscriber taking its next event leaves every
/// other queue as it was.
pub proof fn lemma_receive_is_local(hub: HubView, reader: u64, other: u64)
    requires
        other != reader,
        hub.queues.contains_key(other),
    ensures
        hub.receive(reader).queues.contains_key(other),
        hub.receive(reader).queues[other] == hub.queues[other],
{
}

} // verus!
