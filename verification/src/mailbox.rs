//! The single-slot, last-value-wins handoff between the receive listener and
//! the alert dispatcher.
//!
//! The slot holds at most one pending message. A publish overwrites whatever
//! is there; a take hands the pending message out once and empties the slot.
//! No operation waits for the other side.

use vstd::prelude::*;

verus! {

/// What a mailbox holds as far as its consumer can tell: the pending
/// `(topic, measurement)` pair, or nothing.
pub type Slot = Option<(i32, i32)>;

/// The slot after a publish: the new pair, whatever was pending before.
pub open spec fn slot_after_publish(before: Slot, topic: i32, measurement: i32) -> Slot {
    Some((topic, measurement))
}

/// What a take delivers from a slot: its pending pair, if there is one.
pub open spec fn slot_taken(before: Slot) -> Slot {
    before
}

/// The slot after a take: always empty.
pub open spec fn slot_after_take(before: Slot) -> Slot {
    None
}

/// One producer, one consumer, one slot.
///
/// The payload fields are meaningful only while `ready` is set, which is why
/// the view of a mailbox shows them only then.
#[derive(Debug)]
pub struct Mailbox {
    pending_topic: i32,
    pending_measurement: i32,
    ready: bool,
}

impl View for Mailbox {
    type V = Slot;

    closed spec fn view(&self) -> Slot {
        if self.ready {
            Some((self.pending_topic, self.pending_measurement))
        } else {
            None
        }
    }
}

impl Mailbox {
    /// An empty mailbox, as it is at process start.
    pub fn new() -> (mailbox: Mailbox)
        ensures
            mailbox@ is None,
    {
        Mailbox { pending_topic: -1, pending_measurement: 0, ready: false }
    }

    /// Whether a message is waiting to be taken.
    pub fn is_ready(&self) -> (ready: bool)
        ensures
            ready == (self@ is Some),
    {
        self.ready
    }

    /// Stores a message, replacing any message that has not been taken yet.
    ///
    /// The payload is written before the doorbell is rung, so a consumer that
    /// sees the doorbell also sees the payload that belongs to it.
    pub fn publish(&mut self, topic: i32, measurement: i32)
        ensures
            final(self)@ == slot_after_publish(old(self)@, topic, measurement),
    {
        self.pending_topic = topic;
        self.pending_measurement = measurement;
        self.ready = true;
    }

    /// Hands out the pending message, if any, and empties the slot.
    pub fn try_take(&mut self) -> (taken: Option<(i32, i32)>)
        ensures
            taken == slot_taken(old(self)@),
            final(self)@ == slot_after_take(old(self)@),
    {
        if self.ready {
            let topic: i32 = self.pending_topic;
            let measurement: i32 = self.pending_measurement;
            self.ready = false;
            Some((topic, measurement))
        } else {
            None
        }
    }
}

/// Of two messages published back to back only the second is ever
/// delivered: the next take returns it, and the take after that returns
/// nothing.
pub proof fn lemma_last_publish_wins(
    before: Slot,
    topic1: i32,
    measurement1: i32,
    topic2: i32,
    measurement2: i32,
)
    ensures
        ({
            let slot = slot_after_publish(
                slot_after_publish(before, topic1, measurement1),
                topic2,
                measurement2,
            );
            &&& slot_taken(slot) == Some((topic2, measurement2))
            &&& slot_taken(slot_after_take(slot)) is None
        }),
{
}

/// Two takes in a row with no publish in between deliver the pending
/// message at most once: the second take always returns nothing.
pub proof fn lemma_take_drains(before: Slot)
    ensures
        slot_taken(before) == before,
        slot_taken(slot_after_take(before)) is None,
{
}

} // verus!
