//! The receive listener: turns an arriving frame into a mailbox update.
//!
//! The listener runs in the platform's receive context. It never waits and
//! never touches an actuator; all it does is decode and publish.

use vstd::prelude::*;
use crate::mailbox::{slot_after_publish, Mailbox, Slot};
use crate::message::{decode, spec_decode, TelemetryMessage, WIRE_SIZE};
use crate::wake::{boot_action, BootAction, WakeCause};

verus! {

/// The message that a frame delivers: its decoding if the frame has the
/// wire size, nothing otherwise.
pub open spec fn frame_message(raw: Seq<u8>) -> Option<TelemetryMessage> {
    if raw.len() == WIRE_SIZE {
        Some(spec_decode(raw))
    } else {
        None
    }
}

/// The slot after a frame has arrived: a well-sized frame is published, any
/// other frame leaves the slot alone.
pub open spec fn slot_after_frame(before: Slot, raw: Seq<u8>) -> Slot {
    match frame_message(raw) {
        Some(m) => slot_after_publish(before, m.topic_id, m.measurement),
        None => before,
    }
}

/// Whether a boot that took `action` runs the listener: only a boot that
/// resumed on the trigger does.
pub open spec fn listens(action: BootAction) -> bool {
    action == BootAction::ResumeAndArm
}

/// The installed listener. One can only be had from a boot that resumed
/// on the trigger, so frames are handled in such a boot and in no other.
#[derive(Debug)]
pub struct ReceiveListener {
    installed: (),
}

impl ReceiveListener {
    /// Installs the listener if, and only if, the boot decided to resume and
    /// listen. A cold boot and a boot on its way to sleep get none.
    pub fn install(action: BootAction) -> (listener: Option<ReceiveListener>)
        ensures
            listener is Some <==> listens(action),
    {
        match action {
            BootAction::ResumeAndArm => Some(ReceiveListener { installed: () }),
            BootAction::ColdBoot => None,
            BootAction::EnterSleep => None,
        }
    }

    /// Handles one received frame.
    ///
    /// A frame of the wire size is decoded and published, replacing any
    /// message still pending; the published message is returned. A frame of
    /// any other length is dropped without a trace.
    pub fn on_frame(&self, mailbox: &mut Mailbox, raw: &[u8]) -> (published: Option<
        TelemetryMessage,
    >)
        ensures
            published == frame_message(raw@),
            final(mailbox)@ == slot_after_frame(old(mailbox)@, raw@),
    {
        match decode(raw) {
            Some(message) => {
                mailbox.publish(message.topic_id, message.measurement);
                Some(message)
            },
            None => None,
        }
    }
}

/// A cold boot never runs the listener, whatever the retained flag was, and
/// neither does a boot that is on its way to sleep.
pub proof fn lemma_cold_boot_never_listens(flag: bool, cause: WakeCause)
    ensures
        boot_action(flag, cause) == BootAction::ColdBoot ==> !listens(boot_action(flag, cause)),
        cause != WakeCause::Trigger ==> !listens(boot_action(flag, cause)),
        listens(boot_action(flag, cause)) <==> (cause == WakeCause::Trigger && !flag),
{
}

} // verus!
