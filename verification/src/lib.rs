//! Decision logic of a battery-powered telemetry receiver node.
//!
//! The node wakes from deep sleep on an external trigger, listens for
//! fixed-layout broadcast frames, compares each reported measurement with a
//! per-topic threshold, and drives two LEDs and a buzzer. This crate holds
//! the parts of that behaviour that can be stated and proved: the wire
//! format, the single-slot mailbox, the wake/sleep state machine and the
//! alert policy. Hardware access is left to the embedding program, which
//! feeds plain values in and carries out the command lists that come back.

pub mod dispatcher;
pub mod listener;
pub mod mailbox;
pub mod message;
pub mod wake;
