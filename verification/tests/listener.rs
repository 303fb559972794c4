use hub_receiver::listener::ReceiveListener;
use hub_receiver::mailbox::Mailbox;
use hub_receiver::message::{encode, TelemetryMessage};
use hub_receiver::wake::{
    ActiveLevel, BootAction, PersistentWakeFlag, WakeCause, WakeSource, WakeStateController,
};

fn installed() -> ReceiveListener {
    ReceiveListener::install(BootAction::ResumeAndArm).expect("a resumed boot listens")
}

#[test]
fn listener_is_installed_only_on_resume() {
    assert!(ReceiveListener::install(BootAction::ResumeAndArm).is_some());
    assert!(ReceiveListener::install(BootAction::ColdBoot).is_none());
    assert!(ReceiveListener::install(BootAction::EnterSleep).is_none());
}

#[test]
fn cold_boot_never_gets_a_listener() {
    let line = WakeSource::new(4, ActiveLevel::High).expect("line 4 is addressable");
    for retained in [false, true] {
        let controller = WakeStateController::decide_boot_action(
            PersistentWakeFlag::restore(retained),
            line,
            WakeCause::Other,
        );
        assert!(ReceiveListener::install(controller.action()).is_none());
    }
}

#[test]
fn first_trigger_boot_gets_a_listener_and_second_does_not() {
    let line = WakeSource::new(4, ActiveLevel::High).expect("line 4 is addressable");
    let first = WakeStateController::decide_boot_action(
        PersistentWakeFlag::cold(),
        line,
        WakeCause::Trigger,
    );
    assert!(ReceiveListener::install(first.action()).is_some());
    let second = WakeStateController::decide_boot_action(first.flag(), line, WakeCause::Trigger);
    assert!(ReceiveListener::install(second.action()).is_none());
}

#[test]
fn well_sized_frame_is_published() {
    let listener = installed();
    let mut mailbox = Mailbox::new();
    let frame = [0x01, 0x00, 0x00, 0x00, 0x33, 0x00, 0x00, 0x00];
    let published = listener.on_frame(&mut mailbox, &frame);
    assert_eq!(published, Some(TelemetryMessage { topic_id: 1, measurement: 51 }));
    assert_eq!(mailbox.try_take(), Some((1, 51)));
}

#[test]
fn frame_of_wrong_length_is_dropped() {
    let listener = installed();
    let mut mailbox = Mailbox::new();
    let bytes = [0x55u8; 16];
    for len in [0usize, 1, 4, 7, 9, 16] {
        assert_eq!(listener.on_frame(&mut mailbox, &bytes[..len]), None);
        assert!(!mailbox.is_ready());
    }
    assert_eq!(mailbox.try_take(), None);
}

#[test]
fn dropped_frame_keeps_the_pending_message() {
    let listener = installed();
    let mut mailbox = Mailbox::new();
    mailbox.publish(2, 31);
    assert_eq!(listener.on_frame(&mut mailbox, &[1, 2, 3]), None);
    assert_eq!(mailbox.try_take(), Some((2, 31)));
}

#[test]
fn later_frame_replaces_the_pending_one() {
    let listener = installed();
    let mut mailbox = Mailbox::new();
    listener.on_frame(&mut mailbox, &encode(TelemetryMessage { topic_id: 1, measurement: 60 }));
    listener.on_frame(&mut mailbox, &encode(TelemetryMessage { topic_id: 2, measurement: -4 }));
    assert_eq!(mailbox.try_take(), Some((2, -4)));
    assert_eq!(mailbox.try_take(), None);
}
