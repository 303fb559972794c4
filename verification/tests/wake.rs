use hub_receiver::wake::{
    arm_wake_source, ActiveLevel, BootAction, PersistentWakeFlag, PowerCommand, PowerState,
    WakeCause, WakeSource, WakeStateController,
};

fn trigger_line() -> WakeSource {
    WakeSource::new(4, ActiveLevel::High).expect("line 4 is addressable")
}

/// The flag that a sleep plan leaves in retained memory.
fn flag_left_by(commands: &[PowerCommand]) -> PersistentWakeFlag {
    match commands.first() {
        Some(PowerCommand::RetainFlag { awake }) => PersistentWakeFlag::restore(*awake),
        other => panic!("a sleep plan starts with the flag, not with {:?}", other),
    }
}

#[test]
fn cold_flag_is_clear() {
    assert!(!PersistentWakeFlag::cold().is_set());
    assert!(PersistentWakeFlag::restore(true).is_set());
    assert!(!PersistentWakeFlag::restore(false).is_set());
    assert_eq!(PersistentWakeFlag::restore(false), PersistentWakeFlag::cold());
}

#[test]
fn first_trigger_resumes_and_sets_flag() {
    let controller = WakeStateController::decide_boot_action(
        PersistentWakeFlag::cold(),
        trigger_line(),
        WakeCause::Trigger,
    );
    assert_eq!(controller.action(), BootAction::ResumeAndArm);
    assert_eq!(controller.state(), PowerState::Armed);
    assert!(controller.flag().is_set());
}

#[test]
fn second_trigger_decides_to_sleep_and_keeps_flag_until_the_halt() {
    let controller = WakeStateController::decide_boot_action(
        PersistentWakeFlag::restore(true),
        trigger_line(),
        WakeCause::Trigger,
    );
    assert_eq!(controller.action(), BootAction::EnterSleep);
    assert_eq!(controller.state(), PowerState::Sleeping);
    assert!(controller.flag().is_set());
    let plan = controller.enter_sleep();
    assert!(!flag_left_by(&plan).is_set());
}

#[test]
fn trigger_works_as_two_phase_toggle() {
    let mut retained = PersistentWakeFlag::cold();
    let mut actions = Vec::new();
    for _ in 0..6 {
        let controller =
            WakeStateController::decide_boot_action(retained, trigger_line(), WakeCause::Trigger);
        let action = controller.action();
        actions.push(action);
        retained = if action == BootAction::EnterSleep {
            flag_left_by(&controller.enter_sleep())
        } else {
            controller.flag()
        };
        assert_eq!(retained.is_set(), action == BootAction::ResumeAndArm);
    }
    assert_eq!(
        actions,
        vec![
            BootAction::ResumeAndArm,
            BootAction::EnterSleep,
            BootAction::ResumeAndArm,
            BootAction::EnterSleep,
            BootAction::ResumeAndArm,
            BootAction::EnterSleep,
        ]
    );
}

#[test]
fn third_trigger_boot_behaves_like_the_first() {
    let first = WakeStateController::decide_boot_action(
        PersistentWakeFlag::cold(),
        trigger_line(),
        WakeCause::Trigger,
    );
    let first_action = first.action();
    let first_flag = first.flag();
    let second =
        WakeStateController::decide_boot_action(first_flag, trigger_line(), WakeCause::Trigger);
    assert_eq!(second.action(), BootAction::EnterSleep);
    let after_sleep = flag_left_by(&second.enter_sleep());
    let third =
        WakeStateController::decide_boot_action(after_sleep, trigger_line(), WakeCause::Trigger);
    assert_eq!(third.action(), first_action);
    assert_eq!(third.flag(), first_flag);
    assert_eq!(third.state(), PowerState::Armed);
}

#[test]
fn cold_boot_clears_flag_whatever_it_was() {
    for retained in [false, true] {
        let controller = WakeStateController::decide_boot_action(
            PersistentWakeFlag::restore(retained),
            trigger_line(),
            WakeCause::Other,
        );
        assert_eq!(controller.action(), BootAction::ColdBoot);
        assert_eq!(controller.state(), PowerState::Cold);
        assert!(!controller.flag().is_set());
    }
}

#[test]
fn cold_boot_between_triggers_restarts_the_toggle() {
    let awake = WakeStateController::decide_boot_action(
        PersistentWakeFlag::cold(),
        trigger_line(),
        WakeCause::Trigger,
    );
    let reset =
        WakeStateController::decide_boot_action(awake.flag(), trigger_line(), WakeCause::Other);
    assert!(!reset.flag().is_set());
    let again =
        WakeStateController::decide_boot_action(reset.flag(), trigger_line(), WakeCause::Trigger);
    assert_eq!(again.action(), BootAction::ResumeAndArm);
}

#[test]
fn controller_remembers_its_trigger_line() {
    let line = WakeSource::new(9, ActiveLevel::Low).expect("line 9 is addressable");
    let controller = WakeStateController::decide_boot_action(
        PersistentWakeFlag::cold(),
        line,
        WakeCause::Other,
    );
    assert_eq!(controller.trigger(), line);
    assert_eq!(controller.trigger().pin(), 9);
    assert_eq!(controller.trigger().level(), ActiveLevel::Low);
}

#[test]
fn sleep_plan_arms_the_trigger_and_halts_last() {
    let controller = WakeStateController::decide_boot_action(
        PersistentWakeFlag::restore(true),
        trigger_line(),
        WakeCause::Trigger,
    );
    let plan = controller.enter_sleep();
    assert_eq!(
        plan,
        vec![
            PowerCommand::RetainFlag { awake: false },
            PowerCommand::EnableGpioInterrupt { pin: 4, level: ActiveLevel::High },
            PowerCommand::EnableDeepSleepWake { pin_mask: 0x10, level: ActiveLevel::High },
            PowerCommand::DeepSleep,
        ]
    );
}

#[test]
fn sleep_entry_clears_flag_from_any_state() {
    for (retained, cause) in [
        (false, WakeCause::Other),
        (true, WakeCause::Other),
        (false, WakeCause::Trigger),
        (true, WakeCause::Trigger),
    ] {
        let controller = WakeStateController::decide_boot_action(
            PersistentWakeFlag::restore(retained),
            WakeSource::new(63, ActiveLevel::Low).expect("line 63 is addressable"),
            cause,
        );
        let plan = controller.enter_sleep();
        assert!(!flag_left_by(&plan).is_set());
        assert_eq!(plan.len(), 4);
        assert_eq!(plan[0], PowerCommand::RetainFlag { awake: false });
        assert_eq!(
            plan[1],
            PowerCommand::EnableGpioInterrupt { pin: 63, level: ActiveLevel::Low }
        );
        assert_eq!(
            plan[2],
            PowerCommand::EnableDeepSleepWake { pin_mask: 1u64 << 63, level: ActiveLevel::Low }
        );
        assert_eq!(plan[3], PowerCommand::DeepSleep);
    }
}

#[test]
fn runtime_trigger_sends_a_listening_node_to_sleep() {
    let mut controller = WakeStateController::decide_boot_action(
        PersistentWakeFlag::cold(),
        trigger_line(),
        WakeCause::Trigger,
    );
    assert_eq!(controller.state(), PowerState::Armed);
    assert!(controller.on_runtime_trigger());
    assert_eq!(controller.state(), PowerState::Sleeping);
    assert!(controller.flag().is_set());
    assert_eq!(controller.action(), BootAction::ResumeAndArm);
    assert!(controller.on_runtime_trigger());
    assert_eq!(controller.state(), PowerState::Sleeping);
    assert!(!flag_left_by(&controller.enter_sleep()).is_set());
}

#[test]
fn runtime_trigger_leaves_a_cold_node_running() {
    let mut controller = WakeStateController::decide_boot_action(
        PersistentWakeFlag::restore(true),
        trigger_line(),
        WakeCause::Other,
    );
    assert!(!controller.on_runtime_trigger());
    assert_eq!(controller.state(), PowerState::Cold);
    assert!(!controller.flag().is_set());
}

#[test]
fn wake_source_accepts_addressable_lines_only() {
    for pin in 0..=255u8 {
        let source = WakeSource::new(pin, ActiveLevel::High);
        assert_eq!(source.is_some(), pin < 64, "line {}", pin);
        if let Some(source) = source {
            assert_eq!(source.pin(), pin);
            assert_eq!(source.level(), ActiveLevel::High);
        }
    }
}

#[test]
fn arm_wake_source_selects_exactly_one_line() {
    assert_eq!(
        arm_wake_source(0, ActiveLevel::Low),
        Some(PowerCommand::EnableDeepSleepWake { pin_mask: 1, level: ActiveLevel::Low })
    );
    assert_eq!(
        arm_wake_source(4, ActiveLevel::High),
        Some(PowerCommand::EnableDeepSleepWake { pin_mask: 16, level: ActiveLevel::High })
    );
    assert_eq!(
        arm_wake_source(63, ActiveLevel::High),
        Some(PowerCommand::EnableDeepSleepWake {
            pin_mask: 0x8000_0000_0000_0000,
            level: ActiveLevel::High
        })
    );
}

#[test]
fn arm_wake_source_refuses_lines_beyond_the_mask() {
    assert_eq!(arm_wake_source(64, ActiveLevel::High), None);
    assert_eq!(arm_wake_source(255, ActiveLevel::Low), None);
}

#[test]
fn arming_twice_gives_the_same_configuration() {
    let once = arm_wake_source(4, ActiveLevel::High);
    let twice = arm_wake_source(4, ActiveLevel::High);
    assert_eq!(once, twice);
}
