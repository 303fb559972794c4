//! The wake state controller: tells a cold boot from a wake-up, keeps the one
//! bit that survives deep sleep, and plans the way back into deep sleep.
//!
//! A single external trigger line works as a two-phase switch. The first
//! trigger after a cold boot wakes the node and makes it listen; the next one
//! sends it back to sleep. The bit that tells the two apart lives in memory
//! that deep sleep retains and a power cycle clears.

use vstd::prelude::*;

verus! {

/// Why the processor started.
#[derive(Clone, Copy, Debug, PartialEq, Eq, Structural)]
pub enum WakeCause {
    /// The designated external trigger line fired during deep sleep.
    Trigger,
    /// Anything else: power-on, reset button, another wake source.
    Other,
}

/// What a boot has to do, as decided from the wake cause and the wake flag.
#[derive(Clone, Copy, Debug, PartialEq, Eq, Structural)]
pub enum BootAction {
    /// Not woken by the trigger: run normally, without a receive listener.
    ColdBoot,
    /// First trigger: stay awake and start listening.
    ResumeAndArm,
    /// Second trigger: go back to deep sleep.
    EnterSleep,
}

/// Where a boot stands in the wake/sleep cycle.
#[derive(Clone, Copy, Debug, PartialEq, Eq, Structural)]
pub enum PowerState {
    /// Running after a boot that the trigger did not cause.
    Cold,
    /// Awake on the trigger's behalf: listener and dispatcher run.
    Armed,
    /// Committed to deep sleep; nothing else happens in this boot.
    Sleeping,
}

/// The electrical level at which the trigger line counts as active.
#[derive(Clone, Copy, Debug, PartialEq, Eq, Structural)]
pub enum ActiveLevel {
    Low,
    High,
}

/// One step of entering deep sleep, to be carried out by the platform.
#[derive(Clone, Copy, Debug, PartialEq, Eq, Structural)]
pub enum PowerCommand {
    /// Write the wake flag to retained memory.
    RetainFlag { awake: bool },
    /// Make the line an interrupt source at the given level.
    EnableGpioInterrupt { pin: u8, level: ActiveLevel },
    /// Make the lines in the mask deep-sleep wake sources at the given level.
    EnableDeepSleepWake { pin_mask: u64, level: ActiveLevel },
    /// Halt into deep sleep. Execution does not continue past this step.
    DeepSleep,
}

/// Number of GPIO lines that a wake mask can address.
pub const WAKE_MASK_BITS: u8 = 64;

/// The wake mask that selects exactly the line `pin`.
pub open spec fn pin_mask(pin: u8) -> u64
    recommends
        pin < WAKE_MASK_BITS,
{
    1u64 << pin
}

/// The action that a boot takes, given the retained flag and the wake cause.
pub open spec fn boot_action(flag: bool, cause: WakeCause) -> BootAction {
    match cause {
        WakeCause::Other => BootAction::ColdBoot,
        WakeCause::Trigger => if flag {
            BootAction::EnterSleep
        } else {
            BootAction::ResumeAndArm
        },
    }
}

/// The retained flag right after the boot decision. A decision to sleep
/// leaves the flag set; it is cleared only on the way into the halt.
pub open spec fn flag_after_decision(flag: bool, cause: WakeCause) -> bool {
    match cause {
        WakeCause::Other => false,
        WakeCause::Trigger => true,
    }
}

/// The retained flag after a sleep entry: clear, whatever it was.
pub open spec fn flag_after_sleep_entry(flag: bool) -> bool {
    false
}

/// The retained flag that the next boot will find: the flag after the
/// decision, followed by a sleep entry if that is what was decided.
pub open spec fn flag_after_boot(flag: bool, cause: WakeCause) -> bool {
    if boot_action(flag, cause) is EnterSleep {
        flag_after_sleep_entry(flag_after_decision(flag, cause))
    } else {
        flag_after_decision(flag, cause)
    }
}

/// The retained flag after `boots` trigger boots in a row.
pub open spec fn flag_after_trigger_boots(flag: bool, boots: nat) -> bool
    decreases boots,
{
    if boots == 0 {
        flag
    } else {
        flag_after_boot(flag_after_trigger_boots(flag, (boots - 1) as nat), WakeCause::Trigger)
    }
}

/// The state that a boot action leads to.
pub open spec fn state_after_decision(action: BootAction) -> PowerState {
    match action {
        BootAction::ColdBoot => PowerState::Cold,
        BootAction::ResumeAndArm => PowerState::Armed,
        BootAction::EnterSleep => PowerState::Sleeping,
    }
}

/// The state after the trigger fires while the node is running: a listening
/// node commits to sleep, any other state stays as it is.
pub open spec fn state_after_trigger(state: PowerState) -> PowerState {
    match state {
        PowerState::Armed => PowerState::Sleeping,
        PowerState::Cold => PowerState::Cold,
        PowerState::Sleeping => PowerState::Sleeping,
    }
}

/// The command that arms line `pin` as a deep-sleep wake source.
pub open spec fn arm_command(pin: u8, level: ActiveLevel) -> PowerCommand {
    PowerCommand::EnableDeepSleepWake { pin_mask: pin_mask(pin), level }
}

/// The steps of entering deep sleep with the given trigger line, for a
/// controller that holds `flag`: clear the retained flag, arm the line as
/// interrupt source, arm it as wake source, halt.
pub open spec fn sleep_commands(flag: bool, pin: u8, level: ActiveLevel) -> Seq<PowerCommand> {
    seq![
        PowerCommand::RetainFlag { awake: flag_after_sleep_entry(flag) },
        PowerCommand::EnableGpioInterrupt { pin, level },
        arm_command(pin, level),
        PowerCommand::DeepSleep,
    ]
}

/// The "awake" bit kept in memory that deep sleep retains.
///
/// Only the wake state controller changes it. The embedding program reads
/// the retained bit once at boot, hands it over with [`restore`], and writes
/// back whatever the controller reports afterwards.
///
/// [`restore`]: PersistentWakeFlag::restore
#[derive(Clone, Copy, Debug, PartialEq, Eq)]
pub struct PersistentWakeFlag {
    awake: bool,
}

impl View for PersistentWakeFlag {
    type V = bool;

    closed spec fn view(&self) -> bool {
        self.awake
    }
}

impl PersistentWakeFlag {
    /// The flag as a full power-on reset leaves it: clear.
    pub fn cold() -> (flag: PersistentWakeFlag)
        ensures
            !flag@,
    {
        PersistentWakeFlag { awake: false }
    }

    /// The flag as read back from retained memory.
    pub fn restore(retained: bool) -> (flag: PersistentWakeFlag)
        ensures
            flag@ == retained,
    {
        PersistentWakeFlag { awake: retained }
    }

    /// Whether the flag is set.
    pub fn is_set(&self) -> (set: bool)
        ensures
            set == self@,
    {
        self.awake
    }
}

/// The external trigger line: a GPIO number that a wake mask can address,
/// and the level at which the line is active.
#[derive(Clone, Copy, Debug, PartialEq, Eq)]
pub struct WakeSource {
    pin: u8,
    level: ActiveLevel,
}

impl View for WakeSource {
    type V = (u8, ActiveLevel);

    closed spec fn view(&self) -> (u8, ActiveLevel) {
        (self.pin, self.level)
    }
}

impl WakeSource {
    #[verifier::type_invariant]
    spec fn addressable(self) -> bool {
        self.pin < WAKE_MASK_BITS
    }

    /// Names line `pin`, active at `level`, as a trigger. Lines that no wake
    /// mask can address are refused.
    pub fn new(pin: u8, level: ActiveLevel) -> (source: Option<WakeSource>)
        ensures
            source is Some <==> pin < WAKE_MASK_BITS,
            source is Some ==> source->0@ == (pin, level),
    {
        if pin < WAKE_MASK_BITS {
            Some(WakeSource { pin, level })
        } else {
            None
        }
    }

    /// The GPIO number of the line.
    pub fn pin(&self) -> (pin: u8)
        ensures
            pin == self@.0,
            pin < WAKE_MASK_BITS,
    {
        proof {
            use_type_invariant(self);
        }
        self.pin
    }

    /// The level at which the line is active.
    pub fn level(&self) -> (level: ActiveLevel)
        ensures
            level == self@.1,
    {
        self.level
    }
}

/// Computes the command that arms line `pin` as a deep-sleep wake source,
/// active at `active_level`.
///
/// The command depends on the arguments alone, so arming the same line again
/// repeats the same configuration. The platform forgets the configuration
/// across a sleep transition, which is why every sleep entry arms anew.
/// Lines that no wake mask can address yield `None`.
pub fn arm_wake_source(pin: u8, active_level: ActiveLevel) -> (command: Option<PowerCommand>)
    ensures
        command is Some <==> pin < WAKE_MASK_BITS,
        command is Some ==> command->0 == arm_command(pin, active_level),
{
    if pin < WAKE_MASK_BITS {
        Some(PowerCommand::EnableDeepSleepWake { pin_mask: 1u64 << pin, level: active_level })
    } else {
        None
    }
}

/// What the wake state controller looks like from outside.
pub struct ControllerView {
    /// The retained flag as the controller currently holds it.
    pub flag: bool,
    /// The designated trigger line and its active level.
    pub trigger: (u8, ActiveLevel),
    /// The decision taken at boot.
    pub action: BootAction,
    /// Where the boot stands now.
    pub state: PowerState,
}

/// The single authority over the retained wake flag and over the decision
/// to sleep.
///
/// A controller comes into being with the boot decision and lives for one
/// boot. Entering sleep consumes it.
#[derive(Debug)]
pub struct WakeStateController {
    flag: PersistentWakeFlag,
    trigger: WakeSource,
    action: BootAction,
    state: PowerState,
}

impl View for WakeStateController {
    type V = ControllerView;

    closed spec fn view(&self) -> ControllerView {
        ControllerView {
            flag: self.flag@,
            trigger: self.trigger@,
            action: self.action,
            state: self.state,
        }
    }
}

impl WakeStateController {
    /// Takes the boot decision, once per boot and before anything else runs.
    ///
    /// `flag` is the retained flag as found at boot, `cause` the wake cause
    /// that the hardware reports, and `trigger` the designated trigger line.
    ///
    /// * A boot that the trigger did not cause is a cold boot: the flag is
    ///   cleared.
    /// * A trigger boot that finds the flag clear sets it and resumes.
    /// * A trigger boot that finds the flag set decides to sleep and leaves
    ///   the flag as it is; [`enter_sleep`] clears it on the way to the halt,
    ///   so a crash in between finds the flag still saying "about to sleep".
    ///
    /// The embedding program writes [`flag`] back to retained memory right
    /// after the decision.
    ///
    /// [`enter_sleep`]: WakeStateController::enter_sleep
    /// [`flag`]: WakeStateController::flag
    pub fn decide_boot_action(
        flag: PersistentWakeFlag,
        trigger: WakeSource,
        cause: WakeCause,
    ) -> (controller: WakeStateController)
        ensures
            controller@.action == boot_action(flag@, cause),
            controller@.flag == flag_after_decision(flag@, cause),
            controller@.state == state_after_decision(boot_action(flag@, cause)),
            controller@.trigger == trigger@,
    {
        match cause {
            WakeCause::Other => WakeStateController {
                flag: PersistentWakeFlag { awake: false },
                trigger,
                action: BootAction::ColdBoot,
                state: PowerState::Cold,
            },
            WakeCause::Trigger => {
                if flag.awake {
                    WakeStateController {
                        flag,
                        trigger,
                        action: BootAction::EnterSleep,
                        state: PowerState::Sleeping,
                    }
                } else {
                    WakeStateController {
                        flag: PersistentWakeFlag { awake: true },
                        trigger,
                        action: BootAction::ResumeAndArm,
                        state: PowerState::Armed,
                    }
                }
            },
        }
    }

    /// The decision taken at boot.
    pub fn action(&self) -> (action: BootAction)
        ensures
            action == self@.action,
    {
        self.action
    }

    /// Where the boot stands now.
    pub fn state(&self) -> (state: PowerState)
        ensures
            state == self@.state,
    {
        self.state
    }

    /// The retained flag as it has to stand in retained memory now.
    pub fn flag(&self) -> (flag: PersistentWakeFlag)
        ensures
            flag@ == self@.flag,
    {
        self.flag
    }

    /// The designated trigger line.
    pub fn trigger(&self) -> (trigger: WakeSource)
        ensures
            trigger@ == self@.trigger,
    {
        self.trigger
    }

    /// Records that the trigger fired while the node was running, and tells
    /// whether the node now has to enter sleep.
    ///
    /// Only a listening node reacts: it commits to sleep. The flag is not
    /// touched here.
    pub fn on_runtime_trigger(&mut self) -> (sleep: bool)
        ensures
            final(self)@.state == state_after_trigger(old(self)@.state),
            final(self)@.flag == old(self)@.flag,
            final(self)@.trigger == old(self)@.trigger,
            final(self)@.action == old(self)@.action,
            sleep == (final(self)@.state is Sleeping),
    {
        match self.state {
            PowerState::Armed => {
                self.state = PowerState::Sleeping;
                true
            },
            PowerState::Cold => false,
            PowerState::Sleeping => true,
        }
    }

    /// Plans the transition into deep sleep: clear the flag, arm the
    /// trigger line as interrupt source and as deep-sleep wake source, halt.
    /// The platform carries the steps out in this order; the last one does
    /// not return.
    ///
    /// The transition is terminal, so the controller is used up.
    pub fn enter_sleep(self) -> (commands: Vec<PowerCommand>)
        ensures
            commands@ == sleep_commands(self@.flag, self@.trigger.0, self@.trigger.1),
    {
        let pin: u8 = self.trigger.pin();
        let level: ActiveLevel = self.trigger.level();
        let mut commands: Vec<PowerCommand> = Vec::new();
        commands.push(PowerCommand::RetainFlag { awake: false });
        commands.push(PowerCommand::EnableGpioInterrupt { pin, level });
        commands.push(arm_wake_source(pin, level).unwrap());
        commands.push(PowerCommand::DeepSleep);
        assert(commands@ =~= sleep_commands(self@.flag, pin, level));
        commands
    }
}

/// The trigger works as a two-phase switch. A trigger boot that finds the
/// flag clear resumes and leaves it set; one that finds it set goes to sleep
/// and leaves it clear. So every trigger boot flips the flag, and every
/// second trigger boot starts from the same flag as the first.
pub proof fn lemma_trigger_toggles(flag: bool)
    ensures
        boot_action(false, WakeCause::Trigger) == BootAction::ResumeAndArm,
        flag_after_boot(false, WakeCause::Trigger) == true,
        boot_action(true, WakeCause::Trigger) == BootAction::EnterSleep,
        flag_after_boot(true, WakeCause::Trigger) == false,
        flag_after_boot(flag, WakeCause::Trigger) == !flag,
        flag_after_boot(flag_after_boot(flag, WakeCause::Trigger), WakeCause::Trigger) == flag,
{
}

/// Over any run of trigger boots the flag keeps alternating: an even number
/// of them leaves it as it was, an odd number leaves it flipped. So the node
/// resumes on the first, third, fifth trigger and sleeps on the ones between.
pub proof fn lemma_trigger_run_alternates(flag: bool, boots: nat)
    ensures
        flag_after_trigger_boots(flag, boots) == (if boots % 2 == 0 {
            flag
        } else {
            !flag
        }),
    decreases boots,
{
    if boots > 0 {
        lemma_trigger_run_alternates(flag, (boots - 1) as nat);
        lemma_trigger_toggles(flag_after_trigger_boots(flag, (boots - 1) as nat));
    }
}

/// A boot that the trigger did not cause is a cold boot and clears the
/// flag, whatever the flag was.
pub proof fn lemma_cold_boot_clears_flag(flag: bool, cause: WakeCause)
    requires
        cause != WakeCause::Trigger,
    ensures
        boot_action(flag, cause) == BootAction::ColdBoot,
        flag_after_decision(flag, cause) == false,
        flag_after_boot(flag, cause) == false,
{
}

/// A boot reaches the listening state only through the first trigger: the
/// flag was clear and the trigger caused the boot.
pub proof fn lemma_armed_only_by_first_trigger(flag: bool, cause: WakeCause)
    ensures
        state_after_decision(boot_action(flag, cause)) is Armed <==> (cause == WakeCause::Trigger
            && !flag),
{
}

} // verus!
