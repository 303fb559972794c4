//! The alert dispatcher: per-topic threshold policy and actuator sequencing.
//!
//! Each delivered message is judged on its own. A reading on the alerting
//! side of its topic's threshold sounds the buzzer and then flashes the
//! topic's LED; any other reading, and any unknown topic, forces the outputs
//! off. The dispatcher computes command lists; the platform carries them out
//! in order.

use vstd::prelude::*;
use crate::mailbox::{slot_after_take, slot_taken, Mailbox, Slot};

verus! {

/// Topic of the kettle thermostat.
pub const TOPIC_KETTLE_THERMOSTAT: i32 = 1;

/// Topic of the sink thermostat.
pub const TOPIC_SINK_THERMOSTAT: i32 = 2;

/// The kettle alerts on readings above this value.
pub const KETTLE_ALERT_ABOVE: i32 = 50;

/// The sink alerts on readings below this value.
pub const SINK_ALERT_BELOW: i32 = 32;

/// How long the buzzer sounds in an alert, in milliseconds.
pub const BUZZER_PULSE_MS: u32 = 500;

/// How long an LED stays lit in an alert, in milliseconds.
pub const LED_PULSE_MS: u32 = 1000;

/// Pause between two polls of the mailbox, in milliseconds.
pub const POLL_INTERVAL_MS: u32 = 10;

/// A binary output of the node. All three are active-high.
#[derive(Clone, Copy, Debug, PartialEq, Eq, Structural)]
pub enum Actuator {
    /// The LED of the kettle thermostat.
    KettleLed,
    /// The LED of the sink thermostat.
    SinkLed,
    /// The buzzer.
    Buzzer,
}

/// One step for the platform to carry out.
#[derive(Clone, Copy, Debug, PartialEq, Eq, Structural)]
pub enum ActuatorCommand {
    /// Drive the output high.
    SetHigh(Actuator),
    /// Drive the output low.
    SetLow(Actuator),
    /// Block for this many milliseconds.
    Wait(u32),
}

/// The levels of the three outputs; `true` is high.
#[derive(Clone, Copy, Debug, PartialEq, Eq, Structural)]
pub struct OutputLevels {
    pub kettle_led: bool,
    pub sink_led: bool,
    pub buzzer: bool,
}

/// A pulse: high, hold, low.
pub open spec fn spec_pulse(output: Actuator, duration_ms: u32) -> Seq<ActuatorCommand> {
    seq![
        ActuatorCommand::SetHigh(output),
        ActuatorCommand::Wait(duration_ms),
        ActuatorCommand::SetLow(output),
    ]
}

/// An alert on `led`: the buzzer pulse first, the LED pulse after it.
pub open spec fn spec_alert(led: Actuator) -> Seq<ActuatorCommand> {
    spec_pulse(Actuator::Buzzer, BUZZER_PULSE_MS) + spec_pulse(led, LED_PULSE_MS)
}

/// The all-clear for `led`: the LED and the buzzer forced off.
pub open spec fn spec_clear(led: Actuator) -> Seq<ActuatorCommand> {
    seq![ActuatorCommand::SetLow(led), ActuatorCommand::SetLow(Actuator::Buzzer)]
}

/// Every output forced off.
pub open spec fn spec_all_off() -> Seq<ActuatorCommand> {
    seq![
        ActuatorCommand::SetLow(Actuator::KettleLed),
        ActuatorCommand::SetLow(Actuator::SinkLed),
        ActuatorCommand::SetLow(Actuator::Buzzer),
    ]
}

/// The LED that belongs to a topic, if the topic is known.
pub open spec fn topic_led(topic_id: i32) -> Option<Actuator> {
    if topic_id == TOPIC_KETTLE_THERMOSTAT {
        Some(Actuator::KettleLed)
    } else if topic_id == TOPIC_SINK_THERMOSTAT {
        Some(Actuator::SinkLed)
    } else {
        None
    }
}

/// Whether a message calls for an alert: a kettle reading above its
/// threshold, or a sink reading below its own.
pub open spec fn alerts(topic_id: i32, measurement: i32) -> bool {
    ||| topic_id == TOPIC_KETTLE_THERMOSTAT && measurement > KETTLE_ALERT_ABOVE
    ||| topic_id == TOPIC_SINK_THERMOSTAT && measurement < SINK_ALERT_BELOW
}

/// The commands that answer one delivered message.
pub open spec fn spec_dispatch(topic_id: i32, measurement: i32) -> Seq<ActuatorCommand> {
    match topic_led(topic_id) {
        Some(led) => if alerts(topic_id, measurement) {
            spec_alert(led)
        } else {
            spec_clear(led)
        },
        None => spec_all_off(),
    }
}

/// The commands of one turn of the polling loop: the answer to the pending
/// message, if there is one, and then the pause before the next poll.
pub open spec fn spec_poll(slot: Slot) -> Seq<ActuatorCommand> {
    match slot_taken(slot) {
        Some((topic_id, measurement)) => spec_dispatch(topic_id, measurement).push(
            ActuatorCommand::Wait(POLL_INTERVAL_MS),
        ),
        None => seq![ActuatorCommand::Wait(POLL_INTERVAL_MS)],
    }
}

/// The levels after one command.
pub open spec fn levels_after_command(levels: OutputLevels, command: ActuatorCommand)
    -> OutputLevels {
    match command {
        ActuatorCommand::SetHigh(output) => levels_with(levels, output, true),
        ActuatorCommand::SetLow(output) => levels_with(levels, output, false),
        ActuatorCommand::Wait(_) => levels,
    }
}

/// The levels with one output set to `high`.
pub open spec fn levels_with(levels: OutputLevels, output: Actuator, high: bool) -> OutputLevels {
    match output {
        Actuator::KettleLed => OutputLevels { kettle_led: high, ..levels },
        Actuator::SinkLed => OutputLevels { sink_led: high, ..levels },
        Actuator::Buzzer => OutputLevels { buzzer: high, ..levels },
    }
}

/// The level of one output.
pub open spec fn level_of(levels: OutputLevels, output: Actuator) -> bool {
    match output {
        Actuator::KettleLed => levels.kettle_led,
        Actuator::SinkLed => levels.sink_led,
        Actuator::Buzzer => levels.buzzer,
    }
}

/// The levels after a list of commands, carried out front to back.
pub open spec fn levels_after(levels: OutputLevels, commands: Seq<ActuatorCommand>) -> OutputLevels
    decreases commands.len(),
{
    if commands.len() == 0 {
        levels
    } else {
        levels_after_command(levels_after(levels, commands.drop_last()), commands.last())
    }
}

/// The time, in milliseconds, for which a list of commands blocks.
pub open spec fn blocking_ms(commands: Seq<ActuatorCommand>) -> nat
    decreases commands.len(),
{
    if commands.len() == 0 {
        0
    } else {
        blocking_ms(commands.drop_last()) + match commands.last() {
            ActuatorCommand::Wait(ms) => ms as nat,
            _ => 0,
        }
    }
}

/// Whether a list of commands ever drives an output high.
pub open spec fn raises_output(commands: Seq<ActuatorCommand>) -> bool {
    exists|i: int| 0 <= i < commands.len() && #[trigger] commands[i] is SetHigh
}

impl OutputLevels {
    /// The levels at boot: everything off.
    pub fn all_low() -> (levels: OutputLevels)
        ensures
            levels == (OutputLevels { kettle_led: false, sink_led: false, buzzer: false }),
    {
        OutputLevels { kettle_led: false, sink_led: false, buzzer: false }
    }

    /// Whether `output` is high.
    pub fn is_high(&self, output: Actuator) -> (high: bool)
        ensures
            high == level_of(*self, output),
    {
        match output {
            Actuator::KettleLed => self.kettle_led,
            Actuator::SinkLed => self.sink_led,
            Actuator::Buzzer => self.buzzer,
        }
    }

    /// Follows one command.
    pub fn apply(&mut self, command: ActuatorCommand)
        ensures
            *final(self) == levels_after_command(*old(self), command),
    {
        match command {
            ActuatorCommand::SetHigh(output) => self.set(output, true),
            ActuatorCommand::SetLow(output) => self.set(output, false),
            ActuatorCommand::Wait(_) => {},
        }
    }

    /// Follows a list of commands front to back.
    pub fn run(&mut self, commands: &[ActuatorCommand])
        ensures
            *final(self) == levels_after(*old(self), commands@),
    {
        let mut i: usize = 0;
        while i < commands.len()
            invariant
                i <= commands.len(),
                *self == levels_after(*old(self), commands@.take(i as int)),
            decreases commands.len() - i,
        {
            self.apply(commands[i]);
            proof {
                assert(commands@.take(i + 1).drop_last() =~= commands@.take(i as int));
            }
            i += 1;
        }
        proof {
            assert(commands@.take(i as int) =~= commands@);
        }
    }

    fn set(&mut self, output: Actuator, high: bool)
        ensures
            *final(self) == levels_with(*old(self), output, high),
    {
        match output {
            Actuator::KettleLed => self.kettle_led = high,
            Actuator::SinkLed => self.sink_led = high,
            Actuator::Buzzer => self.buzzer = high,
        }
    }
}

/// Plans a pulse on `output`: drive it high, hold for `duration_ms`, drive
/// it low.
pub fn pulse(output: Actuator, duration_ms: u32) -> (commands: Vec<ActuatorCommand>)
    ensures
        commands@ == spec_pulse(output, duration_ms),
{
    let mut commands: Vec<ActuatorCommand> = Vec::new();
    commands.push(ActuatorCommand::SetHigh(output));
    commands.push(ActuatorCommand::Wait(duration_ms));
    commands.push(ActuatorCommand::SetLow(output));
    assert(commands@ =~= spec_pulse(output, duration_ms));
    commands
}

/// Plans the reset of all outputs, as done at boot.
pub fn reset_outputs() -> (commands: Vec<ActuatorCommand>)
    ensures
        commands@ == spec_all_off(),
{
    let mut commands: Vec<ActuatorCommand> = Vec::new();
    commands.push(ActuatorCommand::SetLow(Actuator::KettleLed));
    commands.push(ActuatorCommand::SetLow(Actuator::SinkLed));
    commands.push(ActuatorCommand::SetLow(Actuator::Buzzer));
    assert(commands@ =~= spec_all_off());
    commands
}

/// Plans the answer to one delivered message.
///
/// * Kettle thermostat: a reading above [`KETTLE_ALERT_ABOVE`] pulses the
///   buzzer and then the kettle LED; any other reading forces both off.
/// * Sink thermostat: a reading below [`SINK_ALERT_BELOW`] pulses the buzzer
///   and then the sink LED; any other reading forces both off.
/// * Any other topic forces all three outputs off.
pub fn dispatch(topic_id: i32, measurement: i32) -> (commands: Vec<ActuatorCommand>)
    ensures
        commands@ == spec_dispatch(topic_id, measurement),
{
    if topic_id == TOPIC_KETTLE_THERMOSTAT {
        if measurement > KETTLE_ALERT_ABOVE {
            alert(Actuator::KettleLed)
        } else {
            clear(Actuator::KettleLed)
        }
    } else if topic_id == TOPIC_SINK_THERMOSTAT {
        if measurement < SINK_ALERT_BELOW {
            alert(Actuator::SinkLed)
        } else {
            clear(Actuator::SinkLed)
        }
    } else {
        reset_outputs()
    }
}

/// Plans one turn of the polling loop: takes the pending message, if any,
/// answers it, and ends with the pause before the next poll.
pub fn poll(mailbox: &mut Mailbox) -> (commands: Vec<ActuatorCommand>)
    ensures
        commands@ == spec_poll(old(mailbox)@),
        final(mailbox)@ == slot_after_take(old(mailbox)@),
{
    let mut commands: Vec<ActuatorCommand> = match mailbox.try_take() {
        Some((topic_id, measurement)) => dispatch(topic_id, measurement),
        None => Vec::new(),
    };
    commands.push(ActuatorCommand::Wait(POLL_INTERVAL_MS));
    assert(commands@ =~= spec_poll(old(mailbox)@));
    commands
}

fn alert(led: Actuator) -> (commands: Vec<ActuatorCommand>)
    ensures
        commands@ == spec_alert(led),
{
    let mut commands: Vec<ActuatorCommand> = pulse(Actuator::Buzzer, BUZZER_PULSE_MS);
    let mut flash: Vec<ActuatorCommand> = pulse(led, LED_PULSE_MS);
    commands.append(&mut flash);
    commands
}

fn clear(led: Actuator) -> (commands: Vec<ActuatorCommand>)
    ensures
        commands@ == spec_clear(led),
{
    let mut commands: Vec<ActuatorCommand> = Vec::new();
    commands.push(ActuatorCommand::SetLow(led));
    commands.push(ActuatorCommand::SetLow(Actuator::Buzzer));
    assert(commands@ =~= spec_clear(led));
    commands
}

/// Carrying out a list and then one more command is carrying out the
/// longer list.
proof fn lemma_levels_after_push(
    levels: OutputLevels,
    commands: Seq<ActuatorCommand>,
    command: ActuatorCommand,
)
    ensures
        levels_after(levels, commands.push(command)) == levels_after_command(
            levels_after(levels, commands),
            command,
        ),
{
    assert(commands.push(command).drop_last() =~= commands);
}

/// The levels after three commands.
proof fn lemma_levels_after_three(
    levels: OutputLevels,
    a: ActuatorCommand,
    b: ActuatorCommand,
    c: ActuatorCommand,
)
    ensures
        levels_after(levels, seq![a, b, c]) == levels_after_command(
            levels_after_command(levels_after_command(levels, a), b),
            c,
        ),
{
    let none: Seq<ActuatorCommand> = Seq::empty();
    lemma_levels_after_push(levels, none, a);
    lemma_levels_after_push(levels, none.push(a), b);
    lemma_levels_after_push(levels, none.push(a).push(b), c);
    assert(seq![a, b, c] =~= none.push(a).push(b).push(c));
}

/// Carrying out two lists one after the other is carrying out their
/// concatenation.
proof fn lemma_levels_after_concat(
    levels: OutputLevels,
    first: Seq<ActuatorCommand>,
    second: Seq<ActuatorCommand>,
)
    ensures
        levels_after(levels, first + second) == levels_after(levels_after(levels, first), second),
    decreases second.len(),
{
    if second.len() == 0 {
        assert(first + second =~= first);
    } else {
        lemma_levels_after_concat(levels, first, second.drop_last());
        assert((first + second).drop_last() =~= first + second.drop_last());
    }
}

/// A pulse leaves its output low and every other output as it was.
pub proof fn lemma_pulse_ends_low(levels: OutputLevels, output: Actuator, duration_ms: u32)
    ensures
        levels_after(levels, spec_pulse(output, duration_ms)) == levels_with(levels, output, false),
{
    lemma_levels_after_three(
        levels,
        ActuatorCommand::SetHigh(output),
        ActuatorCommand::Wait(duration_ms),
        ActuatorCommand::SetLow(output),
    );
}

/// An alert is exactly two pulses, the buzzer's before the LED's: the
/// buzzer is low again before the LED goes high.
pub proof fn lemma_alert_sequence(topic_id: i32, measurement: i32)
    requires
        alerts(topic_id, measurement),
    ensures
        topic_led(topic_id) is Some,
        spec_dispatch(topic_id, measurement) == seq![
            ActuatorCommand::SetHigh(Actuator::Buzzer),
            ActuatorCommand::Wait(BUZZER_PULSE_MS),
            ActuatorCommand::SetLow(Actuator::Buzzer),
            ActuatorCommand::SetHigh(topic_led(topic_id)->0),
            ActuatorCommand::Wait(LED_PULSE_MS),
            ActuatorCommand::SetLow(topic_led(topic_id)->0),
        ],
{
    let led = topic_led(topic_id)->0;
    assert(spec_alert(led) =~= seq![
        ActuatorCommand::SetHigh(Actuator::Buzzer),
        ActuatorCommand::Wait(BUZZER_PULSE_MS),
        ActuatorCommand::SetLow(Actuator::Buzzer),
        ActuatorCommand::SetHigh(led),
        ActuatorCommand::Wait(LED_PULSE_MS),
        ActuatorCommand::SetLow(led),
    ]);
}

/// An output is driven high if, and only if, the message calls for an
/// alert. Readings on the quiet side of a threshold and unknown topics
/// never raise anything.
pub proof fn lemma_raises_iff_alert(topic_id: i32, measurement: i32)
    ensures
        raises_output(spec_dispatch(topic_id, measurement)) <==> alerts(topic_id, measurement),
{
    let commands = spec_dispatch(topic_id, measurement);
    if alerts(topic_id, measurement) {
        assert(commands[0] is SetHigh);
    } else {
        assert forall|i: int| 0 <= i < commands.len() implies !(#[trigger] commands[i] is SetHigh) by {
            match topic_led(topic_id) {
                Some(led) => {
                    assert(commands == spec_clear(led));
                },
                None => {
                    assert(commands == spec_all_off());
                },
            }
        }
    }
}

/// Whatever the outputs were, the answer to a message of a known topic
/// leaves that topic's LED and the buzzer low and the other LED untouched.
pub proof fn lemma_known_topic_ends_low(levels: OutputLevels, topic_id: i32, measurement: i32)
    requires
        topic_led(topic_id) is Some,
    ensures
        levels_after(levels, spec_dispatch(topic_id, measurement)) == levels_with(
            levels_with(levels, topic_led(topic_id)->0, false),
            Actuator::Buzzer,
            false,
        ),
{
    let led = topic_led(topic_id)->0;
    if alerts(topic_id, measurement) {
        let buzz = spec_pulse(Actuator::Buzzer, BUZZER_PULSE_MS);
        let flash = spec_pulse(led, LED_PULSE_MS);
        lemma_levels_after_concat(levels, buzz, flash);
        lemma_pulse_ends_low(levels, Actuator::Buzzer, BUZZER_PULSE_MS);
        lemma_pulse_ends_low(levels_with(levels, Actuator::Buzzer, false), led, LED_PULSE_MS);
    } else {
        let none: Seq<ActuatorCommand> = Seq::empty();
        let first = ActuatorCommand::SetLow(led);
        let second = ActuatorCommand::SetLow(Actuator::Buzzer);
        lemma_levels_after_push(levels, none, first);
        lemma_levels_after_push(levels, none.push(first), second);
        assert(spec_clear(led) =~= none.push(first).push(second));
    }
}

/// A message of an unknown topic forces all three outputs off and raises
/// none, whatever it reports and whatever the outputs were.
pub proof fn lemma_unknown_topic_all_off(levels: OutputLevels, topic_id: i32, measurement: i32)
    requires
        topic_id != TOPIC_KETTLE_THERMOSTAT,
        topic_id != TOPIC_SINK_THERMOSTAT,
    ensures
        spec_dispatch(topic_id, measurement) == spec_all_off(),
        !raises_output(spec_dispatch(topic_id, measurement)),
        levels_after(levels, spec_dispatch(topic_id, measurement)) == (OutputLevels {
            kettle_led: false,
            sink_led: false,
            buzzer: false,
        }),
{
    lemma_raises_iff_alert(topic_id, measurement);
    lemma_levels_after_three(
        levels,
        ActuatorCommand::SetLow(Actuator::KettleLed),
        ActuatorCommand::SetLow(Actuator::SinkLed),
        ActuatorCommand::SetLow(Actuator::Buzzer),
    );
}

/// The blocking time of a list with one more command at its end.
proof fn lemma_blocking_push(commands: Seq<ActuatorCommand>, command: ActuatorCommand)
    ensures
        blocking_ms(commands.push(command)) == blocking_ms(commands) + match command {
            ActuatorCommand::Wait(ms) => ms as nat,
            _ => 0,
        },
{
    assert(commands.push(command).drop_last() =~= commands);
}

/// The blocking time of two lists, one after the other.
proof fn lemma_blocking_concat(first: Seq<ActuatorCommand>, second: Seq<ActuatorCommand>)
    ensures
        blocking_ms(first + second) == blocking_ms(first) + blocking_ms(second),
    decreases second.len(),
{
    if second.len() == 0 {
        assert(first + second =~= first);
    } else {
        lemma_blocking_concat(first, second.drop_last());
        assert((first + second).drop_last() =~= first + second.drop_last());
    }
}

/// A pulse blocks for exactly its duration.
pub proof fn lemma_pulse_blocks_for_duration(output: Actuator, duration_ms: u32)
    ensures
        blocking_ms(spec_pulse(output, duration_ms)) == duration_ms,
{
    let none: Seq<ActuatorCommand> = Seq::empty();
    let high = ActuatorCommand::SetHigh(output);
    let hold = ActuatorCommand::Wait(duration_ms);
    let low = ActuatorCommand::SetLow(output);
    lemma_blocking_push(none, high);
    lemma_blocking_push(none.push(high), hold);
    lemma_blocking_push(none.push(high).push(hold), low);
    assert(spec_pulse(output, duration_ms) =~= none.push(high).push(hold).push(low));
}

/// The dispatcher's delays are bounded and known in advance: an alert
/// blocks for the two pulse durations, any other answer does not block at
/// all, and a poll adds the poll interval.
pub proof fn lemma_blocking_time(slot: Slot, topic_id: i32, measurement: i32)
    ensures
        blocking_ms(spec_dispatch(topic_id, measurement)) == (if alerts(topic_id, measurement) {
            BUZZER_PULSE_MS + LED_PULSE_MS
        } else {
            0
        }),
        blocking_ms(spec_poll(slot)) == POLL_INTERVAL_MS + (match slot {
            Some((t, m)) => blocking_ms(spec_dispatch(t, m)),
            None => 0,
        }),
{
    let none: Seq<ActuatorCommand> = Seq::empty();
    let buzzer_low = ActuatorCommand::SetLow(Actuator::Buzzer);
    match topic_led(topic_id) {
        Some(led) => {
            if alerts(topic_id, measurement) {
                lemma_pulse_blocks_for_duration(Actuator::Buzzer, BUZZER_PULSE_MS);
                lemma_pulse_blocks_for_duration(led, LED_PULSE_MS);
                lemma_blocking_concat(
                    spec_pulse(Actuator::Buzzer, BUZZER_PULSE_MS),
                    spec_pulse(led, LED_PULSE_MS),
                );
            } else {
                let led_low = ActuatorCommand::SetLow(led);
                lemma_blocking_push(none, led_low);
                lemma_blocking_push(none.push(led_low), buzzer_low);
                assert(spec_clear(led) =~= none.push(led_low).push(buzzer_low));
            }
        },
        None => {
            let kettle_low = ActuatorCommand::SetLow(Actuator::KettleLed);
            let sink_low = ActuatorCommand::SetLow(Actuator::SinkLed);
            lemma_blocking_push(none, kettle_low);
            lemma_blocking_push(none.push(kettle_low), sink_low);
            lemma_blocking_push(none.push(kettle_low).push(sink_low), buzzer_low);
            assert(spec_all_off() =~= none.push(kettle_low).push(sink_low).push(buzzer_low));
        },
    }
    let pause = ActuatorCommand::Wait(POLL_INTERVAL_MS);
    match slot {
        Some((t, m)) => {
            lemma_blocking_push(spec_dispatch(t, m), pause);
        },
        None => {
            lemma_blocking_push(none, pause);
            assert(spec_poll(slot) =~= none.push(pause));
        },
    }
}

/// A message is answered at most once: the poll that answers it empties the
/// mailbox, and the next poll only pauses.
pub proof fn lemma_poll_answers_once(slot: Slot)
    ensures
        spec_poll(slot_after_take(slot)) == seq![ActuatorCommand::Wait(POLL_INTERVAL_MS)],
{
}

} // verus!
