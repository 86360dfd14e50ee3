//! The stateless and stateful signal combinators.
//!
//! Every combinator is a small state machine stepped once per simulation
//! tick; tick lengths are microseconds, continuous values millionths (see
//! [`crate::standard_elements::SCALE`]).

use vstd::prelude::*;

use crate::standard_elements::{
    approach_step, exponential_approach, Shared, APPROACH_LIMIT, SCALE,
};

verus! {

/// Longest tick the combinators accept, in microseconds.
pub const MAX_TICK: i64 = 10_000_000;

/// Longest duration (delays, intervals, timer loads) the combinators
/// accept, in microseconds.
pub const MAX_DURATION: i64 = 1_000_000_000_000;

/// Copy one cell into another whenever the source has committed since the
/// copier last looked: the pull-model form of an on-change forwarder.
pub fn add_copy<T: Copy>(seen: &mut u64, source: &Shared<T>, target: &mut Shared<T>)
    ensures
        *final(seen) == source.version,
        source.version != *old(seen) ==> final(target).value == source.value
            && final(target).version != old(target).version,
        source.version == *old(seen) ==> *final(target) == *old(target),
{
    if source.version != *seen {
        target.set(source.get());
        *seen = source.version();
    }
}

/// Forward the negation of a boolean cell whenever it has committed since
/// the inverter last looked.
pub fn add_inverter(seen: &mut u64, source: &Shared<bool>, target: &mut Shared<bool>)
    ensures
        *final(seen) == source.version,
        source.version != *old(seen) ==> final(target).value == !source.value
            && final(target).version != old(target).version,
        source.version == *old(seen) ==> *final(target) == *old(target),
{
    if source.version != *seen {
        target.set(!source.get());
        *seen = source.version();
    }
}

/// Recompute `f` of the source into the target whenever the source has
/// committed since the converter last looked; callers run it once at wiring
/// time for the initial evaluation.
pub fn add_converter<I: Copy, O, F: Fn(I) -> O>(
    seen: &mut u64,
    source: &Shared<I>,
    f: &F,
    target: &mut Shared<O>,
)
    requires
        forall|v: I| #[trigger] call_requires(*f, (v,)),
    ensures
        *final(seen) == source.version,
        source.version != *old(seen) ==> call_ensures(*f, (source.value,),
            final(target).value) && final(target).version != old(target).version,
        source.version == *old(seen) ==> *final(target) == *old(target),
{
    if source.version != *seen {
        let v = f(source.get());
        target.set(v);
        *seen = source.version();
    }
}

/// Conjunction over a list of boolean signals; an empty list is vacuously
/// true.
pub open spec fn all_set(values: Seq<bool>) -> bool {
    forall|i: int| 0 <= i < values.len() ==> values[i]
}

/// Disjunction over a list of boolean signals; an empty list is false.
pub open spec fn any_set(values: Seq<bool>) -> bool {
    exists|i: int| 0 <= i < values.len() && values[i]
}

/// Over no inputs at all, the AND of the gates is vacuously true and the OR
/// is false.
pub proof fn lemma_empty_gate(values: Seq<bool>)
    requires
        values.len() == 0,
    ensures
        all_set(values),
        !any_set(values),
{
}

/// The conjunction of the inputs, true over an empty list.
pub fn and_all(inputs: &Vec<bool>) -> (r: bool)
    ensures
        r == all_set(inputs@),
{
    let n: usize = inputs.len();
    let mut i: usize = 0;
    while i < n
        invariant
            0 <= i <= n,
            n == inputs.len(),
            forall|j: int| 0 <= j < i ==> inputs@[j],
        decreases n - i,
    {
        if !inputs[i] {
            return false;
        }
        i = i + 1;
    }
    true
}

/// The disjunction of the inputs, false over an empty list.
pub fn or_all(inputs: &Vec<bool>) -> (r: bool)
    ensures
        r == any_set(inputs@),
{
    let n: usize = inputs.len();
    let mut i: usize = 0;
    while i < n
        invariant
            0 <= i <= n,
            n == inputs.len(),
            forall|j: int| 0 <= j < i ==> !inputs@[j],
        decreases n - i,
    {
        if inputs[i] {
            return true;
        }
        i = i + 1;
    }
    false
}

/// One tick of an AND gate: recompute the conjunction of the inputs and
/// commit it only if it changed, so downstream observers see one commit per
/// edge and at most one tick of staleness.
pub fn add_and(inputs: &Vec<bool>, output: &mut Shared<bool>)
    ensures
        final(output).value == all_set(inputs@),
        all_set(inputs@) == old(output).value ==> *final(output) == *old(output),
{
    let v = and_all(inputs);
    output.set_only_on_change(v);
}

/// One tick of an OR gate: recompute the disjunction of the inputs and
/// commit it only if it changed.
pub fn add_or(inputs: &Vec<bool>, output: &mut Shared<bool>)
    ensures
        final(output).value == any_set(inputs@),
        any_set(inputs@) == old(output).value ==> *final(output) == *old(output),
{
    let v = or_all(inputs);
    output.set_only_on_change(v);
}

/// Configuration of a first-order-lag cell; the host adapter turns the
/// continuous exponent and the tick length into the per-tick blend factor.
pub struct ExponentialApproachProperties {
    /// Lag exponent, millionths per second; always positive.
    pub exponent: i64,
}

/// One tick of a first-order-lag cell: the state moves toward the target by
/// the blend `factor / SCALE` of the remaining distance and the move is
/// committed unconditionally, as the lag is re-evaluated every tick.
pub fn add_exponential_approach(state: &mut Shared<i64>, factor: i64, target: i64)
    requires
        0 <= factor <= SCALE,
        -APPROACH_LIMIT <= old(state).value <= APPROACH_LIMIT,
        -APPROACH_LIMIT <= target <= APPROACH_LIMIT,
    ensures
        final(state).value == approach_step(old(state).value as int, factor as int,
            target as int),
        final(state).version != old(state).version,
{
    let v = exponential_approach(state.get(), factor, target);
    state.set(v);
}

/// Configuration of a delay relay: the debounce delays for each direction,
/// in microseconds.
pub struct DelayRelayProperties {
    /// Delay before a rising input reaches the output.
    pub on_delay: i64,
    /// Delay before a falling input reaches the output.
    pub off_delay: i64,
}

impl DelayRelayProperties {
    /// Delays are non-negative and within the accepted range.
    pub open spec fn wf(&self) -> bool {
        &&& 0 <= self.on_delay <= MAX_DURATION
        &&& 0 <= self.off_delay <= MAX_DURATION
    }
}

/// A delay relay: a debounced boolean propagator.  A flip of the driving
/// input restarts the countdown with the flipped value as the pending
/// target; only the value still pending at expiry is ever committed, so
/// flips that reverse within the delay never reach the output.
pub struct DelayRelay {
    /// Last committed output value.
    pub output: bool,
    /// Input value seen on the previous tick.
    pub last_input: bool,
    /// Whether a flip is pending.
    pub waiting: bool,
    /// Time left until the pending flip is committed, microseconds.
    pub remaining: i64,
}

/// The relay state one tick later: a flip of the input restarts the
/// countdown with the delay of the new direction; while a flip is pending
/// the countdown runs down, and at expiry the pending value is committed.
pub open spec fn delay_relay_after(s: DelayRelay, prop: DelayRelayProperties, input: bool,
    dt: int) -> DelayRelay {
    let flipped = input != s.last_input;
    let rem0 = if flipped {
        if input { prop.on_delay as int } else { prop.off_delay as int }
    } else {
        s.remaining as int
    };
    let pending0 = flipped || s.waiting;
    DelayRelay {
        output: if pending0 && rem0 <= dt { input } else { s.output },
        last_input: input,
        waiting: pending0 && rem0 > dt,
        remaining: if pending0 {
            if rem0 > dt { (rem0 - dt) as i64 } else { 0i64 }
        } else {
            s.remaining
        },
    }
}

impl DelayRelay {
    /// The countdown is within the accepted range.
    pub open spec fn wf(&self) -> bool {
        0 <= self.remaining <= MAX_DURATION
    }

    /// A relay at rest on `initial`: output and input agree and nothing is
    /// pending.
    pub fn new(initial: bool) -> (s: Self)
        ensures
            s.wf(),
            s.output == initial,
            s.last_input == initial,
            !s.waiting,
            s.remaining == 0,
    {
        DelayRelay { output: initial, last_input: initial, waiting: false, remaining: 0 }
    }

    /// One tick: a flip of the input restarts the countdown with the delay
    /// of the new direction; while a flip is pending the countdown runs
    /// down, and at expiry the pending value is committed to the output.
    pub fn tick(&mut self, prop: &DelayRelayProperties, input: bool, dt: i64) -> (changed: bool)
        requires
            old(self).wf(),
            prop.wf(),
            0 <= dt <= MAX_TICK,
        ensures
            final(self).wf(),
            *final(self) == delay_relay_after(*old(self), *prop, input, dt as int),
            changed == (final(self).output != old(self).output),
    {
        let old_output = self.output;
        if input != self.last_input {
            self.last_input = input;
            self.waiting = true;
            self.remaining = if input { prop.on_delay } else { prop.off_delay };
        }
        if self.waiting {
            if self.remaining > dt {
                self.remaining = self.remaining - dt;
            } else {
                self.remaining = 0;
                self.waiting = false;
                self.output = self.last_input;
            }
        }
        self.output != old_output
    }
}

/// While the driving input stands still and the pending countdown has not
/// yet expired, a tick changes neither the output nor the pending value:
/// a pending flip can only reach the output at its expiry, so the
/// coalescing of reversed flips holds across any number of such ticks.
pub proof fn lemma_delay_relay_holds_while_counting(
    s: DelayRelay,
    prop: DelayRelayProperties,
    dt: int,
)
    requires
        s.wf(),
        prop.wf(),
        s.waiting,
        0 <= dt < s.remaining,
    ensures
        ({
            let s1 = delay_relay_after(s, prop, s.last_input, dt);
            &&& s1.output == s.output
            &&& s1.last_input == s.last_input
            &&& s1.waiting
            &&& s1.remaining == s.remaining - dt
        }),
{
}

/// A flip of the driving input that reverses within the delay is coalesced
/// away: if the input flips from the relay's settled value and flips back on
/// a later tick, before the delay of the flip has elapsed, the output never
/// changes — not on either tick, and not at any later expiry either, because
/// after the reversal the pending value is the settled one again.  Between
/// the two flips [`lemma_delay_relay_holds_while_counting`] carries the
/// pending state across any number of unexpired ticks.
pub proof fn lemma_delay_relay_coalesces_reversed_flip(
    s0: DelayRelay,
    prop: DelayRelayProperties,
    v: bool,
    dt1: int,
    dt2: int,
)
    requires
        s0.wf(),
        prop.wf(),
        !s0.waiting,
        s0.last_input == s0.output,
        v == !s0.output,
        0 <= dt1,
        0 <= dt2,
        // the flip to `v` would reach the output only after the first tick
        dt1 < if v { prop.on_delay as int } else { prop.off_delay as int },
    ensures
        ({
            let s1 = delay_relay_after(s0, prop, v, dt1);
            let s2 = delay_relay_after(s1, prop, s0.output, dt2);
            &&& s1.output == s0.output
            &&& s2.output == s0.output
            &&& s2.last_input == s2.output
        }),
{
}

/// What a timer is told to do on a tick.
#[derive(Debug, Clone, Copy, PartialEq, Eq, Structural, Default)]
pub enum TimerSet {
    /// Force the timer expired at once.
    #[default]
    Reset,
    /// Freeze the countdown at the configured duration.
    Hold,
    /// Let the countdown run.
    LetRun,
}

/// Configuration of a fixed-duration timer.
pub struct TimerProperties {
    /// The duration the countdown is held at, microseconds.
    pub time: i64,
}

impl TimerProperties {
    /// The duration is non-negative and within the accepted range.
    pub open spec fn wf(&self) -> bool {
        0 <= self.time <= MAX_DURATION
    }
}

/// The countdown value after one timer tick.
pub open spec fn timer_after(remaining: int, set: TimerSet, time: int, dt: int) -> int {
    match set {
        TimerSet::Hold => time,
        TimerSet::LetRun => if remaining > 0 { remaining - dt } else { remaining },
        TimerSet::Reset => -100_000,
    }
}

/// A countdown timer driven by a three-state control: Reset forces it
/// expired, Hold freezes it at the configured duration, LetRun lets it run
/// down; the output is "expired", that is, no time left.
pub struct Timer {
    /// Time left, microseconds; expired when not positive.
    pub remaining: i64,
}

impl Timer {
    /// The countdown is within the accepted range.
    pub open spec fn wf(&self) -> bool {
        -MAX_TICK - 100_000 <= self.remaining <= MAX_DURATION
    }

    /// Whether the timer shows expired.
    pub open spec fn spec_expired(&self) -> bool {
        self.remaining <= 0
    }

    /// A fresh timer, expired until something holds it.
    pub fn new() -> (t: Self)
        ensures
            t.wf(),
            t.spec_expired(),
            t.remaining == 0,
    {
        Timer { remaining: 0 }
    }

    /// Whether the countdown has run out.
    pub fn expired(&self) -> (r: bool)
        ensures
            r == self.spec_expired(),
    {
        self.remaining <= 0
    }

    /// One tick under the given control; the result is whether the timer
    /// shows expired afterwards.
    pub fn tick(&mut self, prop: &TimerProperties, set: TimerSet, dt: i64) -> (expired: bool)
        requires
            old(self).wf(),
            prop.wf(),
            0 <= dt <= MAX_TICK,
        ensures
            final(self).wf(),
            final(self).remaining == timer_after(old(self).remaining as int, set,
                prop.time as int, dt as int),
            expired == final(self).spec_expired(),
            set == TimerSet::Hold && prop.time > 0 ==> !expired,
            set == TimerSet::Reset ==> expired,
    {
        match set {
            TimerSet::Hold => {
                self.remaining = prop.time;
            },
            TimerSet::LetRun => {
                if self.remaining > 0 {
                    self.remaining = self.remaining - dt;
                }
            },
            TimerSet::Reset => {
                self.remaining = -100_000;
            },
        }
        self.remaining <= 0
    }
}

/// One tick of a timer wired to an output cell: the timer steps under the
/// control and the expired output is committed only when it changed.
pub fn add_timer(timer: &mut Timer, prop: &TimerProperties, set: TimerSet, dt: i64,
    output: &mut Shared<bool>) -> (expired: bool)
    requires
        old(timer).wf(),
        prop.wf(),
        0 <= dt <= MAX_TICK,
    ensures
        final(timer).wf(),
        final(timer).remaining == timer_after(old(timer).remaining as int, set,
            prop.time as int, dt as int),
        expired == final(timer).spec_expired(),
        final(output).value == expired,
        expired == old(output).value ==> *final(output) == *old(output),
{
    let expired = timer.tick(prop, set, dt);
    output.set_only_on_change(expired);
    expired
}

/// Holding a timer with a positive duration keeps it unexpired, on the tick
/// of the Hold and on every later tick that holds again, no matter how long
/// that goes on.
pub proof fn lemma_timer_hold_never_expires(remaining: int, time: int, dt: int)
    requires
        0 < time,
    ensures
        timer_after(remaining, TimerSet::Hold, time, dt) > 0,
{
}

/// What a variable-duration timer is told to do on a tick.
#[derive(Debug, Clone, Copy, PartialEq, Eq)]
pub enum TimerSetVarTime {
    /// Force the timer expired at once.
    Reset,
    /// Freeze the countdown at the configured duration, optionally changing
    /// that duration first.
    Hold(Option<i64>),
    /// Let the countdown run.
    LetRun,
}

/// Configuration of a variable-duration timer: only bounds; the duration
/// itself is part of the running state.
pub struct TimerVarTimeProperties {
    /// Duration the countdown starts from when nothing overrides it,
    /// microseconds.
    pub initial_time: i64,
}

/// The configured duration after one variable-duration timer tick.
pub open spec fn timer_var_time_after_time(time: int, set: TimerSetVarTime) -> int {
    match set {
        TimerSetVarTime::Hold(Some(t)) => t as int,
        _ => time,
    }
}

/// The countdown after one variable-duration timer tick, before the cap at
/// the configured duration.
pub open spec fn timer_var_time_after_run(remaining: int, set: TimerSetVarTime, time: int,
    dt: int) -> int {
    match set {
        TimerSetVarTime::Hold(Some(t)) => t as int,
        TimerSetVarTime::Hold(None) => time,
        TimerSetVarTime::LetRun => if remaining > 0 { remaining - dt } else { remaining },
        TimerSetVarTime::Reset => -100_000,
    }
}

/// A countdown timer whose duration can be changed while it runs; the
/// countdown is additionally capped at the configured duration, so
/// shortening the duration shortens a running countdown at once.
pub struct TimerVarTime {
    /// Configured duration, microseconds.
    pub time: i64,
    /// Time left, microseconds; expired when not positive.
    pub remaining: i64,
}

impl TimerVarTime {
    /// Duration and countdown are within the accepted range.
    pub open spec fn wf(&self) -> bool {
        &&& 0 <= self.time <= MAX_DURATION
        &&& -MAX_TICK - 100_000 <= self.remaining <= MAX_DURATION
    }

    /// Whether the timer shows expired.
    pub open spec fn spec_expired(&self) -> bool {
        self.remaining <= 0
    }

    /// A fresh timer with the configured duration, expired until something
    /// holds it.
    pub fn new(prop: &TimerVarTimeProperties) -> (t: Self)
        requires
            0 <= prop.initial_time <= MAX_DURATION,
        ensures
            t.wf(),
            t.spec_expired(),
            t.time == prop.initial_time,
            t.remaining == 0,
    {
        TimerVarTime { time: prop.initial_time, remaining: 0 }
    }

    /// Change the configured duration; a running countdown is capped on
    /// its next tick.
    pub fn set_time(&mut self, t: i64)
        requires
            old(self).wf(),
            0 <= t <= MAX_DURATION,
        ensures
            final(self).wf(),
            final(self).time == t,
            final(self).remaining == old(self).remaining,
    {
        self.time = t;
    }

    /// One tick under the given control; the result is whether the timer
    /// shows expired afterwards.
    pub fn tick(&mut self, set: TimerSetVarTime, dt: i64) -> (expired: bool)
        requires
            old(self).wf(),
            0 <= dt <= MAX_TICK,
            set matches TimerSetVarTime::Hold(t)
                ==> t matches Some(v) ==> 0 <= v <= MAX_DURATION,
        ensures
            final(self).wf(),
            final(self).time == timer_var_time_after_time(old(self).time as int, set),
            final(self).remaining == {
                let run = timer_var_time_after_run(old(self).remaining as int, set,
                    old(self).time as int, dt as int);
                if run <= final(self).time { run } else { final(self).time as int }
            },
            expired == final(self).spec_expired(),
            set == TimerSetVarTime::Reset ==> expired,
    {
        match set {
            TimerSetVarTime::Hold(Some(t)) => {
                self.time = t;
                self.remaining = t;
            },
            TimerSetVarTime::Hold(None) => {
                self.remaining = self.time;
            },
            TimerSetVarTime::LetRun => {
                if self.remaining > 0 {
                    self.remaining = self.remaining - dt;
                }
            },
            TimerSetVarTime::Reset => {
                self.remaining = -100_000;
            },
        }
        if self.remaining > self.time {
            self.remaining = self.time;
        }
        self.remaining <= 0
    }
}

/// Configuration of a blink relay.
pub struct BlinkRelaisProperties {
    /// Length of one full blink period, microseconds.
    pub interval: i64,
    /// Leading part of the period during which the output is on,
    /// microseconds.
    pub on_time: i64,
    /// Phase the sawtooth rests at while stopped, for blink-group
    /// synchronisation; `None` rests at zero.
    pub reset_time: Option<i64>,
}

impl BlinkRelaisProperties {
    /// The period is positive and everything is within the accepted range.
    pub open spec fn wf(&self) -> bool {
        &&& 0 < self.interval <= MAX_DURATION
        &&& 0 <= self.on_time <= MAX_DURATION
        &&& self.spec_reset_time() <= self.interval
        &&& 0 <= self.spec_reset_time()
    }

    /// The rest phase, zero when none is configured.
    pub open spec fn spec_reset_time(&self) -> int {
        match self.reset_time {
            Some(t) => t as int,
            None => 0,
        }
    }
}

/// Output side of a blink relay.
pub struct BlinkRelaisState {
    /// Whether the lamp line is on.
    pub on: Shared<bool>,
}

/// A blink relay: while running it free-runs a sawtooth over
/// `[0, interval)` and is on during the leading `[0, on_time)` part; while
/// stopped it rests dark at the configured phase.
pub struct BlinkRelais {
    /// Current phase of the sawtooth, microseconds.
    pub timer: i64,
}

/// The sawtooth phase after one running tick: advance and wrap once.
pub open spec fn blink_phase_after(timer: int, interval: int, dt: int) -> int {
    if timer + dt > interval {
        timer + dt - interval
    } else {
        timer + dt
    }
}

impl BlinkRelais {
    /// The phase is within one period plus one tick.
    pub open spec fn wf(&self, prop: &BlinkRelaisProperties) -> bool {
        0 <= self.timer <= prop.interval
    }

    /// A fresh relay resting at the configured phase.
    pub fn new(prop: &BlinkRelaisProperties) -> (s: Self)
        requires
            prop.wf(),
        ensures
            s.wf(prop),
            s.timer == prop.spec_reset_time(),
    {
        let reset_time: i64 = match prop.reset_time {
            Some(t) => t,
            None => 0,
        };
        BlinkRelais { timer: reset_time }
    }

    /// One tick: while running the sawtooth advances (wrapping once per
    /// period) and the output is on during the leading part of the period;
    /// while stopped the phase rests at the configured reset phase and the
    /// output is off.  The output is committed only when it changed.
    pub fn tick(
        &mut self,
        prop: &BlinkRelaisProperties,
        running: bool,
        dt: i64,
        state: &mut BlinkRelaisState,
    )
        requires
            old(self).wf(prop),
            prop.wf(),
            0 <= dt <= MAX_TICK,
            dt <= prop.interval,
        ensures
            final(self).wf(prop),
            running ==> final(self).timer == blink_phase_after(old(self).timer as int,
                prop.interval as int, dt as int),
            !running ==> final(self).timer == prop.spec_reset_time(),
            ({
                let new_on = running && final(self).timer < prop.on_time;
                &&& final(state).on.value == new_on
                &&& new_on == old(state).on.value ==> final(state).on == old(state).on
            }),
    {
        let new_on: bool;
        if running {
            self.timer = self.timer + dt;
            if self.timer > prop.interval {
                self.timer = self.timer - prop.interval;
            }
            new_on = self.timer < prop.on_time;
        } else {
            self.timer = match prop.reset_time {
                Some(t) => t,
                None => 0,
            };
            new_on = false;
        }
        state.on.set_only_on_change(new_on);
    }
}

/// Host-variable pair of a sound-with-light unit driven by a boolean.
pub struct BoolToFloatVarUnitProperties {
    /// Host variable the level is written to.
    pub float: String,
}

/// Edge detector behind a boolean-to-level unit: the level (full scale or
/// zero) is emitted only when the driving boolean differs from what was
/// emitted last, or on the very first tick.
pub struct BoolToFloatVarUnit {
    /// Value emitted last, if any.
    pub prev: Option<bool>,
}

impl BoolToFloatVarUnit {
    /// A fresh unit that has emitted nothing yet.
    pub fn new() -> (s: Self)
        ensures
            s.prev == Option::<bool>::None,
    {
        BoolToFloatVarUnit { prev: None }
    }

    /// One tick: the level to write now, if the input changed.
    pub fn tick(&mut self, value: bool) -> (emit: Option<i64>)
        ensures
            final(self).prev == Some(value),
            old(self).prev == Some(value) ==> emit is None,
            old(self).prev != Some(value) ==> emit == Some(if value { SCALE } else { 0i64 }),
    {
        let changed = match self.prev {
            Some(p) => p != value,
            None => true,
        };
        self.prev = Some(value);
        if changed {
            if value {
                Some(SCALE)
            } else {
                Some(0)
            }
        } else {
            None
        }
    }
}

/// Host sound name of a sound unit driven by a boolean.
pub struct BoolToSoundUnitProperties {
    /// Sound the boolean is forwarded to.
    pub sound: String,
}

/// Edge detector behind a boolean-to-sound unit: the boolean is emitted only
/// when it differs from what was emitted last; the unit starts as if `false`
/// had been emitted.
pub struct BoolToSoundUnit {
    /// Value emitted last.
    pub prev: bool,
}

impl BoolToSoundUnit {
    /// A fresh unit that behaves as if it had emitted `false`.
    pub fn new() -> (s: Self)
        ensures
            !s.prev,
    {
        BoolToSoundUnit { prev: false }
    }

    /// One tick: the value to emit now, if the input changed.
    pub fn tick(&mut self, value: bool) -> (emit: Option<bool>)
        ensures
            final(self).prev == value,
            old(self).prev == value ==> emit is None,
            old(self).prev != value ==> emit == Some(value),
    {
        if self.prev != value {
            self.prev = value;
            Some(value)
        } else {
            None
        }
    }
}

/// Sounds of a one-shot start sound unit.
pub struct StartSoundProperties {
    /// Sound triggered when the driving boolean rises, if any.
    pub start_sound: Option<String>,
}

/// Sound of a looping sound unit.
pub struct LoopSoundProperties {
    /// Looping sound the driving boolean is forwarded to.
    pub loop_sound: String,
}

/// Sounds of a start/loop/stop sound unit.
pub struct StartLoopStopSoundProperties {
    /// Sound triggered once when the driving boolean rises, if any.
    pub start_sound: Option<String>,
    /// Looping sound held on while the boolean is on, if any.
    pub loop_sound: Option<String>,
    /// Sound triggered once when the boolean falls, if any.
    pub stop_sound: Option<String>,
}

/// What a start/loop/stop unit asks the host to do after a tick.
#[derive(Debug, Clone, Copy, PartialEq, Eq, Structural)]
pub struct SoundCommand {
    /// Trigger the start sound.
    pub start: bool,
    /// Switch the looping sound on or off.
    pub loop_running: Option<bool>,
    /// Trigger the stop sound.
    pub stop: bool,
}

/// Edge detector behind the start/loop/stop sound units: sounds fire only on
/// the edges of the driving boolean, exactly once per edge.
pub struct StartLoopStopSound {
    /// Value of the driving boolean after the previous tick.
    pub previous_active: bool,
}

impl StartLoopStopSound {
    /// A fresh unit that behaves as if the driver had been `false`.
    pub fn new() -> (s: Self)
        ensures
            !s.previous_active,
    {
        StartLoopStopSound { previous_active: false }
    }

    /// One tick: on a rising edge the start sound fires and the loop turns
    /// on; on a falling edge the loop turns off and the stop sound fires;
    /// otherwise nothing is asked for.
    pub fn tick(&mut self, active: bool) -> (cmd: SoundCommand)
        ensures
            final(self).previous_active == active,
            old(self).previous_active == active ==> cmd == (SoundCommand {
                start: false,
                loop_running: None,
                stop: false,
            }),
            old(self).previous_active != active && active ==> cmd == (SoundCommand {
                start: true,
                loop_running: Some(true),
                stop: false,
            }),
            old(self).previous_active != active && !active ==> cmd == (SoundCommand {
                start: false,
                loop_running: Some(false),
                stop: true,
            }),
    {
        if self.previous_active == active {
            SoundCommand { start: false, loop_running: None, stop: false }
        } else {
            self.previous_active = active;
            if active {
                SoundCommand { start: true, loop_running: Some(true), stop: false }
            } else {
                SoundCommand { start: false, loop_running: Some(false), stop: true }
            }
        }
    }
}

} // verus!
