//! The door-pair leaf model and the door controllers.
//!
//! The leaf of an electric sliding-plug door pair is a continuous position
//! in `[0, SCALE]` with a velocity, driven by a commanded target; the
//! position is always clamped to the travel and reflects off both end stops
//! with configurable coefficients.  On top of it sit the per-door control
//! (automatic opening on request while released, auto-close after a timer)
//! and the outside warning relay.

use vstd::prelude::*;

use crate::standard_elements::{mul_div_scale, mul_div_scale_spec, Shared, SCALE};
use crate::tech_elements::simple::{
    timer_after, timer_var_time_after_run, timer_var_time_after_time, Timer, TimerProperties,
    TimerSet, TimerSetVarTime, TimerVarTime, TimerVarTimeProperties, MAX_DURATION, MAX_TICK,
};

verus! {

/// Largest leaf-speed magnitude the model accepts, millionths of full
/// travel per second.
pub const MAX_DOOR_SPEED: i64 = 100_000_000;

/// What the door pair is commanded to do.
#[derive(Debug, Clone, Copy, PartialEq, Eq, Structural, Default)]
pub enum ElectricSlidingPlugDoorPairTarget {
    /// No drive energy: the leaf coasts against friction.
    #[default]
    NoEnergy,
    /// Drive toward fully open.
    Open,
    /// Drive toward fully closed.
    Close,
}

/// The leaf position discretized for downstream logic.
#[derive(Debug, Clone, Copy, PartialEq, Eq, Structural, Default)]
pub enum ElectricSlidingPlugDoorPairPositionState {
    /// Somewhere between the thresholds.
    #[default]
    InTransition,
    /// Within one hundredth of full travel of the open stop.
    FullyOpen,
    /// Within one hundredth of full travel of the closed stop.
    FullyClosed,
}

/// Configuration of one door pair, in fixed-point units.
pub struct ElectricSlidingPlugDoorPairProperties {
    /// Friction deceleration while coasting, millionths of travel per
    /// second per second.
    pub friction: i64,
    /// Opening speed over the first part of the travel.
    pub open_start_speed: i64,
    /// Opening speed over the last part of the travel.
    pub open_end_speed: i64,
    /// Position at which the opening speed changes.
    pub open_start_end_change_position: i64,
    /// Closing speed over the first part of the travel.
    pub close_start_speed: i64,
    /// Closing speed over the last part of the travel.
    pub close_end_speed: i64,
    /// Position at which the closing speed changes.
    pub close_start_end_change_position: i64,
    /// Stiffness of the drive's speed tracking, millionths per second.
    pub traction_stiftness: i64,
    /// Reflection coefficient at the open stop, in `[0, SCALE]`.
    pub reflection_open: i64,
    /// Reflection coefficient at the closed stop, in `[0, SCALE]`.
    pub reflection_close: i64,
}

impl ElectricSlidingPlugDoorPairProperties {
    /// Speeds, positions and coefficients are within their ranges.
    pub open spec fn wf(&self) -> bool {
        &&& 0 <= self.friction <= 10_000_000
        &&& 0 < self.open_start_speed <= 10_000_000
        &&& 0 < self.open_end_speed <= 10_000_000
        &&& 0 <= self.open_start_end_change_position <= SCALE
        &&& 0 < self.close_start_speed <= 10_000_000
        &&& 0 < self.close_end_speed <= 10_000_000
        &&& 0 <= self.close_start_end_change_position <= SCALE
        &&& 0 <= self.traction_stiftness <= 100_000_000
        &&& 0 <= self.reflection_open <= SCALE
        &&& 0 <= self.reflection_close <= SCALE
    }
}

/// The discrete sounds one leaf tick can fire, each exactly once per
/// crossing of its trigger in the firing direction.
#[derive(Debug, Clone, Copy, PartialEq, Eq, Structural)]
pub struct DoorSoundEvents {
    /// The drive starts opening from the closed stop.
    pub open_start: bool,
    /// The leaf crosses the plug threshold outward.
    pub open_transition: bool,
    /// The leaf reaches the open stop.
    pub open_end: bool,
    /// The drive starts closing from an open position.
    pub close_start: bool,
    /// The leaf crosses the plug threshold inward.
    pub close_transition: bool,
    /// The leaf reaches the closed region.
    pub close_end: bool,
}

/// State of one door-pair leaf.
pub struct ElectricSlidingPlugDoorPairState {
    /// Leaf position in `[0, SCALE]`: `0` closed, `SCALE` open.
    pub position: i64,
    /// Leaf velocity, millionths of travel per second.
    pub speed: i64,
    /// The discretized position after the last tick, as a cell for
    /// downstream observers.
    pub position_state: Shared<ElectricSlidingPlugDoorPairPositionState>,
}

/// The discretization of a leaf position.
pub open spec fn door_position_state_of(position: int)
    -> ElectricSlidingPlugDoorPairPositionState {
    if position < 10_000 {
        ElectricSlidingPlugDoorPairPositionState::FullyClosed
    } else if position > 990_000 {
        ElectricSlidingPlugDoorPairPositionState::FullyOpen
    } else {
        ElectricSlidingPlugDoorPairPositionState::InTransition
    }
}

/// Whether the leaf has anything to do this tick: it is moving, or it is
/// commanded away from the stop it rests at.
pub open spec fn door_active(s_position: int, s_speed: int,
    target: ElectricSlidingPlugDoorPairTarget) -> bool {
    ||| s_speed != 0
    ||| (target == ElectricSlidingPlugDoorPairTarget::Open && s_position < SCALE)
    ||| (target == ElectricSlidingPlugDoorPairTarget::Close && s_position > 0)
}

/// The speed the drive tracks in the energized states: the start speed on
/// the long part of the travel and the end speed near the destination stop,
/// opening positive, closing negative.
pub open spec fn door_v_soll(prop: ElectricSlidingPlugDoorPairProperties, position: int,
    target: ElectricSlidingPlugDoorPairTarget) -> int {
    if target == ElectricSlidingPlugDoorPairTarget::Open {
        if position < prop.open_start_end_change_position {
            prop.open_start_speed as int
        } else {
            prop.open_end_speed as int
        }
    } else {
        if position > prop.close_start_end_change_position {
            -(prop.close_start_speed as int)
        } else {
            -(prop.close_end_speed as int)
        }
    }
}

impl ElectricSlidingPlugDoorPairState {
    /// The leaf is inside its travel and its speed inside the accepted
    /// range.
    pub open spec fn wf(&self) -> bool {
        &&& 0 <= self.position <= SCALE
        &&& -MAX_DOOR_SPEED <= self.speed <= MAX_DOOR_SPEED
    }
}

/// The leaf displacement of one active tick, before the end stops: the
/// position moved by the tracked speed over the tick.
pub open spec fn door_moved(prop: ElectricSlidingPlugDoorPairProperties, position: int,
    speed: int, target: ElectricSlidingPlugDoorPairTarget, dt: int) -> int {
    position + mul_div_scale_spec(door_tracked_speed(prop, position, speed, target, dt), dt)
}

/// The leaf position after one tick: unchanged while inactive, the
/// displaced position clamped exactly onto either end stop otherwise.
pub open spec fn door_position_after(prop: ElectricSlidingPlugDoorPairProperties,
    position: int, speed: int, target: ElectricSlidingPlugDoorPairTarget, dt: int) -> int {
    if !door_active(position, speed, target) {
        position
    } else {
        let moved = door_moved(prop, position, speed, target, dt);
        if moved > SCALE {
            SCALE as int
        } else if moved < 0 {
            0
        } else {
            moved
        }
    }
}

/// The leaf speed after one tick: unchanged while inactive; otherwise the
/// tracked speed, reflected with the stop's coefficient if the tick ran
/// into an end stop.
pub open spec fn door_speed_after(prop: ElectricSlidingPlugDoorPairProperties,
    position: int, speed: int, target: ElectricSlidingPlugDoorPairTarget, dt: int) -> int {
    if !door_active(position, speed, target) {
        speed
    } else {
        let drive_speed = door_tracked_speed(prop, position, speed, target, dt);
        let moved = door_moved(prop, position, speed, target, dt);
        if moved > SCALE {
            -mul_div_scale_spec(drive_speed, prop.reflection_open as int)
        } else if moved < 0 {
            -mul_div_scale_spec(drive_speed, prop.reflection_close as int)
        } else {
            drive_speed
        }
    }
}

/// The sound events of one leaf tick: none while inactive; otherwise each
/// fires exactly when its threshold is crossed in its direction.
pub open spec fn door_events_after(prop: ElectricSlidingPlugDoorPairProperties,
    position: int, speed: int, target: ElectricSlidingPlugDoorPairTarget, dt: int)
    -> DoorSoundEvents {
    if !door_active(position, speed, target) {
        DoorSoundEvents {
            open_start: false,
            open_transition: false,
            open_end: false,
            close_start: false,
            close_transition: false,
            close_end: false,
        }
    } else {
        let drive_speed = door_tracked_speed(prop, position, speed, target, dt);
        let moved = door_moved(prop, position, speed, target, dt);
        DoorSoundEvents {
            open_start: target == ElectricSlidingPlugDoorPairTarget::Open
                && position < 10_000 && speed <= 0,
            open_transition: moved > 100_000 && position <= 100_000 && drive_speed > 0,
            open_end: moved > SCALE,
            close_start: target == ElectricSlidingPlugDoorPairTarget::Close
                && position > 100_000 && speed >= 0,
            close_transition: moved < 100_000 && position >= 100_000 && drive_speed < 0,
            close_end: moved < 10_000 && position >= 10_000,
        }
    }
}

/// A fresh door pair resting closed.
pub fn add_electric_sliding_plug_door_pair() -> (s: ElectricSlidingPlugDoorPairState)
    ensures
        s.wf(),
        s.position == 0,
        s.speed == 0,
        s.position_state.value == ElectricSlidingPlugDoorPairPositionState::FullyClosed,
{
    ElectricSlidingPlugDoorPairState {
        position: 0,
        speed: 0,
        position_state: Shared::new(ElectricSlidingPlugDoorPairPositionState::FullyClosed),
    }
}

impl ElectricSlidingPlugDoorPairState {
    /// One tick of the leaf model.  While active, the speed tracks the
    /// drive's demanded speed (or decays against friction without energy),
    /// the position integrates the speed, and at either end stop the
    /// position clamps exactly to the stop while the speed reflects with
    /// the stop's coefficient.  The position never leaves `[0, SCALE]`, a
    /// reflection coefficient of zero stops the leaf dead, and a
    /// coefficient of one full unit preserves the speed's magnitude
    /// exactly.  The discretized position is committed only when it
    /// changed, and each returned sound event fires exactly when its
    /// threshold is crossed in its direction.
    pub fn tick(
        &mut self,
        prop: &ElectricSlidingPlugDoorPairProperties,
        target: ElectricSlidingPlugDoorPairTarget,
        dt: i64,
    ) -> (events: DoorSoundEvents)
        requires
            old(self).wf(),
            prop.wf(),
            0 <= dt <= MAX_TICK,
        ensures
            final(self).wf(),
            0 <= final(self).position <= SCALE,
            final(self).position == door_position_after(*prop, old(self).position as int,
                old(self).speed as int, target, dt as int),
            final(self).speed == door_speed_after(*prop, old(self).position as int,
                old(self).speed as int, target, dt as int),
            events == door_events_after(*prop, old(self).position as int,
                old(self).speed as int, target, dt as int),
            final(self).position_state.value
                == door_position_state_of(final(self).position as int),
            final(self).position_state.value == old(self).position_state.value
                ==> final(self).position_state == old(self).position_state,
    {
        let active = self.speed != 0
            || (target == ElectricSlidingPlugDoorPairTarget::Open && self.position < SCALE)
            || (target == ElectricSlidingPlugDoorPairTarget::Close && self.position > 0);

        let mut events = DoorSoundEvents {
            open_start: false,
            open_transition: false,
            open_end: false,
            close_start: false,
            close_transition: false,
            close_end: false,
        };

        if active {
            let old_position = self.position;
            let old_speed = self.speed;

            if target == ElectricSlidingPlugDoorPairTarget::NoEnergy {
                let decay = mul_div_scale(prop.friction, dt);
                if self.speed > 0 {
                    if self.speed > decay {
                        self.speed = self.speed - decay;
                    } else {
                        self.speed = 0;
                    }
                } else if self.speed < 0 {
                    if self.speed < -decay {
                        self.speed = self.speed + decay;
                    } else {
                        self.speed = 0;
                    }
                }
            } else {
                let v_soll: i64;
                if target == ElectricSlidingPlugDoorPairTarget::Open {
                    if old_position < 10_000 && old_speed <= 0 {
                        events.open_start = true;
                    }
                    if old_position < prop.open_start_end_change_position {
                        v_soll = prop.open_start_speed;
                    } else {
                        v_soll = prop.open_end_speed;
                    }
                } else {
                    if old_position > 100_000 && old_speed >= 0 {
                        events.close_start = true;
                    }
                    if old_position > prop.close_start_end_change_position {
                        v_soll = -prop.close_start_speed;
                    } else {
                        v_soll = -prop.close_end_speed;
                    }
                }
                let mut blend = mul_div_scale(prop.traction_stiftness, dt);
                if blend > SCALE {
                    blend = SCALE;
                }
                self.speed = crate::standard_elements::exponential_approach(
                    self.speed, blend, v_soll);
            }

            let moved = old_position + mul_div_scale(self.speed, dt);

            if moved < 100_000 && old_position >= 100_000 && self.speed < 0 {
                events.close_transition = true;
            }
            if moved > 100_000 && old_position <= 100_000 && self.speed > 0 {
                events.open_transition = true;
            }
            if moved < 10_000 && old_position >= 10_000 {
                events.close_end = true;
            }

            if moved > SCALE {
                self.position = SCALE;
                self.speed = -mul_div_scale(self.speed, prop.reflection_open);
                events.open_end = true;
            } else if moved < 0 {
                self.position = 0;
                self.speed = -mul_div_scale(self.speed, prop.reflection_close);
            } else {
                self.position = moved;
            }
        }

        let state = compute_door_position_state(self.position);
        self.position_state.set_only_on_change_state(state);
        events
    }
}

/// The speed after the drive's tracking (or the friction decay) of one
/// tick, before any reflection.
pub open spec fn door_tracked_speed(prop: ElectricSlidingPlugDoorPairProperties,
    position: int, speed: int, target: ElectricSlidingPlugDoorPairTarget, dt: int) -> int {
    if target == ElectricSlidingPlugDoorPairTarget::NoEnergy {
        let decay = mul_div_scale_spec(prop.friction as int, dt);
        if speed > 0 {
            if speed > decay { speed - decay } else { 0 }
        } else if speed < 0 {
            if speed < -decay { speed + decay } else { 0 }
        } else {
            0
        }
    } else {
        let blend0 = mul_div_scale_spec(prop.traction_stiftness as int, dt);
        let blend = if blend0 > SCALE { SCALE as int } else { blend0 };
        crate::standard_elements::approach_step(speed, blend,
            door_v_soll(prop, position, target))
    }
}

/// Zero reflection at a stop kills the speed exactly; full reflection
/// preserves its magnitude exactly, only reversing its sign.
pub proof fn lemma_door_reflection(speed: int, reflection: int)
    requires
        -MAX_DOOR_SPEED <= speed <= MAX_DOOR_SPEED,
        0 <= reflection <= SCALE,
    ensures
        reflection == 0 ==> -mul_div_scale_spec(speed, reflection) == 0,
        reflection == SCALE ==> -mul_div_scale_spec(speed, reflection) == -speed,
{
    let s = SCALE as int;
    if reflection == 0 {
        if speed >= 0 {
            assert(speed * 0 == 0) by (nonlinear_arith);
        } else {
            assert(-speed * 0 == 0) by (nonlinear_arith);
        }
    }
    if reflection == SCALE {
        if speed >= 0 {
            vstd::arithmetic::div_mod::lemma_fundamental_div_mod_converse(
                speed * s, s, speed, 0);
        } else {
            vstd::arithmetic::div_mod::lemma_fundamental_div_mod_converse(
                -speed * s, s, -speed, 0);
        }
    }
}

/// The discretization of a leaf position, as [`door_position_state_of`]
/// states it.
pub fn compute_door_position_state(position: i64)
    -> (s: ElectricSlidingPlugDoorPairPositionState)
    ensures
        s == door_position_state_of(position as int),
{
    if position < 10_000 {
        ElectricSlidingPlugDoorPairPositionState::FullyClosed
    } else if position > 990_000 {
        ElectricSlidingPlugDoorPairPositionState::FullyOpen
    } else {
        ElectricSlidingPlugDoorPairPositionState::InTransition
    }
}

impl Shared<ElectricSlidingPlugDoorPairPositionState> {
    /// Commit a discretized position only when it changed.
    pub fn set_only_on_change_state(&mut self, v: ElectricSlidingPlugDoorPairPositionState)
        ensures
            final(self).value == v,
            v == old(self).value ==> *final(self) == *old(self),
            v != old(self).value ==> final(self).version
                == Self::next_version(old(self).version),
    {
        if self.value != v {
            self.set(v);
        }
    }
}

/// How a door controller can be overridden.
#[derive(Debug, Clone, Copy, PartialEq, Eq, Structural, Default)]
pub enum DoorControlMode {
    /// Open on request while released, close again after the timer.
    #[default]
    Automatic,
    /// Hold the door open.
    Open,
    /// Hold the door closed.
    Close,
}

/// Configuration of one door controller.
pub struct DoorControlProperties {
    /// How long the door stays open after a passenger request,
    /// microseconds.
    pub request_time: i64,
    /// The shorter warning time used while the doors are not released,
    /// microseconds.
    pub warning_time: i64,
}

impl DoorControlProperties {
    /// Both times are positive and within the accepted range.
    pub open spec fn wf(&self) -> bool {
        &&& 0 < self.request_time <= MAX_DURATION
        &&& 0 < self.warning_time <= MAX_DURATION
    }
}

/// Output side of a door controller.
pub struct DoorControlState {
    /// Whether the door warns (it is not released and not fully closed).
    pub warning: Shared<bool>,
}

/// One door controller: the open timer plus the release edge detector.
pub struct DoorControl {
    /// The variable-duration open timer.
    pub open_timer: TimerVarTime,
    /// Released value seen on the previous tick.
    pub prev_released: bool,
    /// Output side.
    pub state: DoorControlState,
}

/// The timer command a door controller derives from its inputs: inactive
/// systems reset the timer, a fresh release of a not-yet-closed door holds
/// it at the full request time, a standing request holds it at the
/// configured duration, and otherwise it runs down.
pub open spec fn door_control_timer_set(system_active: bool, request: bool, released: bool,
    released_rising: bool, door_closed: bool, request_time: i64) -> TimerSetVarTime {
    if !system_active {
        TimerSetVarTime::Reset
    } else if released_rising && !door_closed {
        TimerSetVarTime::Hold(Some(request_time))
    } else if request {
        TimerSetVarTime::Hold(None)
    } else {
        TimerSetVarTime::LetRun
    }
}

/// The controller timer's countdown after one tick: the run of the command
/// over the (possibly changed) duration, capped at that duration.
pub open spec fn door_control_remaining_after(remaining: int, set: TimerSetVarTime,
    time0: int, dt: int) -> int {
    let run = timer_var_time_after_run(remaining, set, time0, dt);
    let t1 = timer_var_time_after_time(time0, set);
    if run <= t1 {
        run
    } else {
        t1
    }
}

/// The target a door controller commands: without system energy none; under
/// an override the overridden direction; automatically, open until the open
/// timer has expired and close afterwards.
pub open spec fn door_control_target(system_active: bool, force: Option<DoorControlMode>,
    timer_expired: bool) -> ElectricSlidingPlugDoorPairTarget {
    if system_active {
        match force {
            None | Some(DoorControlMode::Automatic) => if timer_expired {
                ElectricSlidingPlugDoorPairTarget::Close
            } else {
                ElectricSlidingPlugDoorPairTarget::Open
            },
            Some(DoorControlMode::Open) => ElectricSlidingPlugDoorPairTarget::Open,
            Some(DoorControlMode::Close) => ElectricSlidingPlugDoorPairTarget::Close,
        }
    } else {
        ElectricSlidingPlugDoorPairTarget::NoEnergy
    }
}

/// A fresh door controller with an expired timer and no warning.
pub fn add_door_control(prop: &DoorControlProperties) -> (c: DoorControl)
    requires
        prop.wf(),
    ensures
        c.open_timer.wf(),
        c.open_timer.spec_expired(),
        !c.prev_released,
        !c.state.warning.value,
{
    DoorControl {
        open_timer: TimerVarTime::new(&TimerVarTimeProperties { initial_time: prop.request_time }),
        prev_released: false,
        state: DoorControlState { warning: Shared::new(false) },
    }
}

impl DoorControl {
    /// The inner timer is within its ranges.
    pub open spec fn wf(&self) -> bool {
        self.open_timer.wf()
    }

    /// One controller tick: the timer duration follows the release state
    /// (request time released, warning time not), the timer obeys
    /// [`door_control_timer_set`], the warning shows exactly while the door
    /// is neither released nor fully closed, and the returned target is
    /// [`door_control_target`] of the new timer output.
    pub fn tick(
        &mut self,
        prop: &DoorControlProperties,
        system_active: bool,
        request: bool,
        released: bool,
        force: Option<DoorControlMode>,
        door_closed: ElectricSlidingPlugDoorPairPositionState,
        dt: i64,
    ) -> (target: ElectricSlidingPlugDoorPairTarget)
        requires
            old(self).wf(),
            prop.wf(),
            0 <= dt <= MAX_TICK,
        ensures
            final(self).wf(),
            final(self).prev_released == released,
            ({
                let rising = released && !old(self).prev_released;
                let closed = door_closed
                    == ElectricSlidingPlugDoorPairPositionState::FullyClosed;
                let set = door_control_timer_set(system_active, request, released, rising,
                    closed, prop.request_time);
                let time0 = if released { prop.request_time as int } else {
                    prop.warning_time as int
                };
                &&& final(self).open_timer.time == timer_var_time_after_time(time0, set)
                &&& final(self).open_timer.remaining == door_control_remaining_after(
                    old(self).open_timer.remaining as int, set, time0, dt as int)
                &&& target == door_control_target(system_active, force,
                    final(self).open_timer.spec_expired())
                &&& final(self).state.warning.value == (!released && !closed)
            }),
            final(self).state.warning.value == old(self).state.warning.value
                ==> final(self).state.warning == old(self).state.warning,
    {
        let closed = door_closed == ElectricSlidingPlugDoorPairPositionState::FullyClosed;
        let rising = released && !self.prev_released;
        self.prev_released = released;

        if released {
            self.open_timer.set_time(prop.request_time);
        } else {
            self.open_timer.set_time(prop.warning_time);
        }

        let set = if !system_active {
            TimerSetVarTime::Reset
        } else if rising && !closed {
            TimerSetVarTime::Hold(Some(prop.request_time))
        } else if request {
            TimerSetVarTime::Hold(None)
        } else {
            TimerSetVarTime::LetRun
        };

        let expired = self.open_timer.tick(set, dt);

        self.state.warning.set_only_on_change(!released && !closed);

        if system_active {
            let mode = match force {
                Some(m) => m,
                None => DoorControlMode::Automatic,
            };
            match mode {
                DoorControlMode::Automatic => {
                    if expired {
                        ElectricSlidingPlugDoorPairTarget::Close
                    } else {
                        ElectricSlidingPlugDoorPairTarget::Open
                    }
                },
                DoorControlMode::Open => ElectricSlidingPlugDoorPairTarget::Open,
                DoorControlMode::Close => ElectricSlidingPlugDoorPairTarget::Close,
            }
        } else {
            ElectricSlidingPlugDoorPairTarget::NoEnergy
        }
    }
}

/// Configuration of the outside door-warning relay.
pub struct DoorWarningOutsideRelayWithStopOnSpeedProperties {
    /// How long the warning keeps sounding after the doors have closed,
    /// microseconds.
    pub timer_after_closed: i64,
    /// Speed above which the warning is cut off, millionths of a
    /// metre per second.
    pub max_speed: i64,
}

impl DoorWarningOutsideRelayWithStopOnSpeedProperties {
    /// The hold time is positive and within the accepted range.
    pub open spec fn wf(&self) -> bool {
        0 < self.timer_after_closed <= MAX_DURATION
    }
}

/// Output side of the outside warning relay.
pub struct DoorWarningOutsideRelayWithStopOnSpeedState {
    /// Whether the outside warning sounds.
    pub warning: Shared<bool>,
}

/// The outside warning relay: while the doors are unreleased and open (or
/// were just released back) a timer is held; once the doors close, the
/// warning keeps sounding until the timer has run out, unless the vehicle
/// moves faster than the cut-off speed or the doors are released again.
pub struct DoorWarningOutsideRelayWithStopOnSpeed {
    /// The hold timer.
    pub timer: Timer,
    /// Released value last acted on.
    pub prev_released: bool,
    /// Ticks still to pause after a release edge before acting again.
    pub skip: u8,
    /// Command given before the pause began.
    pub last_set: TimerSet,
    /// Output side.
    pub state: DoorWarningOutsideRelayWithStopOnSpeedState,
}

/// The timer command the outside warning relay derives from its inputs.
pub open spec fn door_warning_timer_set(released: bool, prev_released: bool,
    doors_closed: bool, speed: int, max_speed: int) -> TimerSet {
    if (!doors_closed || prev_released) && !released {
        TimerSet::Hold
    } else if speed > max_speed || released {
        TimerSet::Reset
    } else {
        TimerSet::LetRun
    }
}

/// A fresh outside warning relay, silent.
pub fn add_door_warning_outside_relay_with_stop_on_speed()
    -> (r: DoorWarningOutsideRelayWithStopOnSpeed)
    ensures
        r.timer.wf(),
        !r.prev_released,
        r.skip == 0,
        !r.state.warning.value,
{
    DoorWarningOutsideRelayWithStopOnSpeed {
        timer: Timer::new(),
        prev_released: false,
        skip: 0,
        last_set: TimerSet::LetRun,
        state: DoorWarningOutsideRelayWithStopOnSpeedState { warning: Shared::new(false) },
    }
}

impl DoorWarningOutsideRelayWithStopOnSpeed {
    /// The inner timer is within its ranges.
    pub open spec fn wf(&self) -> bool {
        self.timer.wf()
    }

    /// One relay tick: outside a pause the command follows
    /// [`door_warning_timer_set`] and a release edge starts a five-tick
    /// pause; during a pause the previous command keeps driving the timer.
    /// The warning output is the negation of the timer's expiry.
    pub fn tick(&mut self, released: bool, doors_closed: bool, speed: i64, prop:
        &DoorWarningOutsideRelayWithStopOnSpeedProperties, dt: i64)
        requires
            old(self).wf(),
            prop.wf(),
            0 <= dt <= MAX_TICK,
        ensures
            final(self).wf(),
            ({
                let set = if old(self).skip > 0 { old(self).last_set } else {
                    door_warning_timer_set(released, old(self).prev_released, doors_closed,
                        speed as int, prop.max_speed as int)
                };
                &&& final(self).last_set == set
                &&& final(self).timer.remaining == timer_after(
                    old(self).timer.remaining as int, set,
                    prop.timer_after_closed as int, dt as int)
                &&& final(self).state.warning.value == !final(self).timer.spec_expired()
            }),
            old(self).skip > 0 ==> final(self).skip == old(self).skip - 1
                && final(self).prev_released == old(self).prev_released,
            old(self).skip == 0 ==> final(self).prev_released == released
                && final(self).skip == if released != old(self).prev_released { 5u8 } else {
                    0u8
                },
    {
        let set: TimerSet;
        if self.skip > 0 {
            self.skip = self.skip - 1;
            set = self.last_set;
        } else {
            set = if (!doors_closed || self.prev_released) && !released {
                TimerSet::Hold
            } else if speed > prop.max_speed || released {
                TimerSet::Reset
            } else {
                TimerSet::LetRun
            };
            if released != self.prev_released {
                self.skip = 5;
            }
            self.prev_released = released;
            self.last_set = set;
        }
        let timer_prop = TimerProperties { time: prop.timer_after_closed };
        let expired = self.timer.tick(&timer_prop, set, dt);
        self.state.warning.set_only_on_change(!expired);
    }
}

} // verus!
