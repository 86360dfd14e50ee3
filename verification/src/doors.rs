//! The vehicle's four door pairs with their controllers and warnings.
//!
//! Each pair combines the leaf model with its controller; the first door
//! can be overridden by the driver.  The inside warning of the first door
//! blinks on its own relay, the other three share one, and the outside
//! warning relay keeps sounding for a while after the doors have closed.

use vstd::prelude::*;

use crate::standard_elements::Shared;
use vstd::string::StringExecFns;
use crate::tech_elements::combined::{
    add_blink_relais_multiple_entries, add_blink_relais_with_light_and_sound, gate_light,
    gate_sound, BlinkRelaisMultipleEntries, BlinkRelaisMultipleEntriesProperties,
    BlinkRelaisWithLightAndSound, BlinkRelaisWithLightAndSoundProperties, LightAndSoundVarPair,
};
use crate::tech_elements::doors::{
    add_door_control, add_door_warning_outside_relay_with_stop_on_speed,
    add_electric_sliding_plug_door_pair, DoorControl, DoorControlMode, DoorControlProperties,
    DoorSoundEvents, DoorWarningOutsideRelayWithStopOnSpeed,
    DoorWarningOutsideRelayWithStopOnSpeedProperties, ElectricSlidingPlugDoorPairPositionState,
    ElectricSlidingPlugDoorPairProperties, ElectricSlidingPlugDoorPairState,
    ElectricSlidingPlugDoorPairTarget,
};
use crate::tech_elements::simple::{
    any_set, blink_phase_after, timer_after, BlinkRelaisProperties, BoolToSoundUnit,
    TimerSetVarTime, MAX_TICK,
};

verus! {

/// What the door switch commands, as downstream logic reads it.
#[derive(Debug, Clone, Copy, PartialEq, Eq, Structural)]
pub enum DoorSwitchState {
    /// All doors shut and locked.
    Closed,
    /// Passengers may request doors.
    Released,
    /// All doors commanded open.
    Open,
    /// Only the first door commanded.
    DoorOne,
}

/// One door pair with its controller.
pub struct DoorsWithController {
    /// The leaf model.
    pub door: ElectricSlidingPlugDoorPairState,
    /// The controller above it.
    pub control: DoorControl,
    /// Whether the pair is fully closed, as a cell for downstream
    /// observers.
    pub closed: Shared<bool>,
}

/// The door subsystem.
pub struct DoorsState {
    /// The four door pairs, leading to trailing.
    pub doors_with_controller: Vec<DoorsWithController>,
    /// Whether the doors are released to passengers.
    pub released: Shared<bool>,
    /// One open request per door.
    pub requests: Vec<Shared<bool>>,
    /// Vehicle speed, millionths of a metre per second.
    pub vehicle_speed: Shared<i64>,
    /// Driver override of the first door.
    pub door_1_override: Shared<DoorControlMode>,
    /// Whether the outside warning is suppressed.
    pub override_no_warning: Shared<bool>,
    /// Whether every pair is fully closed.
    pub all_closed: Shared<bool>,
    /// Inside warning relay of the first door.
    pub door_1_warn_relais: BlinkRelaisWithLightAndSound,
    /// Shared inside warning relay of the other three doors.
    pub other_warn_relais: BlinkRelaisMultipleEntries,
    /// The outside warning relay.
    pub outside_relay: DoorWarningOutsideRelayWithStopOnSpeed,
    /// Edge detector of the outside warning sound line.
    pub outside_sound: BoolToSoundUnit,
    /// Blink relay of the outside warning lamps.
    pub outside_blink: BlinkRelaisWithLightAndSound,
}

/// How long a door stays open after a request, microseconds.
pub const DOOR_REQUEST_TIME: i64 = 6_000_000;

/// The shorter warning time while the doors are not released,
/// microseconds.
pub const DOOR_WARNING_TIME: i64 = 2_000_000;

/// The per-pair leaf configuration, as [`door_pair_properties`] builds it.
pub open spec fn spec_door_pair_properties(door_number: int)
    -> ElectricSlidingPlugDoorPairProperties {
    ElectricSlidingPlugDoorPairProperties {
        friction: 50_000,
        open_start_speed: if door_number == 0 {
            600_000
        } else if door_number == 1 {
            650_000
        } else if door_number == 2 {
            620_000
        } else {
            580_000
        },
        open_end_speed: 300_000,
        open_start_end_change_position: 600_000,
        close_start_speed: if door_number == 0 {
            500_000
        } else if door_number == 1 {
            450_000
        } else if door_number == 2 {
            420_000
        } else {
            480_000
        },
        close_end_speed: 100_000,
        close_start_end_change_position: 200_000,
        traction_stiftness: 4_000_000,
        reflection_open: if door_number == 0 || door_number == 3 { 30_000 } else { 50_000 },
        reflection_close: 50_000,
    }
}

/// The per-pair leaf configuration: the common friction, end speeds,
/// change-over positions and drive stiffness, with each door's own start
/// speeds and reflection coefficients.
pub fn door_pair_properties(door_number: usize) -> (prop: ElectricSlidingPlugDoorPairProperties)
    requires
        door_number < 4,
    ensures
        prop.wf(),
        prop == spec_door_pair_properties(door_number as int),
{
    let open_start_speed: i64 = match door_number {
        0 => 600_000,
        1 => 650_000,
        2 => 620_000,
        _ => 580_000,
    };
    let close_start_speed: i64 = match door_number {
        0 => 500_000,
        1 => 450_000,
        2 => 420_000,
        _ => 480_000,
    };
    let reflection_open: i64 = match door_number {
        0 => 30_000,
        1 => 50_000,
        2 => 50_000,
        _ => 30_000,
    };
    ElectricSlidingPlugDoorPairProperties {
        friction: 50_000,
        open_start_speed,
        open_end_speed: 300_000,
        open_start_end_change_position: 600_000,
        close_start_speed,
        close_end_speed: 100_000,
        close_start_end_change_position: 200_000,
        traction_stiftness: 4_000_000,
        reflection_open,
        reflection_close: 50_000,
    }
}

/// The controller configuration shared by all four doors.
pub fn door_control_properties() -> (prop: DoorControlProperties)
    ensures
        prop.wf(),
        prop.request_time == DOOR_REQUEST_TIME,
        prop.warning_time == DOOR_WARNING_TIME,
{
    DoorControlProperties {
        request_time: DOOR_REQUEST_TIME,
        warning_time: DOOR_WARNING_TIME,
    }
}

/// The inside warning blink pattern.
pub fn inside_warn_blink_properties(light: String, sound: String)
    -> (prop: BlinkRelaisWithLightAndSoundProperties)
    ensures
        prop.blink_relais_properties.wf(),
        prop.blink_relais_properties.interval == 777_000,
        prop.blink_relais_properties.on_time == 388_000,
        prop.blink_relais_properties.spec_reset_time() == 0,
{
    BlinkRelaisWithLightAndSoundProperties {
        blink_relais_properties: BlinkRelaisProperties {
            interval: 777_000,
            on_time: 388_000,
            reset_time: None,
        },
        light_and_sound: LightAndSoundVarPair { light, sound },
    }
}

/// The outside warning configuration: thirty seconds after closing, cut
/// off above walking speed.
pub fn outside_warning_properties()
    -> (prop: DoorWarningOutsideRelayWithStopOnSpeedProperties)
    ensures
        prop.wf(),
        prop.timer_after_closed == 30_000_000,
        prop.max_speed == 833_333,
{
    DoorWarningOutsideRelayWithStopOnSpeedProperties {
        timer_after_closed: 30_000_000,
        max_speed: 833_333,
    }
}

/// The outside warning blink pattern.
pub fn outside_warn_blink_properties(light: String, sound: String)
    -> (prop: BlinkRelaisWithLightAndSoundProperties)
    ensures
        prop.blink_relais_properties.wf(),
        prop.blink_relais_properties.interval == 393_000,
        prop.blink_relais_properties.on_time == 196_000,
        prop.blink_relais_properties.spec_reset_time() == 0,
{
    BlinkRelaisWithLightAndSoundProperties {
        blink_relais_properties: BlinkRelaisProperties {
            interval: 393_000,
            on_time: 196_000,
            reset_time: None,
        },
        light_and_sound: LightAndSoundVarPair { light, sound },
    }
}

/// The override handed to a pair's controller: the driver's override for
/// the first door, none for the others.
pub open spec fn pair_force(door_number: int, override_mode: DoorControlMode)
    -> Option<DoorControlMode> {
    if door_number == 0 {
        Some(override_mode)
    } else {
        Option::<DoorControlMode>::None
    }
}

/// The duration a pair's open timer is configured with this tick: the
/// request time while released, the warning time otherwise.
pub open spec fn pair_time0(released: bool) -> int {
    if released {
        DOOR_REQUEST_TIME as int
    } else {
        DOOR_WARNING_TIME as int
    }
}

/// The timer command a pair's controller derives this tick, from the
/// subsystem inputs and the pair's state before the tick.
pub open spec fn pair_timer_set(unit: DoorsWithController, request: bool, released: bool,
    system_active: bool) -> TimerSetVarTime {
    crate::tech_elements::doors::door_control_timer_set(
        system_active,
        request,
        released,
        released && !unit.control.prev_released,
        unit.door.position_state.value
            == ElectricSlidingPlugDoorPairPositionState::FullyClosed,
        DOOR_REQUEST_TIME,
    )
}

/// A pair's open-timer countdown after one tick.
pub open spec fn pair_timer_remaining(unit: DoorsWithController, request: bool,
    released: bool, system_active: bool, dt: int) -> int {
    crate::tech_elements::doors::door_control_remaining_after(
        unit.control.open_timer.remaining as int,
        pair_timer_set(unit, request, released, system_active),
        pair_time0(released),
        dt,
    )
}

/// The target a pair's controller commands this tick.
pub open spec fn pair_target(unit: DoorsWithController, request: bool, released: bool,
    system_active: bool, override_mode: DoorControlMode, door_number: int, dt: int)
    -> ElectricSlidingPlugDoorPairTarget {
    crate::tech_elements::doors::door_control_target(
        system_active,
        pair_force(door_number, override_mode),
        pair_timer_remaining(unit, request, released, system_active, dt) <= 0,
    )
}

/// A pair's leaf position after one subsystem tick: the leaf stepped under
/// the target its controller commands.
pub open spec fn pair_position_after(unit: DoorsWithController, request: bool,
    released: bool, system_active: bool, override_mode: DoorControlMode, door_number: int,
    dt: int) -> int {
    crate::tech_elements::doors::door_position_after(
        spec_door_pair_properties(door_number),
        unit.door.position as int,
        unit.door.speed as int,
        pair_target(unit, request, released, system_active, override_mode, door_number, dt),
        dt,
    )
}

/// A pair's leaf speed after one subsystem tick.
pub open spec fn pair_speed_after(unit: DoorsWithController, request: bool, released: bool,
    system_active: bool, override_mode: DoorControlMode, door_number: int, dt: int) -> int {
    crate::tech_elements::doors::door_speed_after(
        spec_door_pair_properties(door_number),
        unit.door.position as int,
        unit.door.speed as int,
        pair_target(unit, request, released, system_active, override_mode, door_number, dt),
        dt,
    )
}

/// A pair's sound events of one subsystem tick.
pub open spec fn pair_events_after(unit: DoorsWithController, request: bool, released: bool,
    system_active: bool, override_mode: DoorControlMode, door_number: int, dt: int)
    -> DoorSoundEvents {
    crate::tech_elements::doors::door_events_after(
        spec_door_pair_properties(door_number),
        unit.door.position as int,
        unit.door.speed as int,
        pair_target(unit, request, released, system_active, override_mode, door_number, dt),
        dt,
    )
}

/// A pair's warning after one subsystem tick: it is neither released nor
/// was it fully closed when its controller looked.
pub open spec fn pair_warning_after(unit: DoorsWithController, released: bool) -> bool {
    !released && unit.door.position_state.value
        != ElectricSlidingPlugDoorPairPositionState::FullyClosed
}

/// Whether the shared inside-warning relay of the trailing three doors
/// runs this tick.
pub open spec fn other_warn_running(s: DoorsState) -> bool {
    ||| pair_warning_after(s.doors_with_controller[1], s.released.value)
    ||| pair_warning_after(s.doors_with_controller[2], s.released.value)
    ||| pair_warning_after(s.doors_with_controller[3], s.released.value)
}

/// The shared inside-warning relay's lamp state after one subsystem tick.
pub open spec fn other_warn_on_after(s: DoorsState, dt: int) -> bool {
    let running = other_warn_running(s);
    let phase = if running {
        crate::tech_elements::simple::blink_phase_after(
            s.other_warn_relais.relais.timer as int, 777_000, dt)
    } else {
        0
    };
    running && phase < 388_000
}

/// What one door-subsystem tick reports to the host adapter.
pub struct DoorsTickOutputs {
    /// Each pair's sound events and its leaf position (millionths), for
    /// the plug geometry and the sounds.
    pub door_events: Vec<DoorSoundEvents>,
    /// Each pair's leaf position, millionths.
    pub door_positions: Vec<i64>,
    /// Lamp level and sound line of the first door's inside warning, when
    /// they changed.
    pub door_1_warn: (Option<i64>, Option<bool>),
    /// Lamp level and sound line of the other doors' inside warnings,
    /// when they changed.
    pub other_warn: Vec<(Option<i64>, Option<bool>)>,
    /// The outside warning line, when it changed.
    pub outside_warning_sound: Option<bool>,
    /// Lamp level and sound line of the outside warning blinker, when
    /// they changed.
    pub outside_warn_blink: (Option<i64>, Option<bool>),
}

impl DoorsState {
    /// Four doors, four requests, every part within its ranges.
    pub open spec fn wf(&self) -> bool {
        &&& self.doors_with_controller.len() == 4
        &&& self.requests.len() == 4
        &&& forall|i: int| 0 <= i < 4 ==> (#[trigger] self.doors_with_controller[i]).door.wf()
        &&& forall|i: int| 0 <= i < 4
            ==> (#[trigger] self.doors_with_controller[i]).control.wf()
        &&& self.door_1_warn_relais.relais.timer <= 777_000
        &&& 0 <= self.door_1_warn_relais.relais.timer
        &&& 0 <= self.other_warn_relais.relais.timer <= 777_000
        &&& self.other_warn_relais.prev_on.len() == 3
        &&& self.outside_relay.wf()
        &&& 0 <= self.outside_blink.relais.timer <= 393_000
    }
}

/// A fresh door subsystem: all doors closed, nothing released, nothing
/// requested, the first door on automatic.
pub fn doors() -> (s: DoorsState)
    ensures
        s.wf(),
        !s.released.value,
        s.door_1_override.value == DoorControlMode::Automatic,
        s.all_closed.value,
        forall|i: int| 0 <= i < 4 ==> (#[trigger] s.doors_with_controller[i]).closed.value,
        forall|i: int| 0 <= i < 4 ==> !(#[trigger] s.requests[i]).value,
{
    let mut doors_with_controller: Vec<DoorsWithController> = Vec::new();
    let mut requests: Vec<Shared<bool>> = Vec::new();
    let control_prop = door_control_properties();
    let mut i: usize = 0;
    while i < 4
        invariant
            0 <= i <= 4,
            doors_with_controller.len() == i,
            requests.len() == i,
            control_prop.wf(),
            forall|j: int| 0 <= j < i
                ==> (#[trigger] doors_with_controller[j]).door.wf(),
            forall|j: int| 0 <= j < i
                ==> (#[trigger] doors_with_controller[j]).control.wf(),
            forall|j: int| 0 <= j < i ==> (#[trigger] doors_with_controller[j]).closed.value,
            forall|j: int| 0 <= j < i ==> !(#[trigger] requests[j]).value,
        decreases 4 - i,
    {
        doors_with_controller.push(DoorsWithController {
            door: add_electric_sliding_plug_door_pair(),
            control: add_door_control(&control_prop),
            closed: Shared::new(true),
        });
        requests.push(Shared::new(false));
        i = i + 1;
    }

    let door_1_warn_prop = inside_warn_blink_properties(
        String::from_str("Door_1_WarnlightI"),
        String::from_str("Snd_Door_1_Warning"),
    );
    let multi_prop = BlinkRelaisMultipleEntriesProperties {
        interval: 777_000,
        on_time: 388_000,
        reset_time: None,
    };
    let outside_blink_prop = outside_warn_blink_properties(
        String::from_str("Door_1_WarnlightO"),
        String::from_str("Snd_Relais_Doorwarn"),
    );

    DoorsState {
        doors_with_controller,
        released: Shared::new(false),
        requests,
        vehicle_speed: Shared::new(0),
        door_1_override: Shared::new(DoorControlMode::Automatic),
        override_no_warning: Shared::new(false),
        all_closed: Shared::new(true),
        door_1_warn_relais: add_blink_relais_with_light_and_sound(&door_1_warn_prop),
        other_warn_relais: add_blink_relais_multiple_entries(&multi_prop, 3),
        outside_relay: add_door_warning_outside_relay_with_stop_on_speed(),
        outside_sound: BoolToSoundUnit::new(),
        outside_blink: add_blink_relais_with_light_and_sound(&outside_blink_prop),
    }
}

impl DoorsState {
    /// One tick of the whole door subsystem.  Each pair's controller
    /// derives the commanded target (the first door under its override)
    /// and the leaf steps under it; each pair's closed flag and the
    /// all-closed gate follow the discretized positions; the inside
    /// warning relays blink while their doors warn (the first door only on
    /// automatic), and the outside relay warns until its hold time after
    /// closing has passed, cut off above walking speed or on release.
    pub fn tick(&mut self, system_active: bool, dt: i64) -> (out: DoorsTickOutputs)
        requires
            old(self).wf(),
            0 < dt <= MAX_TICK,
            dt <= 393_000,
        ensures
            final(self).wf(),
            out.door_events.len() == 4,
            out.door_positions.len() == 4,
            out.other_warn.len() == 3,
            forall|i: int| 0 <= i < 4 ==> (#[trigger] final(self).doors_with_controller[i])
                .closed.value == (final(self).doors_with_controller[i].door
                    .position_state.value
                    == ElectricSlidingPlugDoorPairPositionState::FullyClosed),
            forall|i: int| 0 <= i < 4 ==> #[trigger] out.door_positions[i]
                == final(self).doors_with_controller[i].door.position
                && 0 <= out.door_positions[i] <= crate::standard_elements::SCALE,
            final(self).all_closed.value == (forall|i: int| 0 <= i < 4
                ==> (#[trigger] final(self).doors_with_controller[i]).closed.value),
            // each controller's warning follows what its door showed when
            // the controller looked, before the leaf moved this tick
            forall|i: int| 0 <= i < 4 ==> (#[trigger] final(self).doors_with_controller[i])
                .control.state.warning.value == (!old(self).released.value
                    && old(self).doors_with_controller[i].door.position_state.value
                        != ElectricSlidingPlugDoorPairPositionState::FullyClosed),
            // each pair's controller stepped its open timer under the
            // derived command, and the leaf stepped under the commanded
            // target, with the events of exactly that step
            forall|i: int| 0 <= i < 4 ==> (#[trigger] final(self).doors_with_controller[i])
                .control.prev_released == old(self).released.value,
            forall|i: int| 0 <= i < 4 ==> (#[trigger] final(self).doors_with_controller[i])
                .control.open_timer.time
                == crate::tech_elements::simple::timer_var_time_after_time(
                    pair_time0(old(self).released.value),
                    pair_timer_set(old(self).doors_with_controller[i],
                        old(self).requests[i].value, old(self).released.value,
                        system_active)),
            forall|i: int| 0 <= i < 4 ==> (#[trigger] final(self).doors_with_controller[i])
                .control.open_timer.remaining == pair_timer_remaining(
                    old(self).doors_with_controller[i], old(self).requests[i].value,
                    old(self).released.value, system_active, dt as int),
            forall|i: int| 0 <= i < 4 ==> (#[trigger] final(self).doors_with_controller[i])
                .door.position == pair_position_after(old(self).doors_with_controller[i],
                    old(self).requests[i].value, old(self).released.value, system_active,
                    old(self).door_1_override.value, i, dt as int),
            forall|i: int| 0 <= i < 4 ==> (#[trigger] final(self).doors_with_controller[i])
                .door.speed == pair_speed_after(old(self).doors_with_controller[i],
                    old(self).requests[i].value, old(self).released.value, system_active,
                    old(self).door_1_override.value, i, dt as int),
            forall|i: int| 0 <= i < 4 ==> (#[trigger] out.door_events[i])
                == pair_events_after(old(self).doors_with_controller[i],
                    old(self).requests[i].value, old(self).released.value, system_active,
                    old(self).door_1_override.value, i, dt as int),
            // the first door's inside warning relay ran exactly while that
            // door warns on automatic, and emitted on change
            ({
                let running_1 = old(self).door_1_override.value == DoorControlMode::Automatic
                    && pair_warning_after(old(self).doors_with_controller[0],
                        old(self).released.value);
                let phase = if running_1 {
                    blink_phase_after(old(self).door_1_warn_relais.relais.timer as int,
                        777_000, dt as int)
                } else {
                    0int
                };
                let on_1 = running_1 && phase < 388_000;
                &&& final(self).door_1_warn_relais.relais.timer == phase
                &&& final(self).door_1_warn_relais.state.on.value == on_1
                &&& out.door_1_warn.0 == if old(self).door_1_warn_relais.float_unit.prev
                    == Some(on_1) {
                    Option::<i64>::None
                } else {
                    Some(if on_1 { crate::standard_elements::SCALE } else { 0i64 })
                }
                &&& out.door_1_warn.1 == if old(self).door_1_warn_relais.sound_unit.prev
                    == on_1 {
                    Option::<bool>::None
                } else {
                    Some(on_1)
                }
            }),
            // the shared relay of the other three doors ran while any of
            // them warns, each entry gated by its own warning
            final(self).other_warn_relais.relais.timer == if other_warn_running(*old(self)) {
                blink_phase_after(old(self).other_warn_relais.relais.timer as int, 777_000,
                    dt as int)
            } else {
                0int
            },
            final(self).other_warn_relais.relais_state.on.value
                == other_warn_on_after(*old(self), dt as int),
            forall|k: int| 0 <= k < 3 ==> (#[trigger] out.other_warn[k]).0 == gate_light(
                old(self).other_warn_relais.prev_on[k],
                pair_warning_after(old(self).doors_with_controller[k + 1],
                    old(self).released.value) && other_warn_on_after(*old(self), dt as int)),
            forall|k: int| 0 <= k < 3 ==> (#[trigger] out.other_warn[k]).1 == gate_sound(
                old(self).other_warn_relais.prev_on[k],
                pair_warning_after(old(self).doors_with_controller[k + 1],
                    old(self).released.value) && other_warn_on_after(*old(self), dt as int)),
            // the outside relay's timer stepped under the derived command
            ({
                let set_o = if old(self).outside_relay.skip > 0 {
                    old(self).outside_relay.last_set
                } else {
                    crate::tech_elements::doors::door_warning_timer_set(
                        old(self).released.value, old(self).outside_relay.prev_released,
                        final(self).all_closed.value, old(self).vehicle_speed.value as int,
                        833_333)
                };
                final(self).outside_relay.timer.remaining == timer_after(
                    old(self).outside_relay.timer.remaining as int, set_o, 30_000_000,
                    dt as int)
            }),
            // the outside warning is the negation of its hold timer's
            // expiry, emitted on change, and its blinker followed it
            final(self).outside_relay.state.warning.value
                == !final(self).outside_relay.timer.spec_expired(),
            ({
                let warn_o = !final(self).outside_relay.timer.spec_expired();
                let phase_b = if warn_o {
                    blink_phase_after(old(self).outside_blink.relais.timer as int, 393_000,
                        dt as int)
                } else {
                    0int
                };
                let on_b = warn_o && phase_b < 196_000;
                &&& final(self).outside_blink.relais.timer == phase_b
                &&& final(self).outside_blink.state.on.value == on_b
                &&& out.outside_warning_sound == if old(self).outside_sound.prev == warn_o {
                    Option::<bool>::None
                } else {
                    Some(warn_o)
                }
                &&& out.outside_warn_blink.0 == if old(self).outside_blink.float_unit.prev
                    == Some(on_b) {
                    Option::<i64>::None
                } else {
                    Some(if on_b { crate::standard_elements::SCALE } else { 0i64 })
                }
                &&& out.outside_warn_blink.1 == if old(self).outside_blink.sound_unit.prev
                    == on_b {
                    Option::<bool>::None
                } else {
                    Some(on_b)
                }
            }),
            final(self).released == old(self).released,
            final(self).vehicle_speed == old(self).vehicle_speed,
            final(self).door_1_override == old(self).door_1_override,
            final(self).requests == old(self).requests,
    {
        let released = self.released.get();
        let speed = self.vehicle_speed.get();
        let override_mode = self.door_1_override.get();
        let control_prop = door_control_properties();

        let mut units: Vec<DoorsWithController> = Vec::new();
        core::mem::swap(&mut units, &mut self.doors_with_controller);

        let mut done: Vec<DoorsWithController> = Vec::new();
        let mut door_events: Vec<DoorSoundEvents> = Vec::new();
        let mut door_positions: Vec<i64> = Vec::new();
        let mut warnings: Vec<bool> = Vec::new();
        let ghost orig = units@;

        let mut i: usize = 0;
        while i < 4
            invariant
                0 <= i <= 4,
                units@ =~= orig.skip(i as int),
                orig.len() == 4,
                forall|j: int| 0 <= j < 4 ==> (#[trigger] orig[j]).door.wf(),
                forall|j: int| 0 <= j < 4 ==> (#[trigger] orig[j]).control.wf(),
                done.len() == i,
                door_events.len() == i,
                door_positions.len() == i,
                warnings.len() == i,
                self.requests.len() == 4,
                control_prop.wf(),
                control_prop.request_time == DOOR_REQUEST_TIME,
                control_prop.warning_time == DOOR_WARNING_TIME,
                0 < dt <= MAX_TICK,
                forall|j: int| 0 <= j < i ==> (#[trigger] done[j]).door.wf(),
                forall|j: int| 0 <= j < i ==> (#[trigger] done[j]).control.wf(),
                forall|j: int| 0 <= j < i ==> (#[trigger] done[j]).closed.value
                    == (done[j].door.position_state.value
                        == ElectricSlidingPlugDoorPairPositionState::FullyClosed),
                forall|j: int| 0 <= j < i ==> #[trigger] door_positions[j]
                    == done[j].door.position
                    && 0 <= door_positions[j] <= crate::standard_elements::SCALE,
                released == old(self).released.value,
                override_mode == old(self).door_1_override.value,
                self.requests@ =~= old(self).requests@,
                orig =~= old(self).doors_with_controller@,
                forall|j: int| 0 <= j < i ==> (#[trigger] done[j]).control.state.warning.value
                    == pair_warning_after(orig[j], released),
                forall|j: int| 0 <= j < i ==> #[trigger] warnings[j]
                    == done[j].control.state.warning.value,
                forall|j: int| 0 <= j < i ==> (#[trigger] done[j]).control.prev_released
                    == released,
                forall|j: int| 0 <= j < i ==> (#[trigger] done[j]).control.open_timer.time
                    == crate::tech_elements::simple::timer_var_time_after_time(
                        pair_time0(released),
                        pair_timer_set(orig[j], old(self).requests[j].value, released,
                            system_active)),
                forall|j: int| 0 <= j < i ==> (#[trigger] done[j]).control.open_timer
                    .remaining == pair_timer_remaining(orig[j],
                        old(self).requests[j].value, released, system_active, dt as int),
                forall|j: int| 0 <= j < i ==> (#[trigger] done[j]).door.position
                    == pair_position_after(orig[j], old(self).requests[j].value, released,
                        system_active, override_mode, j, dt as int),
                forall|j: int| 0 <= j < i ==> (#[trigger] done[j]).door.speed
                    == pair_speed_after(orig[j], old(self).requests[j].value, released,
                        system_active, override_mode, j, dt as int),
                forall|j: int| 0 <= j < i ==> #[trigger] door_events[j]
                    == pair_events_after(orig[j], old(self).requests[j].value, released,
                        system_active, override_mode, j, dt as int),
            decreases 4 - i,
        {
            let mut unit = units.remove(0);
            let request = self.requests[i].get();
            let force: Option<DoorControlMode> = if i == 0 { Some(override_mode) } else {
                None
            };
            let door_prop = door_pair_properties(i);
            let target = unit.control.tick(
                &control_prop,
                system_active,
                request,
                released,
                force,
                unit.door.position_state.get(),
                dt,
            );
            let events = unit.door.tick(&door_prop, target, dt);
            let closed_now = unit.door.position_state.get()
                == ElectricSlidingPlugDoorPairPositionState::FullyClosed;
            unit.closed.set_only_on_change(closed_now);
            warnings.push(unit.control.state.warning.get());
            door_events.push(events);
            door_positions.push(unit.door.position);
            done.push(unit);
            i = i + 1;
        }
        core::mem::swap(&mut done, &mut self.doors_with_controller);

        let mut all = true;
        let mut k: usize = 0;
        while k < 4
            invariant
                0 <= k <= 4,
                self.doors_with_controller.len() == 4,
                all == (forall|j: int| 0 <= j < k
                    ==> (#[trigger] self.doors_with_controller[j]).closed.value),
            decreases 4 - k,
        {
            if !self.doors_with_controller[k].closed.get() {
                all = false;
                proof {
                    assert(!(forall|j: int| 0 <= j < k + 1
                        ==> (#[trigger] self.doors_with_controller[j]).closed.value));
                }
            }
            k = k + 1;
        }
        self.all_closed.set_only_on_change(all);

        // first door's inside warning: only on automatic
        let door_1_auto = override_mode == DoorControlMode::Automatic;
        proof {
            assert(warnings@[0] == pair_warning_after(old(self).doors_with_controller@[0],
                old(self).released.value));
        }
        let door_1_warn_prop = inside_warn_blink_properties(
            String::from_str("Door_1_WarnlightI"),
            String::from_str("Snd_Door_1_Warning"),
        );
        let door_1_warn = self.door_1_warn_relais.tick(
            &door_1_warn_prop,
            door_1_auto && warnings[0],
            dt,
        );

        // the other doors share one relay
        let multi_prop = BlinkRelaisMultipleEntriesProperties {
            interval: 777_000,
            on_time: 388_000,
            reset_time: None,
        };
        let mut other_actives: Vec<bool> = Vec::new();
        other_actives.push(warnings[1]);
        other_actives.push(warnings[2]);
        other_actives.push(warnings[3]);
        proof {
            let s = other_actives@;
            assert(s[0] == warnings@[1]);
            assert(s[1] == warnings@[2]);
            assert(s[2] == warnings@[3]);
            assert(any_set(s) == (s[0] || s[1] || s[2])) by {
                if s[0] {
                    assert(any_set(s));
                }
                if s[1] {
                    assert(any_set(s));
                }
                if s[2] {
                    assert(any_set(s));
                }
                if any_set(s) {
                    let w = choose|w: int| 0 <= w < s.len() && s[w];
                    assert(w == 0 || w == 1 || w == 2);
                }
            }
            assert((s[0] || s[1] || s[2]) == other_warn_running(*old(self)));
        }
        let other_warn = self.other_warn_relais.tick(&multi_prop, &other_actives, dt);

        // the outside warning relay and its blinker
        let outside_prop = outside_warning_properties();
        self.outside_relay.tick(released, all, speed, &outside_prop, dt);
        let outside_warning = self.outside_relay.state.warning.get();
        let outside_warning_sound = self.outside_sound.tick(outside_warning);
        let outside_blink_prop = outside_warn_blink_properties(
            String::from_str("Door_1_WarnlightO"),
            String::from_str("Snd_Relais_Doorwarn"),
        );
        let outside_warn_blink = self.outside_blink.tick(&outside_blink_prop,
            outside_warning, dt);

        DoorsTickOutputs {
            door_events,
            door_positions,
            door_1_warn,
            other_warn,
            outside_warning_sound,
            outside_warn_blink,
        }
    }
}

} // verus!
