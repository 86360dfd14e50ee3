//! The wiring layer: it connects the cockpit's cells to the traction,
//! light, door and miscellaneous subsystems.
//!
//! Every connection is a per-tick decision from the current cell values to
//! the downstream cells; the host adapter steps them in a fixed order each
//! frame, so each edge has a latency of at most one tick.

use vstd::prelude::*;

use crate::cockpit::CockpitState;
use crate::cockpit_types::{BlinkerSwitch, DoorSwitch, OutsideLightSwitch, RichtungswenderState};
use crate::doors::DoorsState;
use crate::lights::{BlinkerState, LightState};
use crate::misc::MiscState;
use crate::passenger_elements::PassengerElementsState;
use crate::standard_elements::{mul_div_scale, mul_div_scale_spec, Shared, SCALE};
use crate::tech_elements::doors::DoorControlMode;
use crate::tech_elements::simple::{delay_relay_after, DelayRelay, DelayRelayProperties,
    MAX_TICK};
use crate::traction::{TractionDirection, TractionState};

verus! {

/// The six subsystems the wiring layer connects.
pub struct SystemStates {
    /// The driver's cockpit.
    pub cockpit: CockpitState,
    /// The passengers' controls.
    pub passenger: PassengerElementsState,
    /// Traction and brakes.
    pub traction: TractionState,
    /// Lights.
    pub lights: LightState,
    /// Odds and ends.
    pub misc: MiscState,
    /// Doors.
    pub doors: DoorsState,
}

/// Whether the leading cockpit is occupied: its direction selector is off
/// the zero position.
pub open spec fn spec_cockpit_a_active(rw: RichtungswenderState) -> bool {
    rw != RichtungswenderState::O
}

/// Whether the leading cockpit commands a driving direction.
pub open spec fn spec_cockpit_a_drive(rw: RichtungswenderState) -> bool {
    rw == RichtungswenderState::V || rw == RichtungswenderState::R
}

/// Whether the leading cockpit is occupied, as
/// [`spec_cockpit_a_active`] states it.
pub fn cockpit_a_active(rw: RichtungswenderState) -> (r: bool)
    ensures
        r == spec_cockpit_a_active(rw),
{
    rw != RichtungswenderState::O
}

/// Whether the leading cockpit commands a driving direction, as
/// [`spec_cockpit_a_drive`] states it.
pub fn cockpit_a_drive(rw: RichtungswenderState) -> (r: bool)
    ensures
        r == spec_cockpit_a_drive(rw),
{
    rw == RichtungswenderState::V || rw == RichtungswenderState::R
}

/// The driving direction the selector commands: forward in the forward
/// position, backward in reverse, neutral otherwise or with no cockpit
/// occupied.
pub fn traction_direction(active: bool, rw: RichtungswenderState) -> (d: TractionDirection)
    ensures
        d == if active {
            match rw {
                RichtungswenderState::V => TractionDirection::Forward,
                RichtungswenderState::R => TractionDirection::Backward,
                _ => TractionDirection::Neutral,
            }
        } else {
            TractionDirection::Neutral
        },
{
    if active {
        match rw {
            RichtungswenderState::V => TractionDirection::Forward,
            RichtungswenderState::R => TractionDirection::Backward,
            _ => TractionDirection::Neutral,
        }
    } else {
        TractionDirection::Neutral
    }
}

/// The traction demand the handle commands: zero with no cockpit
/// occupied, the braking side scaled up by one ninth, the throttle side
/// as it stands.
pub fn traction_target(active: bool, sollwertgeber: i64) -> (t: i64)
    requires
        -SCALE <= sollwertgeber <= SCALE,
    ensures
        t == if active {
            if sollwertgeber < 0 {
                mul_div_scale_spec(sollwertgeber as int, 1_111_000)
            } else {
                sollwertgeber as int
            }
        } else {
            0int
        },
{
    if active {
        if sollwertgeber < 0 {
            mul_div_scale(sollwertgeber, 1_111_000)
        } else {
            sollwertgeber
        }
    } else {
        0
    }
}

/// Whether the rail brake is commanded: its button, gated on an occupied
/// cockpit.
pub fn mg_target(active: bool, mg_bremse: bool) -> (r: bool)
    ensures
        r == (active && mg_bremse),
{
    active && mg_bremse
}

/// Whether the bell rings: the rail-brake button or the bell button, gated
/// on an occupied cockpit.
pub fn bell_target(active: bool, mg_bremse: bool, klingel: bool) -> (r: bool)
    ensures
        r == ((mg_bremse || klingel) && active),
{
    (mg_bremse || klingel) && active
}

/// Whether the telltale lamp test runs: its button, gated on an occupied
/// cockpit.
pub fn lamp_test_target(active: bool, lightcheck: bool) -> (r: bool)
    ensures
        r == (lightcheck && active),
{
    lightcheck && active
}

/// Whether the parking-brake telltale's own line is on: the brake applied,
/// gated on an occupied cockpit.
pub fn federspeicher_lamp(active: bool, federspeicher: bool) -> (r: bool)
    ensures
        r == (federspeicher && active),
{
    federspeicher && active
}

/// The position the door switch springs back to when its input is let go:
/// the spring-loaded first-door position returns to closed, every other
/// position holds.
pub fn door_switch_spring_return(current: DoorSwitch) -> (r: DoorSwitch)
    ensures
        r == if current == DoorSwitch::Tuer1 { DoorSwitch::Closed } else { current },
{
    if current == DoorSwitch::Tuer1 {
        DoorSwitch::Closed
    } else {
        current
    }
}

/// The spring-loaded parking brake's wiring: its demand follows the cab
/// state and the override, but a change reaches the brake only after a
/// short delay.
pub struct Federspeicher {
    /// Demand seen on the previous tick.
    pub prev: bool,
    /// The pending change, with the time left before it is applied.
    pub pending: Option<(bool, i64)>,
}

/// The delay between a parking-brake demand change and its application,
/// microseconds.
pub const FEDERSPEICHER_DELAY: i64 = 300_000;

/// The parking-brake demand: applied whenever no driving direction is
/// commanded, and also under the override while the cockpit is occupied.
pub open spec fn federspeicher_demand(drive: bool, active: bool, overwrite: bool) -> bool {
    !drive || (active && overwrite)
}

/// A fresh parking-brake wiring with nothing pending.
pub fn federspeicher_new() -> (f: Federspeicher)
    ensures
        !f.prev,
        f.pending is None,
{
    Federspeicher { prev: false, pending: None }
}

impl Federspeicher {
    /// The pending countdown is within the delay.
    pub open spec fn wf(&self) -> bool {
        match self.pending {
            Some(p) => 0 <= p.1 <= FEDERSPEICHER_DELAY,
            None => true,
        }
    }

    /// One tick: a change of the demand arms the delay with the changed
    /// value; the delay runs down and at expiry the armed value is
    /// returned to be committed to the brake.
    pub fn tick(&mut self, drive: bool, active: bool, overwrite: bool, dt: i64)
        -> (commit: Option<bool>)
        requires
            old(self).wf(),
            0 <= dt <= MAX_TICK,
        ensures
            final(self).wf(),
            ({
                let demand = federspeicher_demand(drive, active, overwrite);
                match old(self).pending {
                    Some(p) => {
                        &&& if p.1 <= dt {
                            &&& commit == Some(p.0)
                            &&& final(self).pending is None
                            &&& final(self).prev == p.0
                        } else {
                            &&& commit is None
                            &&& final(self).pending == Some((p.0, (p.1 - dt) as i64))
                            &&& final(self).prev == old(self).prev
                        }
                    },
                    None => {
                        &&& commit is None
                        &&& if demand != old(self).prev {
                            final(self).pending == Some((demand, FEDERSPEICHER_DELAY))
                        } else {
                            final(self).pending is None
                        }
                        &&& final(self).prev == old(self).prev
                    },
                }
            }),
    {
        match self.pending {
            Some((value, remaining)) => {
                if remaining <= dt {
                    self.pending = None;
                    self.prev = value;
                    Some(value)
                } else {
                    self.pending = Some((value, remaining - dt));
                    None
                }
            },
            None => {
                let demand = !drive || (active && overwrite);
                if demand != self.prev {
                    self.pending = Some((demand, FEDERSPEICHER_DELAY));
                }
                None
            },
        }
    }
}

/// The sanding wiring: the sanding command follows the button gated on an
/// occupied cockpit, committed only on change.
pub struct SandingUnitWiring {
    /// Value committed last.
    pub prev: bool,
}

/// A fresh sanding wiring, idle.
pub fn sanding_unit_new() -> (s: SandingUnitWiring)
    ensures
        !s.prev,
{
    SandingUnitWiring { prev: false }
}

impl SandingUnitWiring {
    /// One tick: the gated button value, if it changed since the last
    /// commit.
    pub fn tick(&mut self, sanden: bool, active: bool) -> (commit: Option<bool>)
        ensures
            final(self).prev == (sanden && active),
            commit == if (sanden && active) != old(self).prev {
                Some(sanden && active)
            } else {
                Option::<bool>::None
            },
    {
        let new_value = sanden && active;
        if new_value != self.prev {
            self.prev = new_value;
            Some(new_value)
        } else {
            None
        }
    }
}

/// What the outside-light decision drives.
pub struct OutsideLightsOutputs {
    /// Position lights (also the tail lights and the instrument
    /// lighting).
    pub standlicht: bool,
    /// Low beam.
    pub abblend: bool,
    /// High beam (also its telltale).
    pub fern: bool,
    /// Reversing light.
    pub rueckfahr: bool,
    /// Brake lights.
    pub brems: bool,
}

/// The outside-light decision: position lights from the switch alone, low
/// and high beam gated on an occupied cockpit, the reversing light on
/// reverse, the brake lights on a braking handle.
pub fn outside_lights(active: bool, switch_aussen: OutsideLightSwitch,
    rw: RichtungswenderState, sollwertgeber: i64) -> (out: OutsideLightsOutputs)
    ensures
        out.standlicht == (switch_aussen != OutsideLightSwitch::Off),
        out.abblend == ((switch_aussen == OutsideLightSwitch::Abblend
            || switch_aussen == OutsideLightSwitch::Fern) && active),
        out.fern == (switch_aussen == OutsideLightSwitch::Fern && active),
        out.rueckfahr == (rw == RichtungswenderState::R),
        out.brems == (sollwertgeber < 0),
{
    let switch_standlicht = switch_aussen != OutsideLightSwitch::Off;
    let switch_abblend = switch_aussen == OutsideLightSwitch::Abblend
        || switch_aussen == OutsideLightSwitch::Fern;
    let switch_fern = switch_aussen == OutsideLightSwitch::Fern;
    OutsideLightsOutputs {
        standlicht: switch_standlicht,
        abblend: switch_abblend && active,
        fern: switch_fern && active,
        rueckfahr: rw == RichtungswenderState::R,
        brems: sollwertgeber < 0,
    }
}

/// The indicator decision: hazard overrides everything, then the lever
/// while the cockpit is occupied, otherwise off.
pub fn blinker_state_of(active: bool, warnblinker: bool, blinker: BlinkerSwitch)
    -> (s: BlinkerState)
    ensures
        s == if warnblinker {
            BlinkerState::Warn
        } else if active {
            match blinker {
                BlinkerSwitch::Left => BlinkerState::Links,
                BlinkerSwitch::Right => BlinkerState::Rechts,
                BlinkerSwitch::Off => BlinkerState::Aus,
            }
        } else {
            BlinkerState::Aus
        },
{
    if warnblinker {
        BlinkerState::Warn
    } else if active {
        match blinker {
            BlinkerSwitch::Left => BlinkerState::Links,
            BlinkerSwitch::Right => BlinkerState::Rechts,
            BlinkerSwitch::Off => BlinkerState::Aus,
        }
    } else {
        BlinkerState::Aus
    }
}

/// The cockpit-light decision: the main light from the second step up,
/// the second light from the first.
pub fn inside_lights(fahrerraum: i8) -> (r: (bool, bool))
    ensures
        r.0 == (fahrerraum >= 2),
        r.1 == (fahrerraum >= 1),
{
    (fahrerraum >= 2, fahrerraum >= 1)
}

/// The next override of the first door when its switch position is
/// entered again: automatic opens, open closes, closed opens.
pub open spec fn door_override_next(mode: DoorControlMode) -> DoorControlMode {
    match mode {
        DoorControlMode::Automatic => DoorControlMode::Open,
        DoorControlMode::Open => DoorControlMode::Close,
        DoorControlMode::Close => DoorControlMode::Open,
    }
}

/// The door wiring between the cockpit, the passengers and the door
/// subsystem.
pub struct DoorWiring {
    /// Whether the door switch addressed the first door on the previous
    /// tick.
    pub prev_switch_door_1: bool,
    /// Debounce of the doors-closed telltale: a tenth of a second in, none
    /// out.
    pub closed_relay: DelayRelay,
}

/// The delays of the doors-closed telltale relay.
pub open spec fn doors_closed_delays() -> DelayRelayProperties {
    DelayRelayProperties { on_delay: 100_000, off_delay: 0 }
}

/// Speed below which the doors may be released, millionths of a metre per
/// second.
pub const DOOR_RELEASE_MAX_SPEED: i64 = 1_000_000;

/// A fresh door wiring, doors unreleased.
pub fn door_wiring_new() -> (w: DoorWiring)
    ensures
        !w.prev_switch_door_1,
        w.closed_relay.wf(),
        !w.closed_relay.output,
{
    DoorWiring { prev_switch_door_1: false, closed_relay: DelayRelay::new(false) }
}

/// What one door-wiring tick drives.
pub struct DoorWiringOutputs {
    /// Level of the release lamp at the door buttons.
    pub release_lamp: bool,
    /// Level of each door button's own lamp.
    pub button_lamps: Vec<bool>,
}

impl DoorWiring {
    /// The debounce relay is within its ranges.
    pub open spec fn wf(&self) -> bool {
        self.closed_relay.wf()
    }

    /// One wiring tick.  The doors are released while the switch stands
    /// on released or open and the vehicle is slow; every door is
    /// requested on open, and each door also by its own (released)
    /// button; the doors-closed telltale shows closed-and-unreleased
    /// through the debounce; entering the first-door switch position
    /// cycles the first door's override, and releasing the doors puts it
    /// back on automatic.
    pub fn tick(
        &mut self,
        doors: &mut DoorsState,
        cockpit: &mut CockpitState,
        passenger: &PassengerElementsState,
        speed: i64,
        dt: i64,
    ) -> (out: DoorWiringOutputs)
        requires
            old(self).wf(),
            old(doors).wf(),
            passenger.door_buttons.len() == 4,
            0 <= dt <= MAX_TICK,
        ensures
            final(self).wf(),
            final(doors).wf(),
            ({
                let door_switch = old(cockpit).tueren.value;
                let released = (door_switch == DoorSwitch::Released
                    || door_switch == DoorSwitch::Open) && speed < DOOR_RELEASE_MAX_SPEED;
                let all_request = released && door_switch == DoorSwitch::Open;
                let switch_door_1 = door_switch == DoorSwitch::Tuer1;
                &&& out.release_lamp == released
                &&& out.button_lamps.len() == 4
                &&& forall|i: int| 0 <= i < 4 ==> #[trigger] out.button_lamps[i]
                    == passenger.door_buttons[i].pressed.value
                &&& forall|i: int| 0 <= i < 4 ==> (#[trigger] final(doors).requests[i]).value
                    == (all_request || (passenger.door_buttons[i].pressed.value
                        && released))
                &&& final(doors).released.value == released
                &&& final(doors).vehicle_speed.value == speed
                &&& final(self).prev_switch_door_1 == switch_door_1
                &&& final(self).closed_relay == delay_relay_after(old(self).closed_relay,
                    doors_closed_delays(), !released && old(doors).all_closed.value,
                    dt as int)
                &&& final(cockpit).lm_doors_closed.value == final(self).closed_relay.output
                &&& final(doors).door_1_override.value == ({
                    if !old(self).prev_switch_door_1 && switch_door_1 {
                        door_override_next(old(doors).door_1_override.value)
                    } else if released {
                        DoorControlMode::Automatic
                    } else {
                        old(doors).door_1_override.value
                    }
                })
            }),
    {
        let door_switch = cockpit.tueren.get();
        let doors_closed = doors.all_closed.get();
        let released = (door_switch == DoorSwitch::Released
            || door_switch == DoorSwitch::Open) && speed < DOOR_RELEASE_MAX_SPEED;
        let all_request = released && door_switch == DoorSwitch::Open;
        let switch_door_1 = door_switch == DoorSwitch::Tuer1;

        let mut button_lamps: Vec<bool> = Vec::new();
        let mut cells: Vec<Shared<bool>> = Vec::new();
        core::mem::swap(&mut cells, &mut doors.requests);
        let ghost orig_requests = cells@;
        let mut new_cells: Vec<Shared<bool>> = Vec::new();
        let mut i: usize = 0;
        while i < 4
            invariant
                0 <= i <= 4,
                button_lamps.len() == i,
                new_cells.len() == i,
                passenger.door_buttons.len() == 4,
                orig_requests.len() == 4,
                cells@ =~= orig_requests.skip(i as int),
                forall|j: int| 0 <= j < i ==> #[trigger] button_lamps[j]
                    == passenger.door_buttons[j].pressed.value,
                forall|j: int| 0 <= j < i ==> (#[trigger] new_cells[j]).value
                    == (all_request || (passenger.door_buttons[j].pressed.value && released)),
            decreases 4 - i,
        {
            let pressed = passenger.door_buttons[i].pressed.get();
            button_lamps.push(pressed);
            let want = all_request || (pressed && released);
            let mut cell = cells.remove(0);
            cell.set_only_on_change(want);
            new_cells.push(cell);
            i = i + 1;
        }
        core::mem::swap(&mut new_cells, &mut doors.requests);

        doors.released.set_only_on_change(released);
        doors.vehicle_speed.set_only_on_change(speed);

        let relay_prop = DelayRelayProperties { on_delay: 100_000, off_delay: 0 };
        self.closed_relay.tick(&relay_prop, !released && doors_closed, dt);
        cockpit.lm_doors_closed.set_only_on_change(self.closed_relay.output);

        if !self.prev_switch_door_1 && switch_door_1 {
            let next = match doors.door_1_override.get() {
                DoorControlMode::Automatic => DoorControlMode::Open,
                DoorControlMode::Open => DoorControlMode::Close,
                DoorControlMode::Close => DoorControlMode::Open,
            };
            doors.door_1_override.set(next);
        } else if released {
            doors.door_1_override.set(DoorControlMode::Automatic);
        }
        self.prev_switch_door_1 = switch_door_1;

        DoorWiringOutputs { release_lamp: released, button_lamps }
    }
}

} // verus!
