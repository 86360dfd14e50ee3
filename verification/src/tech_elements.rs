//! Cockpit hardware elements: buttons, switches and indicator lights.
//!
//! Each element is a small state machine stepped by the input edges the host
//! reports; the machine returns what must be written back (animation values,
//! sound triggers) as plain data.

use vstd::prelude::*;

use crate::standard_elements::Shared;

pub mod brake;
pub mod cockpit_simple;
pub mod combined;
pub mod doors;
pub mod drive_control;
pub mod physic;
pub mod simple;
pub mod traction;

verus! {

/// Configuration of a plain momentary button.
pub struct ButtonProperties {
    /// Name of the input event the button listens to.
    pub input_event: String,
    /// Host variable that animates the button, if any.
    pub animation_var: Option<String>,
    /// Sound triggered when the button goes down, if any.
    pub sound_on: Option<String>,
    /// Sound triggered when the button comes up, if any.
    pub sound_off: Option<String>,
}

/// Configuration of a two-sided spring-loaded button.
pub struct ButtonTwoSidedSpringLoadedProperties {
    /// Input event of the plus side.
    pub input_event_plus: String,
    /// Input event of the minus side.
    pub input_event_minus: String,
    /// Host variable that animates the button, if any.
    pub animation_var: Option<String>,
    /// Sound triggered when either side goes down, if any.
    pub sound_on: Option<String>,
    /// Sound triggered on release, if any.
    pub sound_off: Option<String>,
}

/// Configuration of a multi-position step switch.
pub struct StepSwitchProperties {
    /// Highest position.
    pub position_max: i8,
    /// Lowest position.
    pub position_min: i8,
    /// Input event that steps the switch up.
    pub input_event_plus: String,
    /// Input event that steps the switch down.
    pub input_event_minus: String,
    /// Host variable that animates the switch, if any.
    pub animation_var: Option<String>,
    /// Sound triggered on every accepted step, if any.
    pub sound_move: Option<String>,
}

impl StepSwitchProperties {
    /// The position range is non-empty.
    pub open spec fn wf(&self) -> bool {
        self.position_min <= self.position_max
    }
}

/// A held-down momentary button: pressing commits `true`, releasing commits
/// `false`, each edge exactly once.
pub fn button_pressed_edge(pressed: &mut Shared<bool>, down: bool)
    ensures
        final(pressed).value == down,
        final(pressed).version != old(pressed).version,
{
    pressed.set(down);
}

/// One step of a step switch: the new position moves by one only while it
/// stays inside the configured range, and a move is what cues the switch
/// sound and the animation update.
pub fn step_switch_step(prop: &StepSwitchProperties, position: i8, up: bool) -> (r: (i8, bool))
    requires
        prop.wf(),
        prop.position_min <= position <= prop.position_max,
    ensures
        prop.position_min <= r.0 <= prop.position_max,
        r.0 == step_switch_next(prop.position_min as int, prop.position_max as int,
            position as int, up),
        r.1 == (r.0 != position),
{
    if up {
        if position < prop.position_max {
            (position + 1, true)
        } else {
            (position, false)
        }
    } else {
        if position > prop.position_min {
            (position - 1, true)
        } else {
            (position, false)
        }
    }
}

/// The position a step switch takes after one plus or minus input: one step
/// in that direction, held at the ends of the range.
pub open spec fn step_switch_next(min: int, max: int, position: int, up: bool) -> int {
    if up {
        if position < max {
            position + 1
        } else {
            position
        }
    } else {
        if position > min {
            position - 1
        } else {
            position
        }
    }
}

/// Configuration of an indicator light fed by the lamp-test line and the
/// battery voltage.
pub struct IndicatorLightProperties {
    /// Host variable the light level is written to.
    pub variable: String,
    /// Whether a lamp-test line is wired to this light.
    pub has_lighttest: bool,
}

/// The level an indicator light shows: the supply voltage while the light
/// or the lamp test asks for it, zero otherwise.
pub fn indicator_light_level(on: bool, lighttest: bool, voltage: i64) -> (level: i64)
    ensures
        level == if on || lighttest { voltage } else { 0i64 },
{
    if on || lighttest {
        voltage
    } else {
        0
    }
}

} // verus!
