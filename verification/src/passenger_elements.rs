//! The passengers' controls: the four door-request buttons.

use vstd::prelude::*;

use crate::tech_elements::cockpit_simple::{add_timed_button, TimedButton};

verus! {

/// The passengers' side of the vehicle: one timed door button per door.
pub struct PassengerElementsState {
    /// The door-request buttons, leading to trailing door.
    pub door_buttons: Vec<TimedButton>,
}

/// A fresh passenger subsystem: four idle door buttons.
pub fn passenger_elements() -> (s: PassengerElementsState)
    ensures
        s.door_buttons.len() == 4,
        forall|i: int| 0 <= i < 4 ==> (#[trigger] s.door_buttons[i]).wf()
            && !s.door_buttons[i].pressed.value,
{
    let mut door_buttons: Vec<TimedButton> = Vec::new();
    let mut i: usize = 0;
    while i < 4
        invariant
            0 <= i <= 4,
            door_buttons.len() == i,
            forall|j: int| 0 <= j < i ==> (#[trigger] door_buttons[j]).wf()
                && !door_buttons[j].pressed.value,
        decreases 4 - i,
    {
        door_buttons.push(add_timed_button());
        i = i + 1;
    }
    PassengerElementsState { door_buttons }
}

/// How long a door button stays on after a touch, microseconds.
pub const DOOR_BUTTON_ON_TIME: i64 = 2_000_000;

/// How long after switching off a door button cannot be touched again,
/// microseconds.
pub const DOOR_BUTTON_COOLDOWN: i64 = 1_000_000;

} // verus!
