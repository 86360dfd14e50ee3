//! Cockpit controls driven by per-cockpit input edges: buttons, switches
//! and indicator lights.
//!
//! Each control is a state machine stepped by the press and release edges
//! the host reports; what must be written back (animation values, sound
//! triggers) comes back as plain data for the host adapter to apply.

use vstd::prelude::*;

use crate::standard_elements::{Shared, SCALE};
use crate::tech_elements::simple::MAX_TICK;

verus! {

/// Whether an input edge addresses this cockpit: edges carrying no cockpit
/// index address every cockpit.
pub fn matches_cockpit_index(edge_index: Option<usize>, index: usize) -> (r: bool)
    ensures
        r == match edge_index {
            Some(i) => i == index,
            None => true,
        },
{
    match edge_index {
        Some(i) => i == index,
        None => true,
    }
}

/// Configuration of a plain momentary button.
pub struct ButtonProperties {
    /// Name of the input event the button listens to.
    pub input_event: String,
    /// Host variable that animates the button, if any.
    pub animation_var: Option<String>,
    /// Sound triggered when the button goes down, if any.
    pub sound_on: Option<String>,
    /// Sound triggered when the button comes up, if any.
    pub sound_off: Option<String>,
}

/// What a button tick asks the host to do.
#[derive(Debug, Clone, Copy, PartialEq, Eq, Structural)]
pub struct ButtonFeedback {
    /// Value the animation variable must show now, millionths, if it must
    /// change.
    pub animation: Option<i64>,
    /// Whether the press sound fires.
    pub sound_on: bool,
    /// Whether the release sound fires.
    pub sound_off: bool,
}

/// A plain momentary button: pressed while its input is held.
pub struct Button {
    /// Whether the button is held, as a cell for downstream observers.
    pub pressed: Shared<bool>,
}

/// A fresh button, not pressed.
pub fn add_button() -> (b: Button)
    ensures
        !b.pressed.value,
{
    Button { pressed: Shared::new(false) }
}

impl Button {
    /// The press edge: the button commits `true` and asks for the pressed
    /// animation and the press sound.
    pub fn on_pressed(&mut self) -> (f: ButtonFeedback)
        ensures
            final(self).pressed.value,
            final(self).pressed.version != old(self).pressed.version,
            f == (ButtonFeedback { animation: Some(SCALE), sound_on: true, sound_off: false }),
    {
        self.pressed.set(true);
        ButtonFeedback { animation: Some(SCALE), sound_on: true, sound_off: false }
    }

    /// The release edge: the button commits `false` and asks for the
    /// released animation and the release sound.
    pub fn on_released(&mut self) -> (f: ButtonFeedback)
        ensures
            !final(self).pressed.value,
            final(self).pressed.version != old(self).pressed.version,
            f == (ButtonFeedback { animation: Some(0i64), sound_on: false, sound_off: true }),
    {
        self.pressed.set(false);
        ButtonFeedback { animation: Some(0), sound_on: false, sound_off: true }
    }
}

/// Configuration of a touch button that stays on for a while.
pub struct TimedButtonProperties {
    /// Name of the input event the button listens to.
    pub input_event: String,
    /// How long the button stays on after a touch, microseconds.
    pub time_staying_on: i64,
    /// How long after switching off it cannot be touched again,
    /// microseconds.
    pub time_before_pressable_again: i64,
}

impl TimedButtonProperties {
    /// Both times are non-negative and within the accepted range.
    pub open spec fn wf(&self) -> bool {
        &&& 0 <= self.time_staying_on <= 1_000_000_000_000
        &&& 0 <= self.time_before_pressable_again <= 1_000_000_000_000
    }
}

/// The phases of a timed button.
#[derive(Debug, Clone, Copy, PartialEq, Eq, Structural)]
pub enum TimedButtonPhase {
    /// Waiting for a touch.
    Idle,
    /// On after a touch.
    On,
    /// Off, not yet touchable again.
    Cooldown,
}

/// A modern touch button: after a touch it stays pressed for a fixed
/// while, then cannot be activated again until a cooldown has passed.
pub struct TimedButton {
    /// Whether the button counts as pressed.
    pub pressed: Shared<bool>,
    /// Current phase.
    pub phase: TimedButtonPhase,
    /// Time left in the current phase, microseconds.
    pub remaining: i64,
}

/// A fresh timed button, idle.
pub fn add_timed_button() -> (b: TimedButton)
    ensures
        b.wf(),
        !b.pressed.value,
        b.phase == TimedButtonPhase::Idle,
{
    TimedButton { pressed: Shared::new(false), phase: TimedButtonPhase::Idle, remaining: 0 }
}

impl TimedButton {
    /// The phase countdown is within the accepted range.
    pub open spec fn wf(&self) -> bool {
        0 <= self.remaining <= 1_000_000_000_000
    }

    /// One tick: a touch in the idle phase turns the button on for the
    /// configured time; the on phase runs into the cooldown, the cooldown
    /// back to idle; touches in other phases are ignored.
    pub fn tick(&mut self, prop: &TimedButtonProperties, touched: bool, dt: i64)
        requires
            old(self).wf(),
            prop.wf(),
            0 <= dt <= MAX_TICK,
        ensures
            final(self).wf(),
            old(self).phase == TimedButtonPhase::Idle && touched ==> {
                &&& final(self).phase == TimedButtonPhase::On
                &&& final(self).remaining == prop.time_staying_on
                &&& final(self).pressed.value
            },
            old(self).phase == TimedButtonPhase::Idle && !touched ==> {
                &&& final(self).phase == TimedButtonPhase::Idle
                &&& final(self).pressed.value == old(self).pressed.value
            },
            old(self).phase == TimedButtonPhase::On ==> {
                &&& old(self).remaining > dt ==> final(self).phase == TimedButtonPhase::On
                    && final(self).remaining == old(self).remaining - dt
                    && final(self).pressed.value == old(self).pressed.value
                &&& old(self).remaining <= dt ==> final(self).phase
                    == TimedButtonPhase::Cooldown
                    && final(self).remaining == prop.time_before_pressable_again
                    && !final(self).pressed.value
            },
            old(self).phase == TimedButtonPhase::Cooldown ==> {
                &&& old(self).remaining > dt ==> final(self).phase
                    == TimedButtonPhase::Cooldown
                    && final(self).remaining == old(self).remaining - dt
                &&& old(self).remaining <= dt ==> final(self).phase == TimedButtonPhase::Idle
                    && final(self).remaining == 0
                &&& final(self).pressed.value == old(self).pressed.value
            },
    {
        match self.phase {
            TimedButtonPhase::Idle => {
                if touched {
                    self.phase = TimedButtonPhase::On;
                    self.remaining = prop.time_staying_on;
                    self.pressed.set(true);
                }
            },
            TimedButtonPhase::On => {
                if self.remaining > dt {
                    self.remaining = self.remaining - dt;
                } else {
                    self.phase = TimedButtonPhase::Cooldown;
                    self.remaining = prop.time_before_pressable_again;
                    self.pressed.set(false);
                }
            },
            TimedButtonPhase::Cooldown => {
                if self.remaining > dt {
                    self.remaining = self.remaining - dt;
                } else {
                    self.phase = TimedButtonPhase::Idle;
                    self.remaining = 0;
                }
            },
        }
    }
}

/// Configuration of a two-sided spring-loaded button.
pub struct ButtonTwoSidedSpringLoadedProperties {
    /// Input event of the plus side.
    pub input_event_plus: String,
    /// Input event of the minus side.
    pub input_event_minus: String,
    /// Host variable that animates the button, if any.
    pub animation_var: Option<String>,
    /// Sound triggered when either side goes down, if any.
    pub sound_on: Option<String>,
    /// Sound triggered on release, if any.
    pub sound_off: Option<String>,
}

/// State of a two-sided spring-loaded button.
#[derive(Debug, Clone, Copy, PartialEq, Eq, Structural, Default)]
pub enum ButtonTwoSidedSpringLoadedState {
    /// Held on the plus side.
    HoldOn,
    /// Sprung back to the middle.
    #[default]
    Released,
    /// Held on the minus side.
    HoldOff,
}

/// A two-sided spring-loaded button: held to either side while that side's
/// input is down, sprung back to the middle otherwise.
pub struct ButtonTwoSidedSpringLoaded {
    /// The current hold state, as a cell for downstream observers.
    pub state: Shared<ButtonTwoSidedSpringLoadedState>,
}

/// A fresh two-sided button, released.
pub fn add_button_twosided_springloaded() -> (b: ButtonTwoSidedSpringLoaded)
    ensures
        b.state.value == ButtonTwoSidedSpringLoadedState::Released,
{
    ButtonTwoSidedSpringLoaded { state: Shared::new(ButtonTwoSidedSpringLoadedState::Released) }
}

impl ButtonTwoSidedSpringLoaded {
    /// A side's press edge: the button holds to that side and asks for
    /// that side's animation and the press sound.
    pub fn on_side_pressed(&mut self, plus: bool) -> (f: ButtonFeedback)
        ensures
            final(self).state.value == if plus { ButtonTwoSidedSpringLoadedState::HoldOn } else {
                ButtonTwoSidedSpringLoadedState::HoldOff
            },
            final(self).state.version != old(self).state.version,
            f == (ButtonFeedback {
                animation: Some(if plus { SCALE } else { (-(SCALE as int)) as i64 }),
                sound_on: true,
                sound_off: false,
            }),
    {
        if plus {
            self.state.set(ButtonTwoSidedSpringLoadedState::HoldOn);
            ButtonFeedback { animation: Some(SCALE), sound_on: true, sound_off: false }
        } else {
            self.state.set(ButtonTwoSidedSpringLoadedState::HoldOff);
            ButtonFeedback { animation: Some(-SCALE), sound_on: true, sound_off: false }
        }
    }

    /// A side's release edge: the button springs back and asks for the
    /// middle animation and the release sound.
    pub fn on_side_released(&mut self) -> (f: ButtonFeedback)
        ensures
            final(self).state.value == ButtonTwoSidedSpringLoadedState::Released,
            final(self).state.version != old(self).state.version,
            f == (ButtonFeedback { animation: Some(0i64), sound_on: false, sound_off: true }),
    {
        self.state.set(ButtonTwoSidedSpringLoadedState::Released);
        ButtonFeedback { animation: Some(0), sound_on: false, sound_off: true }
    }
}

/// A latching in/out button: each press toggles it; the animation shows a
/// transient value while the input is held and settles on the latched
/// value at release.
pub struct ButtonInOut {
    /// Whether the button is latched in, as a cell for downstream
    /// observers.
    pub pressed: Shared<bool>,
}

/// A fresh in/out button, out.
pub fn add_button_inout() -> (b: ButtonInOut)
    ensures
        !b.pressed.value,
{
    ButtonInOut { pressed: Shared::new(false) }
}

impl ButtonInOut {
    /// The press edge: the latch toggles, the animation shows the pressed
    /// transient, and the press sound fires.
    pub fn on_pressed(&mut self) -> (f: ButtonFeedback)
        ensures
            final(self).pressed.value == !old(self).pressed.value,
            final(self).pressed.version != old(self).pressed.version,
            f == (ButtonFeedback {
                animation: Some(((2 * SCALE) as int) as i64),
                sound_on: true,
                sound_off: false,
            }),
    {
        let new_value = !self.pressed.get();
        self.pressed.set(new_value);
        ButtonFeedback { animation: Some(2i64 * SCALE), sound_on: true, sound_off: false }
    }

    /// The release edge: the animation settles on the latched value and
    /// the release sound fires.
    pub fn on_released(&self) -> (f: ButtonFeedback)
        ensures
            f == (ButtonFeedback {
                animation: Some(if self.pressed.value { SCALE } else { 0i64 }),
                sound_on: false,
                sound_off: true,
            }),
    {
        let animation: i64 = if self.pressed.get() { SCALE } else { 0 };
        ButtonFeedback { animation: Some(animation), sound_on: false, sound_off: true }
    }
}

/// Configuration of a two-position switch.
pub struct SwitchProperties {
    /// Input event that toggles the switch.
    pub input_event: String,
    /// Host variable that animates the switch, if any.
    pub animation_var: Option<String>,
    /// Sound triggered on every toggle, if any.
    pub sound_switch: Option<String>,
    /// Position the switch starts in, if any.
    pub standard_position: Option<bool>,
}

/// A two-position switch toggled by one input.
pub struct Switch {
    /// Current position, as a cell for downstream observers.
    pub position: Shared<bool>,
}

/// A fresh switch in the configured starting position, or off.
pub fn add_switch(prop: &SwitchProperties) -> (s: Switch)
    ensures
        s.position.value == match prop.standard_position {
            Some(p) => p,
            None => false,
        },
{
    let start = match prop.standard_position {
        Some(p) => p,
        None => false,
    };
    Switch { position: Shared::new(start) }
}

impl Switch {
    /// The toggle edge: the position flips, the animation follows it, and
    /// the switch sound fires.
    pub fn on_pressed(&mut self) -> (f: ButtonFeedback)
        ensures
            final(self).position.value == !old(self).position.value,
            final(self).position.version != old(self).position.version,
            f == (ButtonFeedback {
                animation: Some(if !old(self).position.value { SCALE } else { 0i64 }),
                sound_on: true,
                sound_off: false,
            }),
    {
        let new_value = !self.position.get();
        self.position.set(new_value);
        let animation: i64 = if new_value { SCALE } else { 0 };
        ButtonFeedback { animation: Some(animation), sound_on: true, sound_off: false }
    }
}

/// Configuration of a multi-position step switch.
pub struct StepSwitchProperties {
    /// Highest position.
    pub position_max: i8,
    /// Lowest position.
    pub position_min: i8,
    /// Input event that steps the switch up.
    pub input_event_plus: String,
    /// Input event that steps the switch down.
    pub input_event_minus: String,
    /// Host variable that animates the switch, if any.
    pub animation_var: Option<String>,
    /// Sound triggered on every accepted step, if any.
    pub sound_switch: Option<String>,
    /// Position the switch starts in, if any.
    pub standard_position: Option<i8>,
    /// Whether the lowest position springs back up on release.
    pub position_min_is_springloaded: Option<bool>,
}

impl StepSwitchProperties {
    /// The position range is non-empty.
    pub open spec fn wf(&self) -> bool {
        self.position_min <= self.position_max
    }
}

/// A multi-position step switch stepped by plus and minus inputs; its
/// lowest position can be spring-loaded.
pub struct StepSwitch {
    /// Current position, as a cell for downstream observers.
    pub position: Shared<i8>,
}

/// What a step-switch edge asks the host to do.
#[derive(Debug, Clone, Copy, PartialEq, Eq, Structural)]
pub struct StepSwitchFeedback {
    /// Value the animation variable must show now, millionths, if the
    /// switch moved.
    pub animation: Option<i64>,
    /// Whether the step sound fires.
    pub sound: bool,
}

/// A fresh step switch in the configured starting position if it lies in
/// the range, otherwise at zero clamped into the range.
pub fn add_step_switch(prop: &StepSwitchProperties) -> (s: StepSwitch)
    requires
        prop.wf(),
    ensures
        prop.position_min <= s.position.value <= prop.position_max,
        s.position.value == clamp_position(*prop, match prop.standard_position {
            Some(p) => p as int,
            None => 0int,
        }),
{
    let start: i8 = match prop.standard_position {
        Some(p) => p,
        None => 0,
    };
    let start: i8 = if start < prop.position_min {
        prop.position_min
    } else if start > prop.position_max {
        prop.position_max
    } else {
        start
    };
    StepSwitch { position: Shared::new(start) }
}

/// A position clamped into a step switch's range.
pub open spec fn clamp_position(prop: StepSwitchProperties, p: int) -> int {
    if p < prop.position_min {
        prop.position_min as int
    } else if p > prop.position_max {
        prop.position_max as int
    } else {
        p
    }
}

impl StepSwitch {
    /// The switch is inside its range.
    pub open spec fn wf(&self, prop: &StepSwitchProperties) -> bool {
        prop.position_min <= self.position.value <= prop.position_max
    }

    /// A plus or minus edge: the switch moves one step in that direction
    /// unless it rests at that end of the range; a move updates the
    /// animation and fires the step sound.
    pub fn on_step(&mut self, prop: &StepSwitchProperties, up: bool) -> (f: StepSwitchFeedback)
        requires
            old(self).wf(prop),
            prop.wf(),
            -100 <= prop.position_min && prop.position_max <= 100,
        ensures
            final(self).wf(prop),
            final(self).position.value == crate::tech_elements::step_switch_next(
                prop.position_min as int, prop.position_max as int,
                old(self).position.value as int, up),
            ({
                let moved = final(self).position.value != old(self).position.value;
                &&& f.sound == moved
                &&& f.animation == if moved {
                    Some((final(self).position.value as int * (SCALE as int)) as i64)
                } else {
                    Option::<i64>::None
                }
                &&& !moved ==> final(self).position == old(self).position
            }),
    {
        let p = self.position.get();
        let newval: i8 = if up {
            if p < prop.position_max {
                p + 1
            } else {
                p
            }
        } else {
            if p > prop.position_min {
                p - 1
            } else {
                p
            }
        };
        if newval != p {
            self.position.set(newval);
            let animation: i64 = (newval as i64) * SCALE;
            StepSwitchFeedback { animation: Some(animation), sound: true }
        } else {
            StepSwitchFeedback { animation: None, sound: false }
        }
    }

    /// The release edge of a spring-loaded lowest position: resting there,
    /// the switch springs one step back up.
    pub fn on_min_released(&mut self, prop: &StepSwitchProperties)
        -> (f: StepSwitchFeedback)
        requires
            old(self).wf(prop),
            prop.wf(),
            -100 <= prop.position_min && prop.position_max <= 100,
        ensures
            final(self).wf(prop),
            ({
                let springs = match prop.position_min_is_springloaded {
                    Some(s) => s,
                    None => false,
                } && old(self).position.value == prop.position_min
                    && prop.position_min < prop.position_max;
                &&& springs ==> final(self).position.value == prop.position_min + 1
                    && f.sound
                    && f.animation == Some((
                        (prop.position_min + 1) as int * (SCALE as int)) as i64)
                &&& !springs ==> final(self).position == old(self).position
                    && f == (StepSwitchFeedback { animation: Option::<i64>::None,
                        sound: false })
            }),
    {
        let springloaded = match prop.position_min_is_springloaded {
            Some(s) => s,
            None => false,
        };
        if springloaded && self.position.get() == prop.position_min
            && prop.position_min < prop.position_max {
            let newval = prop.position_min + 1;
            self.position.set(newval);
            let animation: i64 = (newval as i64) * SCALE;
            StepSwitchFeedback { animation: Some(animation), sound: true }
        } else {
            StepSwitchFeedback { animation: None, sound: false }
        }
    }
}

/// The position table of a complex step switch: the angle its animation
/// shows at each position index.
pub struct ComplexStepSwitchProperties {
    /// Input event that steps the switch up.
    pub input_event_plus: String,
    /// Input event that steps the switch down.
    pub input_event_minus: String,
    /// Host variable that animates the switch, if any.
    pub animation_var: Option<String>,
    /// Sound triggered on every accepted step, if any.
    pub sound_switch: Option<String>,
    /// Angle shown at each position index, millionths of a degree.
    pub angles: Vec<i64>,
    /// Position the switch starts in, if any.
    pub standard_position: Option<i8>,
}

impl ComplexStepSwitchProperties {
    /// At least one position, and few enough to index with an `i8`.
    pub open spec fn wf(&self) -> bool {
        1 <= self.angles.len() <= 100
    }
}

/// A step switch over an angle table, steppable while not blocked.
pub struct ComplexStepSwitch {
    /// Current position index, as a cell for downstream observers.
    pub state: Shared<i8>,
}

/// A fresh complex step switch at its configured position, or at zero.
pub fn add_complex_step_switch(prop: &ComplexStepSwitchProperties) -> (s: ComplexStepSwitch)
    requires
        prop.wf(),
    ensures
        0 <= s.state.value < prop.angles.len(),
{
    let start: i8 = match prop.standard_position {
        Some(p) => p,
        None => 0,
    };
    let max_index: i8 = (prop.angles.len() - 1) as i8;
    let start: i8 = if start < 0 {
        0
    } else if start > max_index {
        max_index
    } else {
        start
    };
    ComplexStepSwitch { state: Shared::new(start) }
}

impl ComplexStepSwitch {
    /// The index is inside the table.
    pub open spec fn wf(&self, prop: &ComplexStepSwitchProperties) -> bool {
        0 <= self.state.value < prop.angles.len()
    }

    /// A plus or minus edge: while not blocked, the index moves one step
    /// in that direction if that stays inside the table; a move shows the
    /// new angle and fires the step sound.
    pub fn on_step(&mut self, prop: &ComplexStepSwitchProperties, up: bool, blocked: bool)
        -> (f: StepSwitchFeedback)
        requires
            old(self).wf(prop),
            prop.wf(),
        ensures
            final(self).wf(prop),
            ({
                let step: int = if up { 1 } else { -1 };
                let target = old(self).state.value + step;
                let moves = !blocked && 0 <= target < prop.angles.len();
                &&& moves ==> final(self).state.value == target
                    && f.animation == Some(prop.angles[target])
                    && f.sound
                &&& !moves ==> final(self).state == old(self).state
                    && f == (StepSwitchFeedback { animation: Option::<i64>::None,
                        sound: false })
            }),
    {
        if blocked {
            return StepSwitchFeedback { animation: None, sound: false };
        }
        let p = self.state.get();
        let max_index: i8 = (prop.angles.len() - 1) as i8;
        if up {
            if p < max_index {
                let newval = p + 1;
                self.state.set(newval);
                return StepSwitchFeedback {
                    animation: Some(prop.angles[newval as usize]),
                    sound: true,
                };
            }
        } else {
            if p > 0 {
                let newval = p - 1;
                self.state.set(newval);
                return StepSwitchFeedback {
                    animation: Some(prop.angles[newval as usize]),
                    sound: true,
                };
            }
        }
        StepSwitchFeedback { animation: None, sound: false }
    }
}

/// Configuration of an indicator light fed by the lamp-test line.
pub struct IndicatorLightProperties {
    /// Host variable the light level is written to.
    pub variable: String,
    /// Whether a lamp-test line is wired to this light.
    pub has_lighttest: bool,
}

/// An indicator light: it shows the supply voltage while its own line or
/// the lamp test asks for it.
pub struct IndicatorLight {
    /// The light's own line, as a cell for upstream writers.
    pub state: Shared<bool>,
}

/// A fresh indicator light, dark.
pub fn add_indicator_light() -> (l: IndicatorLight)
    ensures
        !l.state.value,
{
    IndicatorLight { state: Shared::new(false) }
}

impl IndicatorLight {
    /// The level the light must show: the supply voltage while its line or
    /// the wired lamp test is on, zero otherwise.
    pub fn level(&self, prop: &IndicatorLightProperties, lighttest: bool, voltage: i64)
        -> (r: i64)
        ensures
            r == if self.state.value || (prop.has_lighttest && lighttest) { voltage } else {
                0i64
            },
    {
        if self.state.get() || (prop.has_lighttest && lighttest) {
            voltage
        } else {
            0
        }
    }
}

} // verus!
