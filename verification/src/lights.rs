//! Lights: the indicator (blinker) relay and the lamp circuits.
//!
//! The blinker relay free-runs an asymmetric on/off pattern (a longer first
//! period when it starts) while an indicator direction or the hazard
//! lights are active; every lamp circuit shows the battery voltage while
//! its switch is on.

use vstd::prelude::*;

use crate::standard_elements::Shared;

verus! {

/// Longest tick the blinker relay accepts, in microseconds.
pub const MAX_TICK: i64 = 10_000_000;

/// First on-phase after the relay starts, microseconds.
pub const BLINKER_FIRST_ON_TIME: i64 = 200_000;

/// First off-phase after the relay starts, microseconds.
pub const BLINKER_FIRST_OFF_TIME: i64 = 560_000;

/// Steady on-phase, microseconds.
pub const BLINKER_ON_TIME: i64 = 320_000;

/// Steady off-phase, microseconds.
pub const BLINKER_OFF_TIME: i64 = 430_000;

/// What the indicator lever and the hazard switch ask for.
#[derive(Debug, Clone, Copy, PartialEq, Eq, Structural, Default)]
pub enum BlinkerState {
    /// No indicator.
    #[default]
    Aus,
    /// Indicating left.
    Links,
    /// Indicating right.
    Rechts,
    /// Hazard lights: both sides.
    Warn,
}

impl BlinkerState {
    /// Whether any indicator runs.
    pub fn is_active(&self) -> (r: bool)
        ensures
            r == (*self != BlinkerState::Aus),
    {
        *self != BlinkerState::Aus
    }

    /// Whether the left lamps take part.
    pub fn is_links_active(&self) -> (r: bool)
        ensures
            r == (*self == BlinkerState::Links || *self == BlinkerState::Warn),
    {
        *self == BlinkerState::Links || *self == BlinkerState::Warn
    }

    /// Whether the right lamps take part.
    pub fn is_rechts_active(&self) -> (r: bool)
        ensures
            r == (*self == BlinkerState::Rechts || *self == BlinkerState::Warn),
    {
        *self == BlinkerState::Rechts || *self == BlinkerState::Warn
    }

    /// Whether the hazard telltale takes part.
    pub fn is_warn_active(&self) -> (r: bool)
        ensures
            r == (*self == BlinkerState::Warn),
    {
        *self == BlinkerState::Warn
    }
}

/// The free-running blinker relay.
#[derive(Debug, Clone, Copy, PartialEq, Eq, Structural, Default)]
pub struct BlinkgeberState {
    /// Whether the relay runs.
    pub running: bool,
    /// Whether the lamps are on in the current phase.
    pub on: bool,
    /// Whether the relay is still in its first period.
    pub first: bool,
    /// Time spent in the current phase, microseconds.
    pub timer: i64,
}

impl BlinkgeberState {
    /// The phase timer never runs backward.
    pub open spec fn wf(&self) -> bool {
        0 <= self.timer <= 1_000_000_000_000
    }

    /// The length of the current phase.
    pub open spec fn spec_timer_limit(&self) -> int {
        match (self.first, self.on) {
            (true, true) => BLINKER_FIRST_ON_TIME as int,
            (true, false) => BLINKER_FIRST_OFF_TIME as int,
            (false, true) => BLINKER_ON_TIME as int,
            (false, false) => BLINKER_OFF_TIME as int,
        }
    }

    /// The length of the current phase: the longer first pair right after
    /// the start, the steady pair afterwards.
    pub fn get_timer_limit(&self) -> (r: i64)
        ensures
            r == self.spec_timer_limit(),
    {
        match (self.first, self.on) {
            (true, true) => BLINKER_FIRST_ON_TIME,
            (true, false) => BLINKER_FIRST_OFF_TIME,
            (false, true) => BLINKER_ON_TIME,
            (false, false) => BLINKER_OFF_TIME,
        }
    }

    /// One relay tick: stopped, the lamps are off and nothing fires;
    /// running, the phase timer advances and at the phase limit the lamps
    /// toggle (leaving the first period once they come on again), which is
    /// when the relay clicks and `true` comes back.
    pub fn update(&mut self, delta: i64) -> (clicked: bool)
        requires
            old(self).wf(),
            0 <= delta <= MAX_TICK,
        ensures
            final(self).wf(),
            !old(self).running ==> {
                &&& !final(self).on
                &&& !clicked
                &&& final(self).running == old(self).running
                &&& final(self).first == old(self).first
                &&& final(self).timer == old(self).timer
            },
            old(self).running ==> {
                let advanced = old(self).timer + delta;
                &&& final(self).running == old(self).running
                &&& if advanced > old(self).spec_timer_limit() {
                    &&& final(self).on == !old(self).on
                    &&& final(self).timer == 0
                    &&& final(self).first == (old(self).first && old(self).on)
                    &&& clicked
                } else {
                    &&& final(self).on == old(self).on
                    &&& final(self).timer == advanced
                    &&& final(self).first == old(self).first
                    &&& !clicked
                }
            },
    {
        if !self.running {
            self.on = false;
            return false;
        }
        self.timer = self.timer + delta;
        if self.timer > self.get_timer_limit() {
            self.on = !self.on;
            self.timer = 0;
            if self.on {
                self.first = false;
            }
            true
        } else {
            false
        }
    }
}

/// The signal cells of the light subsystem.
pub struct LightState {
    /// Battery voltage, millionths.
    pub voltage: Shared<i64>,
    /// Passenger-compartment light switch.
    pub fahrgastraum: Shared<bool>,
    /// Position lights.
    pub stand: Shared<bool>,
    /// Low beam.
    pub abblend: Shared<bool>,
    /// High beam.
    pub fern: Shared<bool>,
    /// Tail lights.
    pub rueck: Shared<bool>,
    /// Reversing light.
    pub rueckfahr: Shared<bool>,
    /// Brake lights.
    pub brems: Shared<bool>,
    /// What the indicator asks for.
    pub blinker_state: Shared<BlinkerState>,
    /// Right indicator lamps.
    pub blinker_lampe_rechts: Shared<bool>,
    /// Left indicator lamps.
    pub blinker_lampe_links: Shared<bool>,
    /// Hazard telltale.
    pub lm_warnblinker: Shared<bool>,
    /// Main cockpit light.
    pub cockpit_main: Shared<bool>,
    /// Second cockpit light.
    pub cockpit_begleiter: Shared<bool>,
    /// Instrument lighting.
    pub instrumente: Shared<bool>,
}

/// The lamp levels and relay clicks of one light tick, each level the
/// battery voltage or zero.
pub struct LightTickOutputs {
    /// Passenger compartment.
    pub fahrgastraum: i64,
    /// Position lights.
    pub stand: i64,
    /// Low beam.
    pub abblend: i64,
    /// High beam.
    pub fern: i64,
    /// Tail lights.
    pub rueck: i64,
    /// Reversing light.
    pub rueckfahr: i64,
    /// Brake lights.
    pub brems: i64,
    /// Main cockpit light.
    pub cockpit_main: i64,
    /// Second cockpit light.
    pub cockpit_begleiter: i64,
    /// Instrument lighting.
    pub instrumente: i64,
    /// Right indicator lamps.
    pub blinker_right: i64,
    /// Left indicator lamps.
    pub blinker_left: i64,
    /// The relay clicked on.
    pub relais_on_sound: bool,
    /// The relay clicked off.
    pub relais_off_sound: bool,
}

/// A fresh light subsystem, dark and unpowered.
pub fn add_lights() -> (s: LightState)
    ensures
        s.voltage.value == 0,
        !s.fahrgastraum.value,
        !s.stand.value,
        !s.abblend.value,
        !s.fern.value,
        !s.rueck.value,
        !s.rueckfahr.value,
        !s.brems.value,
        s.blinker_state.value == BlinkerState::Aus,
        !s.blinker_lampe_rechts.value,
        !s.blinker_lampe_links.value,
        !s.lm_warnblinker.value,
        !s.cockpit_main.value,
        !s.cockpit_begleiter.value,
        !s.instrumente.value,
{
    LightState {
        voltage: Shared::new(0),
        fahrgastraum: Shared::new(false),
        stand: Shared::new(false),
        abblend: Shared::new(false),
        fern: Shared::new(false),
        rueck: Shared::new(false),
        rueckfahr: Shared::new(false),
        brems: Shared::new(false),
        blinker_state: Shared::new(BlinkerState::Aus),
        blinker_lampe_rechts: Shared::new(false),
        blinker_lampe_links: Shared::new(false),
        lm_warnblinker: Shared::new(false),
        cockpit_main: Shared::new(false),
        cockpit_begleiter: Shared::new(false),
        instrumente: Shared::new(false),
    }
}

impl LightState {
    /// One tick of the light subsystem.  The blinker relay restarts on the
    /// rising edge of indicator activity, then advances; the indicator
    /// lamps are on while the relay's lamps are on and their side takes
    /// part; every returned level is the battery voltage while its switch
    /// (and, for the indicator lamps, the relay) is on, and zero
    /// otherwise.
    pub fn tick(&mut self, blinkgeber: &mut BlinkgeberState, dt: i64)
        -> (out: LightTickOutputs)
        requires
            old(blinkgeber).wf(),
            0 <= dt <= MAX_TICK,
        ensures
            final(blinkgeber).wf(),
            ({
                let active = old(self).blinker_state.value != BlinkerState::Aus;
                let started = active && !old(blinkgeber).running;
                let mid = BlinkgeberState {
                    running: active,
                    on: if started { true } else { old(blinkgeber).on },
                    first: if started { true } else { old(blinkgeber).first },
                    timer: if started { 0i64 } else { old(blinkgeber).timer },
                };
                let advanced = mid.timer + dt;
                &&& !active ==> *final(blinkgeber) == (BlinkgeberState {
                    running: false,
                    on: false,
                    first: mid.first,
                    timer: mid.timer,
                })
                &&& active ==> *final(blinkgeber) == if advanced > mid.spec_timer_limit() {
                    BlinkgeberState {
                        running: true,
                        on: !mid.on,
                        first: mid.first && mid.on,
                        timer: 0i64,
                    }
                } else {
                    BlinkgeberState { running: true, on: mid.on, first: mid.first,
                        timer: advanced as i64 }
                }
                &&& out.relais_on_sound == (active && advanced > mid.spec_timer_limit()
                    && final(blinkgeber).on)
                &&& out.relais_off_sound == (active && advanced > mid.spec_timer_limit()
                    && !final(blinkgeber).on)
            }),
            ({
                let v = old(self).voltage.value;
                let blink_on = final(blinkgeber).on;
                let links = blink_on && (old(self).blinker_state.value == BlinkerState::Links
                    || old(self).blinker_state.value == BlinkerState::Warn);
                let rechts = blink_on && (old(self).blinker_state.value
                    == BlinkerState::Rechts || old(self).blinker_state.value
                    == BlinkerState::Warn);
                let warn = blink_on && old(self).blinker_state.value == BlinkerState::Warn;
                &&& final(self).blinker_lampe_links.value == links
                &&& final(self).blinker_lampe_rechts.value == rechts
                &&& final(self).lm_warnblinker.value == warn
                &&& out.fahrgastraum == if old(self).fahrgastraum.value { v } else { 0i64 }
                &&& out.stand == if old(self).stand.value { v } else { 0i64 }
                &&& out.abblend == if old(self).abblend.value { v } else { 0i64 }
                &&& out.fern == if old(self).fern.value { v } else { 0i64 }
                &&& out.rueck == if old(self).rueck.value { v } else { 0i64 }
                &&& out.rueckfahr == if old(self).rueckfahr.value { v } else { 0i64 }
                &&& out.brems == if old(self).brems.value { v } else { 0i64 }
                &&& out.cockpit_main == if old(self).cockpit_main.value { v } else { 0i64 }
                &&& out.cockpit_begleiter == if old(self).cockpit_begleiter.value { v } else {
                    0i64
                }
                &&& out.instrumente == if old(self).instrumente.value { v } else { 0i64 }
                &&& out.blinker_right == if rechts { v } else { 0i64 }
                &&& out.blinker_left == if links { v } else { 0i64 }
            }),
            final(self).voltage == old(self).voltage,
            final(self).blinker_state == old(self).blinker_state,
    {
        let active = self.blinker_state.get().is_active();
        let prev_running = blinkgeber.running;
        blinkgeber.running = active;
        if active && !prev_running {
            blinkgeber.first = true;
            blinkgeber.on = true;
            blinkgeber.timer = 0;
        }
        let clicked = blinkgeber.update(dt);
        let relais_on_sound = clicked && blinkgeber.on;
        let relais_off_sound = clicked && !blinkgeber.on;

        let blinker = self.blinker_state.get();
        let links = blinkgeber.on && blinker.is_links_active();
        let rechts = blinkgeber.on && blinker.is_rechts_active();
        let warn = blinkgeber.on && blinker.is_warn_active();
        self.blinker_lampe_links.set_only_on_change(links);
        self.blinker_lampe_rechts.set_only_on_change(rechts);
        self.lm_warnblinker.set_only_on_change(warn);

        LightTickOutputs {
            fahrgastraum: self.voltage.switch(self.fahrgastraum.get()),
            stand: self.voltage.switch(self.stand.get()),
            abblend: self.voltage.switch(self.abblend.get()),
            fern: self.voltage.switch(self.fern.get()),
            rueck: self.voltage.switch(self.rueck.get()),
            rueckfahr: self.voltage.switch(self.rueckfahr.get()),
            brems: self.voltage.switch(self.brems.get()),
            cockpit_main: self.voltage.switch(self.cockpit_main.get()),
            cockpit_begleiter: self.voltage.switch(self.cockpit_begleiter.get()),
            instrumente: self.voltage.switch(self.instrumente.get()),
            blinker_right: self.voltage.switch(rechts),
            blinker_left: self.voltage.switch(links),
            relais_on_sound,
            relais_off_sound,
        }
    }
}

} // verus!
