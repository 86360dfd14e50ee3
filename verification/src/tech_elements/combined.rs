//! Blink relays combined with their lamp and sound outputs.

use vstd::prelude::*;

use crate::standard_elements::{Shared, SCALE};
use crate::tech_elements::simple::{
    any_set, blink_phase_after, or_all, BlinkRelais, BlinkRelaisProperties, BlinkRelaisState,
    BoolToFloatVarUnit, BoolToSoundUnit, MAX_TICK,
};

verus! {

/// The host variables one blinking warning drives.
pub struct LightAndSoundVarPair {
    /// Lamp variable.
    pub light: String,
    /// Warning sound.
    pub sound: String,
}

/// Configuration of one blink relay with a lamp and a sound.
pub struct BlinkRelaisWithLightAndSoundProperties {
    /// The relay's period and on-time.
    pub blink_relais_properties: BlinkRelaisProperties,
    /// The lamp and sound the relay drives.
    pub light_and_sound: LightAndSoundVarPair,
}

/// A blink relay wired to one lamp level and one sound line, each emitted
/// only on change.
pub struct BlinkRelaisWithLightAndSound {
    /// The free-running relay.
    pub relais: BlinkRelais,
    /// The relay's output cell.
    pub state: BlinkRelaisState,
    /// Edge detector of the lamp level.
    pub float_unit: BoolToFloatVarUnit,
    /// Edge detector of the sound line.
    pub sound_unit: BoolToSoundUnit,
}

/// A fresh relay-with-outputs, dark and silent.
pub fn add_blink_relais_with_light_and_sound(prop: &BlinkRelaisWithLightAndSoundProperties)
    -> (s: BlinkRelaisWithLightAndSound)
    requires
        prop.blink_relais_properties.wf(),
    ensures
        s.wf(prop),
        !s.state.on.value,
{
    BlinkRelaisWithLightAndSound {
        relais: BlinkRelais::new(&prop.blink_relais_properties),
        state: BlinkRelaisState { on: Shared::new(false) },
        float_unit: BoolToFloatVarUnit::new(),
        sound_unit: BoolToSoundUnit::new(),
    }
}

impl BlinkRelaisWithLightAndSound {
    /// The relay phase is within its period.
    pub open spec fn wf(&self, prop: &BlinkRelaisWithLightAndSoundProperties) -> bool {
        self.relais.wf(&prop.blink_relais_properties)
    }

    /// One tick: the relay advances, and the lamp level and the sound line
    /// are emitted exactly when the relay's output changed from what each
    /// line showed last.
    pub fn tick(&mut self, prop: &BlinkRelaisWithLightAndSoundProperties, running: bool,
        dt: i64) -> (emits: (Option<i64>, Option<bool>))
        requires
            old(self).wf(prop),
            prop.blink_relais_properties.wf(),
            0 <= dt <= MAX_TICK,
            dt <= prop.blink_relais_properties.interval,
        ensures
            final(self).wf(prop),
            ({
                let p = prop.blink_relais_properties;
                let phase = if running {
                    blink_phase_after(old(self).relais.timer as int, p.interval as int,
                        dt as int)
                } else {
                    p.spec_reset_time()
                };
                let new_on = running && phase < p.on_time;
                &&& final(self).relais.timer == phase
                &&& final(self).state.on.value == new_on
                &&& emits.0 == if old(self).float_unit.prev == Some(new_on) {
                    Option::<i64>::None
                } else {
                    Some(if new_on { SCALE } else { 0i64 })
                }
                &&& emits.1 == if old(self).sound_unit.prev == new_on {
                    Option::<bool>::None
                } else {
                    Some(new_on)
                }
            }),
    {
        self.relais.tick(&prop.blink_relais_properties, running, dt, &mut self.state);
        let on = self.state.on.get();
        let light = self.float_unit.tick(on);
        let sound = self.sound_unit.tick(on);
        (light, sound)
    }
}

/// Configuration of one shared blink relay behind several warnings.
pub struct BlinkRelaisMultipleEntriesProperties {
    /// Length of one blink period, microseconds.
    pub interval: i64,
    /// Leading on-part of the period, microseconds.
    pub on_time: i64,
    /// Rest phase while no warning runs; `None` rests at zero.
    pub reset_time: Option<i64>,
}

impl BlinkRelaisMultipleEntriesProperties {
    /// The underlying relay configuration.
    pub open spec fn spec_relais_properties(&self) -> BlinkRelaisProperties {
        BlinkRelaisProperties {
            interval: self.interval,
            on_time: self.on_time,
            reset_time: self.reset_time,
        }
    }
}

/// The lamp level one entry emits: nothing while its gated output is what
/// it emitted last, the full or zero level otherwise.
pub open spec fn gate_light(prev: bool, gated: bool) -> Option<i64> {
    if prev == gated {
        None
    } else if gated {
        Some(SCALE)
    } else {
        Some(0i64)
    }
}

/// The sound line one entry emits: nothing while its gated output is what
/// it emitted last, the gated output otherwise.
pub open spec fn gate_sound(prev: bool, gated: bool) -> Option<bool> {
    if prev == gated {
        None
    } else {
        Some(gated)
    }
}

/// One blink relay shared by several warnings: the relay runs while any
/// warning is active, and each entry's lamp and sound follow the relay
/// gated by that entry's own warning, emitted only on change.
pub struct BlinkRelaisMultipleEntries {
    /// Whether any warning was active after the last tick.
    pub running: Shared<bool>,
    /// The shared relay.
    pub relais: BlinkRelais,
    /// The shared relay's output cell.
    pub relais_state: BlinkRelaisState,
    /// The gated value each entry emitted last.
    pub prev_on: Vec<bool>,
}

/// A fresh shared relay with `n` dark, silent entries.
pub fn add_blink_relais_multiple_entries(prop: &BlinkRelaisMultipleEntriesProperties,
    n: usize) -> (s: BlinkRelaisMultipleEntries)
    requires
        prop.spec_relais_properties().wf(),
    ensures
        s.wf(prop),
        s.prev_on.len() == n,
        forall|i: int| 0 <= i < n ==> !(#[trigger] s.prev_on[i]),
        !s.running.value,
        !s.relais_state.on.value,
{
    let relais_prop = BlinkRelaisProperties {
        interval: prop.interval,
        on_time: prop.on_time,
        reset_time: prop.reset_time,
    };
    let mut prev_on: Vec<bool> = Vec::new();
    let mut i: usize = 0;
    while i < n
        invariant
            0 <= i <= n,
            prev_on.len() == i,
            forall|j: int| 0 <= j < i ==> !(#[trigger] prev_on[j]),
        decreases n - i,
    {
        prev_on.push(false);
        i = i + 1;
    }
    BlinkRelaisMultipleEntries {
        running: Shared::new(false),
        relais: BlinkRelais::new(&relais_prop),
        relais_state: BlinkRelaisState { on: Shared::new(false) },
        prev_on,
    }
}

impl BlinkRelaisMultipleEntries {
    /// The relay phase is within its period.
    pub open spec fn wf(&self, prop: &BlinkRelaisMultipleEntriesProperties) -> bool {
        self.relais.wf(&prop.spec_relais_properties())
    }

    /// One tick: the relay runs while any warning is active; each entry's
    /// gated output is the relay's output and that entry's warning, and
    /// its lamp level and sound line are emitted exactly when the gated
    /// output changed.
    pub fn tick(&mut self, prop: &BlinkRelaisMultipleEntriesProperties,
        actives: &Vec<bool>, dt: i64) -> (emits: Vec<(Option<i64>, Option<bool>)>)
        requires
            old(self).wf(prop),
            prop.spec_relais_properties().wf(),
            actives.len() == old(self).prev_on.len(),
            0 <= dt <= MAX_TICK,
            dt <= prop.interval,
        ensures
            final(self).wf(prop),
            final(self).running.value == any_set(actives@),
            final(self).relais.timer == if any_set(actives@) {
                blink_phase_after(old(self).relais.timer as int, prop.interval as int,
                    dt as int)
            } else {
                prop.spec_relais_properties().spec_reset_time()
            },
            final(self).relais_state.on.value == (any_set(actives@)
                && final(self).relais.timer < prop.on_time),
            final(self).prev_on.len() == old(self).prev_on.len(),
            emits.len() == old(self).prev_on.len(),
            forall|i: int| 0 <= i < emits.len() ==> #[trigger] final(self).prev_on[i]
                == (actives[i] && final(self).relais_state.on.value),
            forall|i: int| 0 <= i < emits.len() ==> (#[trigger] emits[i]).0 == gate_light(
                old(self).prev_on[i], actives[i] && final(self).relais_state.on.value),
            forall|i: int| 0 <= i < emits.len() ==> (#[trigger] emits[i]).1 == gate_sound(
                old(self).prev_on[i], actives[i] && final(self).relais_state.on.value),
    {
        let running_now = or_all(actives);
        self.running.set_only_on_change(running_now);
        let relais_prop = BlinkRelaisProperties {
            interval: prop.interval,
            on_time: prop.on_time,
            reset_time: prop.reset_time,
        };
        self.relais.tick(&relais_prop, running_now, dt, &mut self.relais_state);
        let blink_on = self.relais_state.on.get();

        let n: usize = actives.len();
        let mut new_prev: Vec<bool> = Vec::new();
        let mut emits: Vec<(Option<i64>, Option<bool>)> = Vec::new();
        let mut i: usize = 0;
        while i < n
            invariant
                0 <= i <= n,
                n == actives.len() == self.prev_on.len(),
                new_prev.len() == i,
                emits.len() == i,
                blink_on == self.relais_state.on.value,
                forall|j: int| 0 <= j < i ==> #[trigger] new_prev[j]
                    == (actives[j] && blink_on),
                forall|j: int| 0 <= j < i ==> (#[trigger] emits[j]).0 == gate_light(
                    self.prev_on[j], actives[j] && blink_on),
                forall|j: int| 0 <= j < i ==> (#[trigger] emits[j]).1 == gate_sound(
                    self.prev_on[j], actives[j] && blink_on),
            decreases n - i,
        {
            let gated = actives[i] && blink_on;
            if self.prev_on[i] == gated {
                emits.push((None, None));
            } else {
                emits.push((Some(if gated { SCALE } else { 0 }), Some(gated)));
            }
            new_prev.push(gated);
            i = i + 1;
        }
        self.prev_on = new_prev;
        emits
    }
}

} // verus!
