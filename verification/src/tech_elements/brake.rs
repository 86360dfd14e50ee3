//! Brake elements: the per-axle brake combination, the magnetic rail brake
//! and the sanding unit.

use vstd::prelude::*;

use crate::standard_elements::{
    approach_step, exponential_approach, mul_div_scale, mul_div_scale_spec, SCALE,
};
use crate::tech_elements::simple::{
    delay_relay_after, DelayRelay, DelayRelayProperties, SoundCommand, StartLoopStopSound,
    MAX_TICK,
};

verus! {

/// Largest reference force a brake element accepts, plain newtons.
pub const MAX_BRAKE_FORCE: i64 = 10_000_000;

/// One force source of a brake combination.
pub struct BrakeCombinationElement {
    /// Force of the source at full demand, plain newtons.
    pub reference_force: i64,
    /// Lag exponent of the force build-up, millionths per second; the host
    /// adapter turns it and the tick length into the per-tick blend.
    pub exponent: i64,
}

/// Configuration of the brake combination of one axle.
pub struct BrakeCombinationProperties {
    /// Host variable the combined force is written to.
    pub variable: String,
    /// The force sources that add up on this axle.
    pub elements: Vec<BrakeCombinationElement>,
}

impl BrakeCombinationProperties {
    /// A handful of sources, each with a bounded reference force.
    pub open spec fn wf(&self) -> bool {
        &&& self.elements.len() <= 16
        &&& forall|i: int| 0 <= i < self.elements.len()
            ==> 0 <= #[trigger] self.elements[i].reference_force <= MAX_BRAKE_FORCE
    }
}

/// The sum of a sequence of forces.
pub open spec fn sum_of(s: Seq<i64>) -> int
    decreases s.len(),
{
    if s.len() == 0 {
        0
    } else {
        sum_of(s.drop_last()) + s.last()
    }
}

/// The running force state of a brake combination: one lagged force per
/// element.
pub struct BrakeCombination {
    /// Current force of each element, plain newtons.
    pub values: Vec<i64>,
}

/// A fresh brake combination with every force at zero.
pub fn add_brake_combination(prop: &BrakeCombinationProperties) -> (s: BrakeCombination)
    requires
        prop.wf(),
    ensures
        s.wf(prop),
        forall|i: int| 0 <= i < s.values.len() ==> s.values[i] == 0i64,
{
    let mut values: Vec<i64> = Vec::new();
    let n: usize = prop.elements.len();
    let mut i: usize = 0;
    while i < n
        invariant
            0 <= i <= n,
            n == prop.elements.len(),
            values.len() == i,
            forall|j: int| 0 <= j < i ==> values[j] == 0i64,
        decreases n - i,
    {
        values.push(0);
        i = i + 1;
    }
    BrakeCombination { values }
}

impl BrakeCombination {
    /// One force per element, each within the element's reach.
    pub open spec fn wf(&self, prop: &BrakeCombinationProperties) -> bool {
        &&& self.values.len() == prop.elements.len()
        &&& forall|i: int| 0 <= i < self.values.len()
            ==> 0 <= #[trigger] self.values[i] <= MAX_BRAKE_FORCE
    }

    /// One tick: each element's force lags toward its demand (the brake
    /// demand in `[0, SCALE]` scaled by the element's reference force) by
    /// `factor / SCALE` of the remaining distance, and the result is the
    /// sum of the new forces, what the axle's brake variable shows.
    pub fn tick(
        &mut self,
        prop: &BrakeCombinationProperties,
        brakes: &Vec<i64>,
        factor: i64,
    ) -> (total: i64)
        requires
            old(self).wf(prop),
            prop.wf(),
            brakes.len() == prop.elements.len(),
            forall|i: int| 0 <= i < brakes.len() ==> 0 <= #[trigger] brakes[i] <= SCALE,
            0 <= factor <= SCALE,
        ensures
            final(self).wf(prop),
            final(self).values.len() == old(self).values.len(),
            forall|i: int| 0 <= i < final(self).values.len()
                ==> #[trigger] final(self).values[i] == approach_step(
                    old(self).values[i] as int, factor as int,
                    mul_div_scale_spec(prop.elements[i].reference_force as int, brakes[i] as int)),
            total == sum_of(final(self).values@),
    {
        let n: usize = self.values.len();
        let mut total: i64 = 0;
        let mut i: usize = 0;
        while i < n
            invariant
                0 <= i <= n,
                n == self.values.len() == old(self).values.len(),
                n == prop.elements.len() == brakes.len(),
                prop.wf(),
                forall|j: int| 0 <= j < n ==> 0 <= #[trigger] brakes[j] <= SCALE,
                0 <= factor <= SCALE,
                forall|j: int| 0 <= j < n ==> 0 <= #[trigger] old(self).values[j]
                    <= MAX_BRAKE_FORCE,
                forall|j: int| i <= j < n ==> #[trigger] self.values[j]
                    == old(self).values[j],
                forall|j: int| 0 <= j < i ==> #[trigger] self.values[j] == approach_step(
                    old(self).values[j] as int, factor as int,
                    mul_div_scale_spec(prop.elements[j].reference_force as int,
                        brakes[j] as int)),
                forall|j: int| 0 <= j < i ==> 0 <= #[trigger] self.values[j]
                    <= MAX_BRAKE_FORCE,
                total == sum_of(self.values@.take(i as int)),
                0 <= total <= i * (MAX_BRAKE_FORCE as int),
            decreases n - i,
        {
            let target = mul_div_scale(prop.elements[i].reference_force, brakes[i]);
            assert(0 <= target <= MAX_BRAKE_FORCE);
            let new_value = exponential_approach(self.values[i], factor, target);
            let ghost prev = self.values@;
            self.values.set(i, new_value);
            total = total + new_value;
            proof {
                assert(self.values@.take(i as int) =~= prev.take(i as int));
                assert(self.values@.take(i + 1).drop_last() =~= self.values@.take(i as int));
                assert(self.values@.take(i + 1).last() == new_value);
            }
            i = i + 1;
        }
        proof {
            assert(self.values@.take(n as int) =~= self.values@);
        }
        total
    }
}

/// Configuration of a magnetic rail brake on one bogie.
pub struct RailBrakeProperties {
    /// Force at one unit of supply voltage, plain newtons.
    pub reference_force: i64,
    /// Voltage below which the brake drops out, millionths; `None` is no
    /// threshold.
    pub min_voltage: Option<i64>,
    /// Base pitch of the friction sound, millionths.
    pub sound_pitch_base: i64,
    /// Pitch increase per metre per second, millionths.
    pub sound_pitch_per_mps: i64,
}

impl RailBrakeProperties {
    /// All figures are within the accepted ranges.
    pub open spec fn wf(&self) -> bool {
        &&& 0 <= self.reference_force <= MAX_BRAKE_FORCE
        &&& match self.min_voltage {
            Some(v) => 0 <= v <= 2 * SCALE,
            None => true,
        }
        &&& 0 <= self.sound_pitch_base <= SCALE
        &&& 0 <= self.sound_pitch_per_mps <= SCALE
    }

    /// The drop-out voltage, zero when none is configured.
    pub open spec fn spec_min_voltage(&self) -> int {
        match self.min_voltage {
            Some(v) => v as int,
            None => 0,
        }
    }
}

/// What one rail-brake tick asks the host to do.
pub struct RailBrakeOutput {
    /// Force pressed onto the rail, plain newtons.
    pub force: i64,
    /// Friction-sound volume to write on an activation edge: full on
    /// engagement, slightly negative on release.
    pub sound_volume: Option<i64>,
    /// Whether the contact sound fires now.
    pub sound_control: bool,
    /// Friction-sound pitch while engaged.
    pub sound_pitch: Option<i64>,
}

/// A magnetic rail brake: active while commanded and supplied with enough
/// voltage.
pub struct RailBrake {
    /// Whether the brake was engaged after the last tick.
    pub active: bool,
}

/// A fresh rail brake, disengaged.
pub fn add_rail_brake() -> (s: RailBrake)
    ensures
        !s.active,
{
    RailBrake { active: false }
}

impl RailBrake {
    /// One tick: the brake engages while commanded with sufficient
    /// voltage; the force is the reference force scaled by the voltage;
    /// the volume and contact sounds fire exactly on the engagement edges,
    /// and the pitch follows the speed while engaged.
    pub fn tick(&mut self, prop: &RailBrakeProperties, commanded: bool, voltage: i64,
        speed: i64) -> (out: RailBrakeOutput)
        requires
            prop.wf(),
            0 <= voltage <= 2 * SCALE,
            -100_000_000 <= speed <= 100_000_000,
        ensures
            ({
                let new_active = commanded && voltage >= prop.spec_min_voltage();
                &&& final(self).active == new_active
                &&& out.force == if new_active {
                    mul_div_scale_spec(prop.reference_force as int, voltage as int)
                } else {
                    0int
                }
                &&& out.sound_volume == if new_active != old(self).active {
                    Some(if new_active { 1_000_000i64 } else { -500_000i64 })
                } else {
                    Option::<i64>::None
                }
                &&& out.sound_control == (new_active && !old(self).active)
                &&& out.sound_pitch == if new_active {
                    Some((prop.sound_pitch_base + mul_div_scale_spec(
                        if speed >= 0 { speed as int } else { -(speed as int) },
                        prop.sound_pitch_per_mps as int)) as i64)
                } else {
                    Option::<i64>::None
                }
            }),
    {
        let min_voltage: i64 = match prop.min_voltage {
            Some(v) => v,
            None => 0,
        };
        let new_active = commanded && voltage >= min_voltage;

        let force: i64 = if new_active {
            mul_div_scale(prop.reference_force, voltage)
        } else {
            0
        };

        let sound_volume: Option<i64> = if new_active != self.active {
            Some(if new_active { 1_000_000 } else { -500_000 })
        } else {
            None
        };
        let sound_control = new_active && !self.active;

        let sound_pitch: Option<i64> = if new_active {
            let speed_abs: i64 = if speed >= 0 { speed } else { -speed };
            Some(prop.sound_pitch_base + mul_div_scale(speed_abs, prop.sound_pitch_per_mps))
        } else {
            None
        };

        self.active = new_active;
        RailBrakeOutput { force, sound_volume, sound_control, sound_pitch }
    }
}

/// Configuration of a sanding unit on one axle.
pub struct SandingUnitProperties {
    /// Sound fired when sanding starts, if any.
    pub sound_start: Option<String>,
    /// Looping sound while sanding, if any.
    pub sound_loop: Option<String>,
    /// Sound fired when sanding stops, if any.
    pub sound_stop: Option<String>,
}

/// A sanding unit: the sanding command reaches the axle through a one
/// second on-delay (dropping out at once), and the start/loop/stop sounds
/// follow the raw command's edges.
pub struct SandingUnit {
    /// The on-delay in front of the axle's sanding line.
    pub effect: DelayRelay,
    /// The sound edge detector.
    pub sounds: StartLoopStopSound,
}

/// The delays of the sanding effect relay: one second in, none out.
pub open spec fn sanding_delays() -> DelayRelayProperties {
    DelayRelayProperties { on_delay: 1_000_000, off_delay: 0 }
}

/// A fresh sanding unit, idle.
pub fn add_sanding_unit() -> (s: SandingUnit)
    ensures
        s.effect.wf(),
        !s.effect.output,
        !s.effect.last_input,
        !s.effect.waiting,
        !s.sounds.previous_active,
{
    SandingUnit { effect: DelayRelay::new(false), sounds: StartLoopStopSound::new() }
}

impl SandingUnit {
    /// The inner relay is within its ranges.
    pub open spec fn wf(&self) -> bool {
        self.effect.wf()
    }

    /// One tick: the relay debounces the command; when its output flips,
    /// the new value is emitted toward the axle's sanding line, and the
    /// sound command follows the raw command's edge.
    pub fn tick(&mut self, active: bool, dt: i64) -> (r: (Option<bool>, SoundCommand))
        requires
            old(self).wf(),
            0 <= dt <= MAX_TICK,
        ensures
            final(self).wf(),
            final(self).effect == delay_relay_after(old(self).effect, sanding_delays(),
                active, dt as int),
            r.0 == if final(self).effect.output != old(self).effect.output {
                Some(final(self).effect.output)
            } else {
                Option::<bool>::None
            },
            final(self).sounds.previous_active == active,
            old(self).sounds.previous_active != active && active ==> r.1 == (SoundCommand {
                start: true,
                loop_running: Some(true),
                stop: false,
            }),
            old(self).sounds.previous_active != active && !active ==> r.1 == (SoundCommand {
                start: false,
                loop_running: Some(false),
                stop: true,
            }),
            old(self).sounds.previous_active == active ==> r.1 == (SoundCommand {
                start: false,
                loop_running: None,
                stop: false,
            }),
    {
        let prop = DelayRelayProperties { on_delay: 1_000_000, off_delay: 0 };
        let changed = self.effect.tick(&prop, active, dt);
        let emit: Option<bool> = if changed { Some(self.effect.output) } else { None };
        let cmd = self.sounds.tick(active);
        (emit, cmd)
    }
}

} // verus!
