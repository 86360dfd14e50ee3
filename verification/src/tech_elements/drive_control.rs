//! The Sollwertgeber: the combined throttle/brake handle.
//!
//! The handle produces a continuous demand in `[-SCALE, SCALE]` (the
//! fixed-point image of `[-1, 1]`).  Pressing Throttle, Brake, Neutral or
//! MaxBrake picks a ramp target and a signed ramp speed out of three tiers;
//! a per-tick integrator moves the position toward the target and stops
//! exactly on it.  A derived notch (eight zones over fixed position
//! thresholds) cues three click sounds: entering the neutral zone, running
//! into an end stop, and every other zone boundary, except that dropping
//! from an end-stop zone back to its neighbour clicks not at all.

use vstd::prelude::*;

use crate::standard_elements::SCALE;

verus! {

/// Largest ramp-speed magnitude the handle accepts, in millionths of full
/// travel per second.
pub const MAX_RAMP: i64 = 100_000_000;

/// Longest tick the integrator accepts, in microseconds.
pub const MAX_TICK: i64 = 10_000_000;

/// Operating mode of the handle.
#[derive(Debug, Clone, Copy, PartialEq, Eq, Structural, Default)]
pub enum SollwertgeberMode {
    EmergencyBrake,
    Brake,
    #[default]
    Neutral,
    Throttle,
}

/// Notch zone of the continuous handle travel, used for click cueing.
#[derive(Debug, Clone, Copy, PartialEq, Eq, Structural)]
pub enum SollwertgeberNotch {
    EmergencyBrake,
    MaxBrake,
    Brake,
    MinBrake,
    Neutral,
    MinThrottle,
    Throttle,
    MaxTrottle,
}

/// Which click a notch transition cues.
#[derive(Debug, Clone, Copy, PartialEq, Eq, Structural)]
pub enum NotchClick {
    /// No boundary was crossed, or the crossing is suppressed.
    Silent,
    /// The handle entered the neutral zone.
    Neutral,
    /// The handle ran into an end stop.
    End,
    /// Any other zone boundary.
    Other,
}

/// Configuration of the handle: the three ramp-speed tiers, in millionths
/// of full travel per second.
#[derive(Debug, Clone, Copy, PartialEq, Eq, Structural)]
pub struct SollwertgeberProperties {
    /// Normal tier, used for ordinary throttle and brake ramps.
    pub speed_normal: i64,
    /// High tier, used when snapping back to neutral.
    pub speed_high: i64,
    /// Very high tier, used for the emergency-brake slam.
    pub speed_very_high: i64,
}

impl SollwertgeberProperties {
    /// All tiers are positive and within the accepted ramp range.
    pub open spec fn wf(&self) -> bool {
        &&& 0 < self.speed_normal <= MAX_RAMP
        &&& 0 < self.speed_high <= MAX_RAMP
        &&& 0 < self.speed_very_high <= MAX_RAMP
    }
}

/// The notch zone a position falls in.
pub open spec fn notch_of(position: int) -> SollwertgeberNotch {
    if position < -950_000 {
        SollwertgeberNotch::EmergencyBrake
    } else if position < -870_000 {
        SollwertgeberNotch::MaxBrake
    } else if position < -130_000 {
        SollwertgeberNotch::Brake
    } else if position < -50_000 {
        SollwertgeberNotch::MinBrake
    } else if position < 50_000 {
        SollwertgeberNotch::Neutral
    } else if position < 130_000 {
        SollwertgeberNotch::MinThrottle
    } else if position < 970_000 {
        SollwertgeberNotch::Throttle
    } else {
        SollwertgeberNotch::MaxTrottle
    }
}

/// The click a transition between two notches cues: none within a zone;
/// the neutral click on entering the neutral zone; the end-stop click on
/// stepping from a zone into the adjacent extreme; silence on stepping back
/// down from an extreme to its neighbour; the plain click on every other
/// boundary.
pub open spec fn click_of(old_notch: SollwertgeberNotch, new_notch: SollwertgeberNotch)
    -> NotchClick {
    if old_notch == new_notch {
        NotchClick::Silent
    } else if new_notch == SollwertgeberNotch::Neutral {
        NotchClick::Neutral
    } else if (old_notch == SollwertgeberNotch::Throttle
            && new_notch == SollwertgeberNotch::MaxTrottle)
        || (old_notch == SollwertgeberNotch::Brake
            && new_notch == SollwertgeberNotch::MaxBrake) {
        NotchClick::End
    } else if (old_notch == SollwertgeberNotch::MaxTrottle
            && new_notch == SollwertgeberNotch::Throttle)
        || (old_notch == SollwertgeberNotch::MaxBrake
            && new_notch == SollwertgeberNotch::Brake) {
        NotchClick::Silent
    } else {
        NotchClick::Other
    }
}

/// Reaching an end stop from its neighbour clicks exactly once, with the
/// end-stop click, and stepping back down from the end stop clicks not at
/// all, on the throttle side as on the brake side.
pub proof fn lemma_end_stop_clicks()
    ensures
        click_of(SollwertgeberNotch::Throttle, SollwertgeberNotch::MaxTrottle)
            == NotchClick::End,
        click_of(SollwertgeberNotch::MaxTrottle, SollwertgeberNotch::Throttle)
            == NotchClick::Silent,
        click_of(SollwertgeberNotch::Brake, SollwertgeberNotch::MaxBrake)
            == NotchClick::End,
        click_of(SollwertgeberNotch::MaxBrake, SollwertgeberNotch::Brake)
            == NotchClick::Silent,
{
}

/// State of the handle.
#[derive(Debug, Clone, Copy, PartialEq, Eq, Structural)]
pub struct Sollwertgeber {
    /// Current handle position, in `[-SCALE, SCALE]`.
    pub position: i64,
    /// Signed ramp speed the integrator applies, millionths per second.
    pub speed: i64,
    /// Position the ramp runs toward, in `[-SCALE, SCALE]`.
    pub target: i64,
    /// Current operating mode.
    pub mode: SollwertgeberMode,
    /// Notch zone the position was in after the last tick.
    pub notch: SollwertgeberNotch,
}

/// Position after one integrator step: the position moved by
/// `speed * dt / SCALE`, clamped at the target in the direction of motion.
pub open spec fn position_after_tick(position: int, speed: int, target: int, dt: int) -> int {
    let moved = if speed >= 0 {
        position + (speed * dt) / (SCALE as int)
    } else {
        position - ((-speed) * dt) / (SCALE as int)
    };
    let pos_max = if target < SCALE { target } else { SCALE as int };
    let pos_min = if target > -SCALE { target } else { -SCALE as int };
    if speed > 0 && moved > pos_max {
        pos_max
    } else if speed < 0 && moved < pos_min {
        pos_min
    } else {
        moved
    }
}

/// Whether one integrator step arrives at the clamp, which zeroes the speed.
pub open spec fn arrives_after_tick(position: int, speed: int, target: int, dt: int) -> bool {
    let moved = if speed >= 0 {
        position + (speed * dt) / (SCALE as int)
    } else {
        position - ((-speed) * dt) / (SCALE as int)
    };
    let pos_max = if target < SCALE { target } else { SCALE as int };
    let pos_min = if target > -SCALE { target } else { -SCALE as int };
    (speed > 0 && moved > pos_max) || (speed < 0 && moved < pos_min)
}

/// Whether the handle is off the neutral well `[-0.1, 0.1)` of its travel;
/// while it is, the direction selector must stay locked.
pub open spec fn off_neutral(position: int) -> bool {
    position < -100_000 || position >= 100_000
}

impl Sollwertgeber {
    /// Positions and target inside full travel, ramp speed inside the
    /// accepted range.
    pub open spec fn wf(&self) -> bool {
        &&& -SCALE <= self.position <= SCALE
        &&& -SCALE <= self.target <= SCALE
        &&& -MAX_RAMP <= self.speed <= MAX_RAMP
    }

    /// The handle at rest: centred, still, in neutral.
    pub fn new() -> (s: Self)
        ensures
            s.wf(),
            s.position == 0,
            s.speed == 0,
            s.target == 0,
            s.mode == SollwertgeberMode::Neutral,
            s.notch == SollwertgeberNotch::Neutral,
    {
        Sollwertgeber {
            position: 0,
            speed: 0,
            target: 0,
            mode: SollwertgeberMode::Neutral,
            notch: SollwertgeberNotch::Neutral,
        }
    }

    /// Releasing a held throttle or brake input: off the neutral well the
    /// handle holds its place (target snaps to the position, ramp stops);
    /// near neutral it springs to the nearest minimal notch, `0.1` of
    /// travel on the side the old target pointed to.  Returns whether the
    /// direction selector must be locked now.
    pub fn on_release(&mut self) -> (rw_lock: bool)
        requires
            old(self).wf(),
        ensures
            final(self).wf(),
            rw_lock == off_neutral(old(self).position as int),
            final(self).mode == old(self).mode,
            final(self).notch == old(self).notch,
            final(self).position == old(self).position,
            (old(self).mode == SollwertgeberMode::Throttle
                || old(self).mode == SollwertgeberMode::Brake) ==> {
                &&& off_neutral(old(self).position as int) ==> final(self).target
                    == old(self).position && final(self).speed == 0
                &&& !off_neutral(old(self).position as int) ==> {
                    &&& final(self).speed == old(self).speed
                    &&& final(self).target == if old(self).target > 0 { 100_000i64 } else {
                        -100_000i64
                    }
                }
            },
            !(old(self).mode == SollwertgeberMode::Throttle
                || old(self).mode == SollwertgeberMode::Brake) ==> *final(self) == *old(self),
    {
        let pos = self.position;
        let not_near_neutral = pos < -100_000 || pos >= 100_000;
        match self.mode {
            SollwertgeberMode::Throttle | SollwertgeberMode::Brake => {
                if not_near_neutral {
                    self.target = pos;
                    self.speed = 0;
                } else if self.target > 0 {
                    self.target = 100_000;
                } else {
                    self.target = -100_000;
                }
            },
            _ => {},
        }
        not_near_neutral
    }

    /// Pressing the brake input: from throttle the handle ramps back to the
    /// minimal throttle notch, or snaps to neutral if already close; from
    /// neutral and from brake it ramps toward the full-brake notch at the
    /// normal tier.  Ignored while locked and in emergency brake.
    pub fn on_brake_pressed(&mut self, lock: bool, props: &SollwertgeberProperties)
        requires
            old(self).wf(),
            props.wf(),
        ensures
            final(self).wf(),
            final(self).position == old(self).position,
            final(self).notch == old(self).notch,
            lock ==> *final(self) == *old(self),
            !lock ==> match old(self).mode {
                SollwertgeberMode::Throttle => {
                    if old(self).position > 150_000 {
                        &&& final(self).speed == -props.speed_normal
                        &&& final(self).target == 100_000i64
                        &&& final(self).mode == SollwertgeberMode::Throttle
                    } else {
                        &&& final(self).speed == -props.speed_high
                        &&& final(self).target == 0i64
                        &&& final(self).mode == SollwertgeberMode::Neutral
                    }
                },
                SollwertgeberMode::Neutral => {
                    &&& final(self).speed == -props.speed_normal
                    &&& final(self).target == -900_000i64
                    &&& final(self).mode == SollwertgeberMode::Brake
                },
                SollwertgeberMode::Brake => {
                    if old(self).position > -900_000 {
                        &&& final(self).speed == -props.speed_normal
                        &&& final(self).target == -900_000i64
                        &&& final(self).mode == SollwertgeberMode::Brake
                    } else {
                        *final(self) == *old(self)
                    }
                },
                SollwertgeberMode::EmergencyBrake => *final(self) == *old(self),
            },
    {
        if !lock {
            match self.mode {
                SollwertgeberMode::Throttle => {
                    if self.position > 150_000 {
                        self.speed = -props.speed_normal;
                        self.target = 100_000;
                    } else {
                        self.speed = -props.speed_high;
                        self.target = 0;
                        self.mode = SollwertgeberMode::Neutral;
                    }
                },
                SollwertgeberMode::Neutral => {
                    self.speed = -props.speed_normal;
                    self.target = -900_000;
                    self.mode = SollwertgeberMode::Brake;
                },
                SollwertgeberMode::Brake => {
                    if self.position > -900_000 {
                        self.speed = -props.speed_normal;
                        self.target = -900_000;
                    }
                },
                SollwertgeberMode::EmergencyBrake => {},
            }
        }
    }

    /// Pressing the throttle input: in throttle and from neutral the handle
    /// ramps toward full throttle at the normal tier; out of a deep brake
    /// position it first ramps back to the minimal brake notch, and out of a
    /// shallow one it snaps to neutral at the high tier.  Ignored while
    /// locked.
    pub fn on_throttle_pressed(&mut self, lock: bool, props: &SollwertgeberProperties)
        requires
            old(self).wf(),
            props.wf(),
        ensures
            final(self).wf(),
            final(self).notch == old(self).notch,
            lock ==> *final(self) == *old(self),
            !lock ==> match old(self).mode {
                SollwertgeberMode::Throttle => {
                    &&& final(self).speed == props.speed_normal
                    &&& final(self).target == SCALE
                    &&& final(self).mode == SollwertgeberMode::Throttle
                    &&& final(self).position == old(self).position
                },
                SollwertgeberMode::Neutral => {
                    &&& final(self).speed == props.speed_normal
                    &&& final(self).target == SCALE
                    &&& final(self).mode == SollwertgeberMode::Throttle
                    &&& final(self).position == old(self).position
                },
                SollwertgeberMode::Brake | SollwertgeberMode::EmergencyBrake => {
                    if old(self).position < -150_000 {
                        &&& final(self).speed == props.speed_normal
                        &&& final(self).target == -100_000i64
                        &&& final(self).mode == SollwertgeberMode::Brake
                        &&& final(self).position == if old(self).position < -900_000 {
                            -900_000i64
                        } else {
                            old(self).position
                        }
                    } else {
                        &&& final(self).speed == props.speed_high
                        &&& final(self).target == 0i64
                        &&& final(self).mode == SollwertgeberMode::Neutral
                        &&& final(self).position == old(self).position
                    }
                },
            },
    {
        if !lock {
            match self.mode {
                SollwertgeberMode::Throttle => {
                    self.speed = props.speed_normal;
                    self.target = SCALE;
                },
                SollwertgeberMode::Neutral => {
                    self.speed = props.speed_normal;
                    self.target = SCALE;
                    self.mode = SollwertgeberMode::Throttle;
                },
                SollwertgeberMode::Brake | SollwertgeberMode::EmergencyBrake => {
                    if self.position < -150_000 {
                        self.speed = props.speed_normal;
                        self.target = -100_000;
                        if self.position < -900_000 {
                            self.position = -900_000;
                        }
                        self.mode = SollwertgeberMode::Brake;
                    } else {
                        self.speed = props.speed_high;
                        self.target = 0;
                        self.mode = SollwertgeberMode::Neutral;
                    }
                },
            }
        }
    }

    /// Pressing the neutral input: the handle ramps back to centre at the
    /// high tier from either side and the mode returns to neutral.
    pub fn on_neutral_pressed(&mut self, props: &SollwertgeberProperties)
        requires
            old(self).wf(),
            props.wf(),
        ensures
            final(self).wf(),
            final(self).position == old(self).position,
            final(self).notch == old(self).notch,
            final(self).target == 0i64,
            final(self).mode == SollwertgeberMode::Neutral,
            final(self).speed == if old(self).position > 0 {
                -(props.speed_high as int)
            } else {
                props.speed_high as int
            },
    {
        if self.position > 0 {
            self.speed = -props.speed_high;
        } else {
            self.speed = props.speed_high;
        }
        self.target = 0;
        self.mode = SollwertgeberMode::Neutral;
    }

    /// Pressing the emergency-brake input: unless locked, the handle slams
    /// toward full deflection at the very-high tier and the mode becomes
    /// emergency brake.
    pub fn on_max_brake_pressed(&mut self, lock: bool, props: &SollwertgeberProperties)
        requires
            old(self).wf(),
            props.wf(),
        ensures
            final(self).wf(),
            final(self).position == old(self).position,
            final(self).notch == old(self).notch,
            lock ==> *final(self) == *old(self),
            !lock ==> {
                &&& final(self).speed == -props.speed_very_high
                &&& final(self).target == -SCALE
                &&& final(self).mode == SollwertgeberMode::EmergencyBrake
            },
    {
        if !lock {
            self.speed = -props.speed_very_high;
            self.target = -SCALE;
            self.mode = SollwertgeberMode::EmergencyBrake;
        }
    }

    /// One integrator tick of `dt` microseconds: the position moves at the
    /// ramp speed and clamps exactly on the target, zeroing the speed on
    /// arrival; the notch follows the new position and the returned click is
    /// what the notch transition cues.
    pub fn tick(&mut self, dt: i64) -> (click: NotchClick)
        requires
            old(self).wf(),
            0 <= dt <= MAX_TICK,
        ensures
            final(self).wf(),
            final(self).position == position_after_tick(
                old(self).position as int, old(self).speed as int,
                old(self).target as int, dt as int),
            final(self).speed == if arrives_after_tick(
                old(self).position as int, old(self).speed as int,
                old(self).target as int, dt as int) { 0i64 } else { old(self).speed },
            final(self).target == old(self).target,
            final(self).mode == old(self).mode,
            final(self).notch == notch_of(final(self).position as int),
            click == click_of(old(self).notch, final(self).notch),
            -SCALE <= final(self).position <= SCALE,
    {
        let moved: i64 = if self.speed >= 0 {
            proof {
                lemma_ramp_product_bounds(self.speed as int, dt as int);
            }
            self.position + (self.speed * dt) / SCALE
        } else {
            proof {
                lemma_ramp_product_bounds(-(self.speed as int), dt as int);
            }
            self.position - ((-self.speed) * dt) / SCALE
        };
        let pos_max: i64 = if self.target < SCALE { self.target } else { SCALE };
        let pos_min: i64 = if self.target > -SCALE { self.target } else { -SCALE };
        if self.speed > 0 && moved > pos_max {
            self.position = pos_max;
            self.speed = 0;
        } else if self.speed < 0 && moved < pos_min {
            self.position = pos_min;
            self.speed = 0;
        } else {
            self.position = moved;
        }
        let new_notch = compute_notch(self.position);
        let click = compute_click(self.notch, new_notch);
        self.notch = new_notch;
        click
    }
}

/// The ramp displacement of one tick stays inside `i64` and within one
/// hundred times full travel.
proof fn lemma_ramp_product_bounds(speed: int, dt: int)
    requires
        0 <= speed <= MAX_RAMP,
        0 <= dt <= MAX_TICK,
    ensures
        0 <= speed * dt <= 1_000_000_000_000_000,
        0 <= (speed * dt) / (SCALE as int) <= 1_000_000_000,
{
    assert(0 <= speed * dt <= 1_000_000_000_000_000) by (nonlinear_arith)
        requires 0 <= speed <= 100_000_000, 0 <= dt <= 10_000_000;
    vstd::arithmetic::div_mod::lemma_div_is_ordered(0, speed * dt, SCALE as int);
    vstd::arithmetic::div_mod::lemma_div_is_ordered(
        speed * dt, 1_000_000_000_000_000, SCALE as int);
}

/// The notch zone of a position, as [`notch_of`] states it.
pub fn compute_notch(position: i64) -> (n: SollwertgeberNotch)
    ensures
        n == notch_of(position as int),
{
    if position < -950_000 {
        SollwertgeberNotch::EmergencyBrake
    } else if position < -870_000 {
        SollwertgeberNotch::MaxBrake
    } else if position < -130_000 {
        SollwertgeberNotch::Brake
    } else if position < -50_000 {
        SollwertgeberNotch::MinBrake
    } else if position < 50_000 {
        SollwertgeberNotch::Neutral
    } else if position < 130_000 {
        SollwertgeberNotch::MinThrottle
    } else if position < 970_000 {
        SollwertgeberNotch::Throttle
    } else {
        SollwertgeberNotch::MaxTrottle
    }
}

/// The click a notch transition cues, as [`click_of`] states it.
pub fn compute_click(old_notch: SollwertgeberNotch, new_notch: SollwertgeberNotch)
    -> (c: NotchClick)
    ensures
        c == click_of(old_notch, new_notch),
{
    if old_notch == new_notch {
        NotchClick::Silent
    } else if new_notch == SollwertgeberNotch::Neutral {
        NotchClick::Neutral
    } else if (old_notch == SollwertgeberNotch::Throttle
            && new_notch == SollwertgeberNotch::MaxTrottle)
        || (old_notch == SollwertgeberNotch::Brake
            && new_notch == SollwertgeberNotch::MaxBrake) {
        NotchClick::End
    } else if (old_notch == SollwertgeberNotch::MaxTrottle
            && new_notch == SollwertgeberNotch::Throttle)
        || (old_notch == SollwertgeberNotch::MaxBrake
            && new_notch == SollwertgeberNotch::Brake) {
        NotchClick::Silent
    } else {
        NotchClick::Other
    }
}

} // verus!
