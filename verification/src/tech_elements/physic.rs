//! The inertial slider: a grabbable mass with friction and two bumpers.

use vstd::prelude::*;

use crate::standard_elements::{mul_div_scale, mul_div_scale_spec, Shared, SCALE};
use crate::tech_elements::simple::MAX_TICK;

verus! {

/// Largest slider speed the model accepts, millionths of travel per
/// second.
pub const MAX_SLIDER_SPEED: i64 = 1_000_000_000;

/// Largest slider position magnitude the model accepts, millionths.
pub const MAX_SLIDER_POSITION: i64 = 1_000_000_000;

/// Which bumper the slider hit.
#[derive(Debug, Clone, Copy, PartialEq, Eq, Structural)]
pub enum InertionSliderBump {
    /// The lower end of the travel.
    Lower,
    /// The upper end of the travel.
    Upper,
}

impl InertionSliderBump {
    /// The bumper at an index of the configuration pair: the lower end
    /// first, the upper end second, nothing beyond.
    pub fn from_index(index: usize) -> (r: Option<Self>)
        ensures
            r == match index {
                0usize => Some(InertionSliderBump::Lower),
                1usize => Some(InertionSliderBump::Upper),
                _ => Option::<InertionSliderBump>::None,
            },
    {
        match index {
            0 => Some(Self::Lower),
            1 => Some(Self::Upper),
            _ => None,
        }
    }
}

/// Configuration of one bumper.
pub struct InertionSliderBumpProperties {
    /// Where the bumper sits, millionths; `None` leaves that end open.
    pub position: Option<i64>,
    /// Rebound factor in `[0, SCALE]`; `None` stops the slider dead.
    pub factor: Option<i64>,
    /// Sound fired on impact, if any.
    pub sound: Option<String>,
    /// Volume variable written on impact, if any.
    pub sound_vol: Option<String>,
    /// Volume per unit of impact speed, millionths.
    pub sound_vol_factor: Option<i64>,
}

/// Configuration of an inertial slider: friction plus its two bumpers.
pub struct InertionSliderProperties {
    /// Friction deceleration, millionths of travel per second per second.
    pub friction: i64,
    /// The lower bumper.
    pub bump_lower: InertionSliderBumpProperties,
    /// The upper bumper.
    pub bump_upper: InertionSliderBumpProperties,
}

impl InertionSliderBumpProperties {
    /// Bounds of one bumper's figures.
    pub open spec fn wf(&self) -> bool {
        &&& match self.position {
            Some(p) => -MAX_SLIDER_POSITION <= p <= MAX_SLIDER_POSITION,
            None => true,
        }
        &&& match self.factor {
            Some(f) => -SCALE <= f <= SCALE,
            None => true,
        }
        &&& match self.sound_vol_factor {
            Some(f) => 0 <= f <= 10_000_000,
            None => true,
        }
    }
}

impl InertionSliderProperties {
    /// Bounds of the slider's figures.
    pub open spec fn wf(&self) -> bool {
        &&& 0 <= self.friction <= 1_000_000_000
        &&& self.bump_lower.wf()
        &&& self.bump_upper.wf()
    }
}

/// The signal cells of one inertial slider.
pub struct InertionSliderState {
    /// Slider position, millionths.
    pub position: Shared<i64>,
    /// Slider velocity, millionths per second.
    pub velocity: Shared<i64>,
    /// Whether a hand holds the slider.
    pub grabbing: Shared<bool>,
    /// How far the hand moved it this tick, millionths.
    pub grabbing_delta: Shared<i64>,
    /// Extra acceleration acting on it, millionths per second per second.
    pub additional_force: Shared<i64>,
}

/// What one slider tick reports of each bumper: whether it was hit, and
/// the impact volume to write if one is configured.
pub struct InertionSliderBumpEvent {
    /// The bumper was hit this tick.
    pub hit: bool,
    /// Volume to write, millionths.
    pub volume: Option<i64>,
}

/// What one slider tick reports.
pub struct InertionSliderTickEvents {
    /// The lower bumper.
    pub lower: InertionSliderBumpEvent,
    /// The upper bumper.
    pub upper: InertionSliderBumpEvent,
}

/// A fresh slider at rest at zero.
pub fn add_inertion_slider() -> (s: InertionSliderState)
    ensures
        s.wf(),
        s.position.value == 0,
        s.velocity.value == 0,
        !s.grabbing.value,
{
    InertionSliderState {
        position: Shared::new(0),
        velocity: Shared::new(0),
        grabbing: Shared::new(false),
        grabbing_delta: Shared::new(0),
        additional_force: Shared::new(0),
    }
}

/// The free velocity after one tick: the extra force integrates in, then
/// friction eats into the magnitude, stopping at zero; the result is held
/// inside the model's speed range.
pub open spec fn slider_free_velocity(velocity: int, additional_force: int, friction: int,
    dt: int) -> int {
    let friction_delta = mul_div_scale_spec(friction, dt);
    let adjusted = velocity + mul_div_scale_spec(additional_force, dt);
    let magnitude = if adjusted >= 0 { adjusted } else { -adjusted };
    if magnitude <= friction_delta {
        0
    } else if adjusted > 0 {
        clamp_speed(adjusted - friction_delta)
    } else {
        clamp_speed(adjusted + friction_delta)
    }
}

/// The speed of the hand: the grab displacement over the tick length,
/// rounded toward zero.
pub open spec fn grab_velocity(delta: int, dt: int) -> int {
    if delta >= 0 {
        (delta * (SCALE as int)) / dt
    } else {
        -((-delta * (SCALE as int)) / dt)
    }
}

/// A position held inside the model's travel range.
pub open spec fn clamp_travel(p: int) -> int {
    if p > MAX_SLIDER_POSITION {
        MAX_SLIDER_POSITION as int
    } else if p < -MAX_SLIDER_POSITION {
        -MAX_SLIDER_POSITION as int
    } else {
        p
    }
}

/// The rebound velocity off the upper bumper: reversed and scaled by the
/// factor (negative factors count as zero), or zero without a factor; the
/// lower bumper scales without reversing, mirroring the drive's asymmetric
/// impact handling.
pub open spec fn slider_bounce_velocity(velocity: int, factor: Option<i64>) -> int {
    match factor {
        Some(f) => {
            let f0 = if f >= 0 { f as int } else { 0 };
            -mul_div_scale_spec(velocity, f0)
        },
        None => 0,
    }
}

impl InertionSliderState {
    /// Position and velocity are within the model's ranges.
    pub open spec fn wf(&self) -> bool {
        &&& -MAX_SLIDER_POSITION <= self.position.value <= MAX_SLIDER_POSITION
        &&& -MAX_SLIDER_SPEED <= self.velocity.value <= MAX_SLIDER_SPEED
        &&& -10_000_000 <= self.grabbing_delta.value <= 10_000_000
        &&& -1_000_000_000 <= self.additional_force.value <= 1_000_000_000
    }

    /// One slider tick.  Held, the slider follows the hand and takes the
    /// hand's speed; free, the extra force and friction act on its
    /// velocity and the position integrates it.  Crossing a bumper clamps
    /// the position to the bumper, rebounds the velocity with the
    /// bumper's factor, and reports the hit with the impact volume.
    pub fn tick(&mut self, prop: &InertionSliderProperties, dt: i64)
        -> (events: InertionSliderTickEvents)
        requires
            old(self).wf(),
            prop.wf(),
            1 <= dt <= MAX_TICK,
        ensures
            final(self).wf(),
            final(self).grabbing == old(self).grabbing,
            final(self).grabbing_delta == old(self).grabbing_delta,
            final(self).additional_force == old(self).additional_force,
            ({
                let moved = if old(self).grabbing.value {
                    old(self).grabbing_delta.value as int
                } else {
                    mul_div_scale_spec(slider_free_velocity(old(self).velocity.value as int,
                        old(self).additional_force.value as int, prop.friction as int,
                        dt as int), dt as int)
                };
                let v1 = if old(self).grabbing.value {
                    clamp_speed(grab_velocity(old(self).grabbing_delta.value as int,
                        dt as int))
                } else {
                    slider_free_velocity(old(self).velocity.value as int,
                        old(self).additional_force.value as int, prop.friction as int,
                        dt as int)
                };
                let p1 = clamp_travel(old(self).position.value + moved);
                let hit_lower = match prop.bump_lower.position {
                    Some(b) => p1 < b,
                    None => false,
                };
                let p2 = if hit_lower { prop.bump_lower.position->Some_0 as int } else { p1 };
                let v2 = if hit_lower {
                    -slider_bounce_velocity(v1, prop.bump_lower.factor)
                } else {
                    v1
                };
                let hit_upper = match prop.bump_upper.position {
                    Some(b) => p2 > b,
                    None => false,
                };
                let p3 = if hit_upper { prop.bump_upper.position->Some_0 as int } else { p2 };
                let v3 = if hit_upper {
                    slider_bounce_velocity(v2, prop.bump_upper.factor)
                } else {
                    v2
                };
                &&& final(self).position.value == p3
                &&& final(self).velocity.value == v3
                &&& events.lower.hit == hit_lower
                &&& events.upper.hit == hit_upper
                &&& events.lower.volume == if hit_lower {
                    match prop.bump_lower.sound_vol_factor {
                        Some(f) => Some(mul_div_scale_spec(if v2 >= 0 { v2 } else { -v2 },
                            f as int) as i64),
                        None => Option::<i64>::None,
                    }
                } else {
                    Option::<i64>::None
                }
                &&& events.upper.volume == if hit_upper {
                    match prop.bump_upper.sound_vol_factor {
                        Some(f) => Some(mul_div_scale_spec(if v3 >= 0 { v3 } else { -v3 },
                            f as int) as i64),
                        None => Option::<i64>::None,
                    }
                } else {
                    Option::<i64>::None
                }
            }),
    {
        let moved: i64;
        let mut velocity: i64;
        if self.grabbing.get() {
            moved = self.grabbing_delta.get();
            proof {
                lemma_grab_velocity_bounds(self.grabbing_delta.value as int, dt as int);
            }
            let delta = self.grabbing_delta.get();
            let raw: i64 = if delta >= 0 {
                delta * SCALE / dt
            } else {
                -((-delta) * SCALE / dt)
            };
            velocity = if raw > MAX_SLIDER_SPEED {
                MAX_SLIDER_SPEED
            } else if raw < -MAX_SLIDER_SPEED {
                -MAX_SLIDER_SPEED
            } else {
                raw
            };
        } else {
            let friction_delta = mul_div_scale(prop.friction, dt);
            let adjusted = self.velocity.get() + mul_div_scale(self.additional_force.get(), dt);
            let magnitude: i64 = if adjusted >= 0 { adjusted } else { -adjusted };
            let slowed: i64 = if magnitude <= friction_delta {
                0
            } else if adjusted > 0 {
                adjusted - friction_delta
            } else {
                adjusted + friction_delta
            };
            velocity = if slowed > MAX_SLIDER_SPEED {
                MAX_SLIDER_SPEED
            } else if slowed < -MAX_SLIDER_SPEED {
                -MAX_SLIDER_SPEED
            } else {
                slowed
            };
            moved = mul_div_scale(velocity, dt);
        }

        let raw_position = self.position.get() + moved;
        let mut position: i64 = if raw_position > MAX_SLIDER_POSITION {
            MAX_SLIDER_POSITION
        } else if raw_position < -MAX_SLIDER_POSITION {
            -MAX_SLIDER_POSITION
        } else {
            raw_position
        };

        let mut lower = InertionSliderBumpEvent { hit: false, volume: None };
        let mut upper = InertionSliderBumpEvent { hit: false, volume: None };

        match prop.bump_lower.position {
            Some(b) => {
                if position < b {
                    position = b;
                    let bounced: i64 = match prop.bump_lower.factor {
                        Some(f) => {
                            let f0: i64 = if f >= 0 { f } else { 0 };
                            mul_div_scale(velocity, f0)
                        },
                        None => 0,
                    };
                    velocity = bounced;
                    let volume: Option<i64> = match prop.bump_lower.sound_vol_factor {
                        Some(f) => {
                            let mag: i64 = if velocity >= 0 { velocity } else { -velocity };
                            Some(mul_div_scale(mag, f))
                        },
                        None => None,
                    };
                    lower = InertionSliderBumpEvent { hit: true, volume };
                }
            },
            None => {},
        }

        match prop.bump_upper.position {
            Some(b) => {
                if position > b {
                    position = b;
                    let bounced: i64 = match prop.bump_upper.factor {
                        Some(f) => {
                            let f0: i64 = if f >= 0 { f } else { 0 };
                            -mul_div_scale(velocity, f0)
                        },
                        None => 0,
                    };
                    velocity = bounced;
                    let volume: Option<i64> = match prop.bump_upper.sound_vol_factor {
                        Some(f) => {
                            let mag: i64 = if velocity >= 0 { velocity } else { -velocity };
                            Some(mul_div_scale(mag, f))
                        },
                        None => None,
                    };
                    upper = InertionSliderBumpEvent { hit: true, volume };
                }
            },
            None => {},
        }

        self.position.set_only_on_change(position);
        self.velocity.set_only_on_change(velocity);

        InertionSliderTickEvents { lower, upper }
    }
}

/// A velocity clamped into the model's speed range.
pub open spec fn clamp_speed(v: int) -> int {
    if v > MAX_SLIDER_SPEED {
        MAX_SLIDER_SPEED as int
    } else if v < -MAX_SLIDER_SPEED {
        -MAX_SLIDER_SPEED as int
    } else {
        v
    }
}

/// The hand-speed quotient stays inside `i64` whatever the sign of the
/// displacement.
proof fn lemma_grab_velocity_bounds(delta: int, dt: int)
    requires
        -10_000_000 <= delta <= 10_000_000,
        1 <= dt,
    ensures
        0 <= (if delta >= 0 { delta } else { -delta }) * (SCALE as int)
            <= 10_000_000_000_000,
        0 <= ((if delta >= 0 { delta } else { -delta }) * (SCALE as int)) / dt
            <= 10_000_000_000_000,
{
    let m = if delta >= 0 { delta } else { -delta };
    assert(0 <= m * (SCALE as int) <= 10_000_000_000_000) by (nonlinear_arith)
        requires 0 <= m <= 10_000_000, SCALE == 1_000_000;
    vstd::arithmetic::div_mod::lemma_div_is_ordered(0, m * (SCALE as int), dt);
    vstd::arithmetic::div_mod::lemma_div_nonincreasing(m * (SCALE as int), dt);
}

} // verus!
