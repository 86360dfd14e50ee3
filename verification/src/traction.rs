//! The vehicle-level traction and brake control loop.
//!
//! Each tick the control turns the direction selector, the handle demand
//! and the vehicle speed into a traction-unit mode and a normalized force
//! demand, drives the parking brake from the spring-loaded brake, and
//! blends the hydraulic brake in at low speed and while the vehicle is held
//! at rest.

use vstd::prelude::*;

use crate::standard_elements::{mul_div_scale, mul_div_scale_spec, Shared, SCALE};
use crate::tech_elements::traction::{TractionUnitMode, MAX_WHEEL_SPEED};

verus! {

/// Top speed forward, millionths of a metre per second (60 km/h).
pub const VMAX: i64 = 16_666_667;

/// Top speed in reverse, millionths of a metre per second (15 km/h).
pub const VMAX_BACK: i64 = 4_166_667;

/// Speed below which the electric brake blends over to the hydraulic one,
/// millionths of a metre per second (5 km/h).
pub const V_EBRAKE_LIMIT: i64 = 1_388_889;

/// Full force of one axle's brake, plain newtons.
pub const MAXBRAKEFORCE_N: i64 = 16_000;

/// The direction the vehicle is commanded to drive in.
#[derive(Debug, Clone, Copy, PartialEq, Eq, Structural)]
pub enum TractionDirection {
    Forward,
    Neutral,
    Backward,
}

/// The signal cells the traction subsystem shares with the rest of the
/// vehicle.
pub struct TractionState {
    /// Commanded driving direction.
    pub direction: Shared<TractionDirection>,
    /// Handle demand in `[-SCALE, SCALE]`.
    pub target: Shared<i64>,
    /// Whether the spring-loaded parking brake is applied.
    pub federspeicher: Shared<bool>,
    /// Vehicle speed, millionths of a metre per second.
    pub speed: Shared<i64>,
    /// Whether the magnetic rail brake is commanded.
    pub mg: Shared<bool>,
    /// Whether sanding is commanded.
    pub sanding: Shared<bool>,
}

/// A fresh traction subsystem at rest, commanded forward.
pub fn add_traction() -> (s: TractionState)
    ensures
        s.direction.value == TractionDirection::Forward,
        s.target.value == 0,
        !s.federspeicher.value,
        s.speed.value == 0,
        !s.mg.value,
        !s.sanding.value,
{
    TractionState {
        direction: Shared::new(TractionDirection::Forward),
        target: Shared::new(0),
        federspeicher: Shared::new(false),
        speed: Shared::new(0),
        mg: Shared::new(false),
        sanding: Shared::new(false),
    }
}

/// The normalized traction demand: full braking under the emergency
/// demand; the braking side of the handle scaled up by one ninth; zero
/// above the direction's top speed; the handle demand otherwise.
pub open spec fn target_traction_of(sollwertgeber: int, reversed: bool, speed_in_dir: int,
    max_brake: bool) -> int {
    if max_brake {
        -SCALE as int
    } else if sollwertgeber < 0 {
        mul_div_scale_spec(sollwertgeber, 1_111_000)
    } else if (!reversed && speed_in_dir > VMAX) || (reversed && speed_in_dir > VMAX_BACK) {
        0
    } else {
        sollwertgeber
    }
}

/// The unit mode a traction demand asks for: accelerating in the commanded
/// direction above one hundredth of demand, braking below minus one
/// hundredth, off in between.
pub open spec fn traction_mode_of(target_traction: int, reversed: bool) -> TractionUnitMode {
    if target_traction > 10_000 {
        if reversed {
            TractionUnitMode::Backward
        } else {
            TractionUnitMode::Forward
        }
    } else if target_traction < -10_000 {
        TractionUnitMode::Brake
    } else {
        TractionUnitMode::Off
    }
}

/// The hydraulic brake demand: full while the vehicle is held at rest
/// without the parking brake or under the emergency demand; while braking
/// electrically, the demand blended in below the blend-over speed; zero
/// otherwise.
pub open spec fn pneu_target_of(mode_fixed: bool, federspeicher_active: bool,
    max_brake: bool, mode: TractionUnitMode, target_traction: int, speed: int) -> int {
    if (mode_fixed && !federspeicher_active) || max_brake {
        SCALE as int
    } else if mode == TractionUnitMode::Brake {
        let speed_abs = if speed >= 0 { speed } else { -speed };
        let blend_off = (speed_abs * (SCALE as int)) / (V_EBRAKE_LIMIT as int);
        let blend = if SCALE - blend_off > 0 { SCALE - blend_off } else { 0 };
        let demand_abs = if target_traction >= 0 { target_traction } else { -target_traction };
        mul_div_scale_spec(demand_abs, blend)
    } else {
        0
    }
}

/// What one control tick hands to the host and the units.
pub struct TractionControlOutputs {
    /// Mode of the traction units.
    pub traction_mode: TractionUnitMode,
    /// Normalized force demand of the units, in `[0, SCALE]`.
    pub target_force: i64,
    /// Parking-brake demand, full scale or zero.
    pub parking_brake_target: i64,
    /// Hydraulic brake demand, in `[0, SCALE]`.
    pub hydraulic_brake_target: i64,
    /// Level of the brake-squeal sound, millionths.
    pub brake_flirr: i64,
    /// Whether the stopping-jolt sound fires now.
    pub halteruck: bool,
}

/// The latches of the traction control loop.
pub struct TractionControl {
    /// Whether the vehicle is held at rest by the hydraulic brake.
    pub mode_fixed: bool,
    /// Speed seen on the previous tick.
    pub prev_speed: i64,
}

/// A fresh control, holding the vehicle.
pub fn traction_control_new() -> (c: TractionControl)
    ensures
        c.mode_fixed,
        c.prev_speed == 0,
{
    TractionControl { mode_fixed: true, prev_speed: 0 }
}

impl TractionControl {
    /// One control tick.  The traction demand follows
    /// [`target_traction_of`] with the emergency demand below minus
    /// ninety-five hundredths of the handle; the unit mode follows
    /// [`traction_mode_of`]; the hold latch releases while accelerating or
    /// rolling and re-engages once the vehicle is slow without an
    /// accelerating mode; the parking brake follows the spring-loaded
    /// brake; the hydraulic demand follows [`pneu_target_of`]; the squeal
    /// level is the first unit's force against the full brake force while
    /// braking; and the stopping jolt fires exactly when the speed reaches
    /// zero from nonzero.
    pub fn tick(
        &mut self,
        richtungswender: TractionDirection,
        sollwertgeber: i64,
        speed: i64,
        federspeicher_active: bool,
        wheel_force_0: i64,
    ) -> (out: TractionControlOutputs)
        requires
            -SCALE <= sollwertgeber <= SCALE,
            -MAX_WHEEL_SPEED <= speed <= MAX_WHEEL_SPEED,
            -1_000_000_000 <= wheel_force_0 <= 1_000_000_000,
        ensures
            ({
                let max_brake = sollwertgeber < -950_000;
                let reversed = richtungswender == TractionDirection::Backward;
                let speed_in_dir = if reversed { -(speed as int) } else { speed as int };
                let target_traction = target_traction_of(sollwertgeber as int, reversed,
                    speed_in_dir, max_brake);
                let mode = traction_mode_of(target_traction, reversed);
                let mode_acceleration = mode == TractionUnitMode::Forward
                    || mode == TractionUnitMode::Backward;
                &&& out.traction_mode == mode
                &&& out.target_force == if target_traction >= 0 { target_traction } else {
                    -target_traction
                }
                &&& 0 <= out.target_force <= 2 * SCALE
                &&& final(self).mode_fixed == if (mode_acceleration && target_traction > 0)
                    || speed_in_dir > 100_000 {
                    false
                } else if speed_in_dir < 100_000 && !mode_acceleration {
                    true
                } else {
                    old(self).mode_fixed
                }
                &&& out.parking_brake_target == if federspeicher_active { SCALE } else { 0i64 }
                &&& out.hydraulic_brake_target == pneu_target_of(final(self).mode_fixed,
                    federspeicher_active, max_brake, mode, target_traction, speed as int)
                &&& out.brake_flirr == if mode == TractionUnitMode::Brake {
                    ((if wheel_force_0 >= 0 { wheel_force_0 as int } else {
                        -(wheel_force_0 as int)
                    }) * (SCALE as int)) / (MAXBRAKEFORCE_N as int)
                } else {
                    0int
                }
                &&& out.halteruck == (speed == 0 && old(self).prev_speed != 0)
                &&& final(self).prev_speed == speed
            }),
    {
        let max_brake = sollwertgeber < -950_000;
        let reversed = richtungswender == TractionDirection::Backward;
        let speed_in_dir: i64 = if reversed { -speed } else { speed };

        let target_traction: i64 = if max_brake {
            -SCALE
        } else if sollwertgeber < 0 {
            proof {
                lemma_brake_demand_bounds(sollwertgeber as int);
            }
            mul_div_scale(sollwertgeber, 1_111_000)
        } else if (!reversed && speed_in_dir > VMAX) || (reversed && speed_in_dir > VMAX_BACK) {
            0
        } else {
            sollwertgeber
        };
        assert(-2 * SCALE <= target_traction <= SCALE);

        let mode: TractionUnitMode = if target_traction > 10_000 {
            if reversed {
                TractionUnitMode::Backward
            } else {
                TractionUnitMode::Forward
            }
        } else if target_traction < -10_000 {
            TractionUnitMode::Brake
        } else {
            TractionUnitMode::Off
        };

        let mode_acceleration = mode == TractionUnitMode::Forward
            || mode == TractionUnitMode::Backward;

        if (mode_acceleration && target_traction > 0) || speed_in_dir > 100_000 {
            self.mode_fixed = false;
        } else if speed_in_dir < 100_000 && !mode_acceleration {
            self.mode_fixed = true;
        }

        let target_force: i64 = if target_traction >= 0 {
            target_traction
        } else {
            -target_traction
        };

        let parking_brake_target: i64 = if federspeicher_active { SCALE } else { 0 };

        let brake_flirr: i64 = if mode == TractionUnitMode::Brake {
            let force_abs: i64 = if wheel_force_0 >= 0 { wheel_force_0 } else {
                -wheel_force_0
            };
            proof {
                lemma_flirr_bounds(force_abs as int);
            }
            (force_abs * SCALE) / MAXBRAKEFORCE_N
        } else {
            0
        };

        let hydraulic_brake_target: i64 = if (self.mode_fixed && !federspeicher_active)
            || max_brake {
            SCALE
        } else if mode == TractionUnitMode::Brake {
            let speed_abs: i64 = if speed >= 0 { speed } else { -speed };
            proof {
                lemma_blend_bounds(speed_abs as int);
            }
            let blend_off: i64 = (speed_abs * SCALE) / V_EBRAKE_LIMIT;
            let blend: i64 = if SCALE - blend_off > 0 { SCALE - blend_off } else { 0 };
            let demand_abs: i64 = if target_traction >= 0 { target_traction } else {
                -target_traction
            };
            mul_div_scale(demand_abs, blend)
        } else {
            0
        };

        let halteruck = speed == 0 && self.prev_speed != 0;
        self.prev_speed = speed;

        TractionControlOutputs {
            traction_mode: mode,
            target_force,
            parking_brake_target,
            hydraulic_brake_target,
            brake_flirr,
            halteruck,
        }
    }
}

/// The scaled-up braking demand stays within two units.
proof fn lemma_brake_demand_bounds(sollwertgeber: int)
    requires
        -SCALE <= sollwertgeber < 0,
    ensures
        -2 * SCALE <= mul_div_scale_spec(sollwertgeber, 1_111_000) <= 0,
{
    let s = SCALE as int;
    let m = -sollwertgeber;
    assert(0 <= m * 1_111_000 <= 1_111_000_000_000) by (nonlinear_arith)
        requires 0 <= m <= 1_000_000;
    vstd::arithmetic::div_mod::lemma_div_is_ordered(0, m * 1_111_000, s);
    vstd::arithmetic::div_mod::lemma_div_is_ordered(m * 1_111_000, 1_111_000_000_000, s);
}

/// The squeal quotient stays inside `i64`.
proof fn lemma_flirr_bounds(force_abs: int)
    requires
        0 <= force_abs <= 1_000_000_000,
    ensures
        0 <= force_abs * (SCALE as int) <= 1_000_000_000_000_000,
        0 <= (force_abs * (SCALE as int)) / (MAXBRAKEFORCE_N as int),
{
    assert(0 <= force_abs * (SCALE as int) <= 1_000_000_000_000_000) by (nonlinear_arith)
        requires 0 <= force_abs <= 1_000_000_000, SCALE == 1_000_000;
    vstd::arithmetic::div_mod::lemma_div_is_ordered(0, force_abs * (SCALE as int),
        MAXBRAKEFORCE_N as int);
}

/// The blend-over quotient stays inside `i64`.
proof fn lemma_blend_bounds(speed_abs: int)
    requires
        0 <= speed_abs <= MAX_WHEEL_SPEED,
    ensures
        0 <= speed_abs * (SCALE as int) <= 100_000_000_000_000,
        0 <= (speed_abs * (SCALE as int)) / (V_EBRAKE_LIMIT as int),
{
    assert(0 <= speed_abs * (SCALE as int) <= 100_000_000_000_000) by (nonlinear_arith)
        requires 0 <= speed_abs <= 100_000_000, SCALE == 1_000_000;
    vstd::arithmetic::div_mod::lemma_div_is_ordered(0, speed_abs * (SCALE as int),
        V_EBRAKE_LIMIT as int);
}

} // verus!
