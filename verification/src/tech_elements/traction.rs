//! The three-phase traction unit: the per-axle force model.
//!
//! Each tick the unit gates its commanded mode on supply voltage, the main
//! switch and rolling against the commanded direction, lags its normalized
//! force toward the commanded force, and scales it by the speed-dependent
//! reference force (power-limited when accelerating, slope-limited when
//! braking).

use vstd::prelude::*;

use crate::standard_elements::{
    approach_step, exponential_approach, mul_div_scale, mul_div_scale_spec, Shared, SCALE,
};

verus! {

/// Largest wheel-speed magnitude the unit accepts, millionths of a metre
/// per second.
pub const MAX_WHEEL_SPEED: i64 = 100_000_000;

/// Largest force and power figures the unit accepts, plain newtons and
/// watts.
pub const MAX_FORCE: i64 = 10_000_000;

/// What the traction unit is commanded to do.
#[derive(Debug, Clone, Copy, PartialEq, Eq, Structural, Default)]
pub enum TractionUnitMode {
    /// No force.
    #[default]
    Off,
    /// Accelerate forward.
    Forward,
    /// Accelerate backward.
    Backward,
    /// Brake electrically against the rolling direction.
    Brake,
}

impl TractionUnitMode {
    /// The sign of the commanded direction: forward positive, backward
    /// negative, otherwise zero.
    pub open spec fn spec_signum(&self) -> int {
        match self {
            TractionUnitMode::Forward => 1,
            TractionUnitMode::Backward => -1,
            _ => 0,
        }
    }

    /// The sign of the commanded direction, as [`spec_signum`] states it.
    pub fn signum(&self) -> (r: i64)
        ensures
            r == self.spec_signum(),
    {
        match self {
            TractionUnitMode::Forward => 1,
            TractionUnitMode::Backward => -1,
            _ => 0,
        }
    }
}

/// Configuration of one traction unit.
pub struct ThreePhaseTractionUnitProperties {
    /// Largest accelerating force, newtons; always positive.
    pub max_force_acceleration: i64,
    /// Largest accelerating power, watts; always positive.
    pub max_power_acceleration: i64,
    /// Largest braking force, newtons; always positive.
    pub max_force_braking: i64,
    /// Braking force slope over speed, newtons per metre per second.
    pub max_force_braking_per_speed: i64,
    /// Rolling against the commanded direction faster than this cuts the
    /// unit off, millionths of a metre per second; always positive.
    pub set_traction_max_reverse_speed: i64,
    /// Lag exponent of the force build-up, millionths per second; the host
    /// adapter turns it and the tick length into the per-tick blend.
    pub delay_exponent: i64,
    /// Supply voltage below which the unit cuts off, millionths.
    pub voltage_min: i64,
}

impl ThreePhaseTractionUnitProperties {
    /// All figures are within the accepted ranges.
    pub open spec fn wf(&self) -> bool {
        &&& 0 < self.max_force_acceleration <= MAX_FORCE
        &&& 0 < self.max_power_acceleration <= MAX_FORCE
        &&& 0 < self.max_force_braking <= MAX_FORCE
        &&& 0 <= self.max_force_braking_per_speed <= MAX_FORCE
        &&& 0 <= self.set_traction_max_reverse_speed <= MAX_WHEEL_SPEED
        &&& 0 <= self.voltage_min <= SCALE
    }
}

/// State of one traction unit.
pub struct ThreePhaseTractionUnitState {
    /// Force relative to the reference force, millionths, signed.
    pub current_force_normalized: Shared<i64>,
    /// Force at the wheel, plain newtons, signed.
    pub wheel_force: Shared<i64>,
}

/// The speed component along the commanded direction: the speed itself
/// going forward, its negation going backward, zero without a direction.
pub open spec fn speed_in_command_dir(speed: int, mode: TractionUnitMode) -> int {
    match mode {
        TractionUnitMode::Forward => speed,
        TractionUnitMode::Backward => -speed,
        _ => 0,
    }
}

/// The mode after the cut-off gates: off when the supply voltage is too
/// low, when the main switch is out, or when the vehicle rolls against the
/// commanded direction faster than allowed.
pub open spec fn gated_mode(prop: ThreePhaseTractionUnitProperties, mode: TractionUnitMode,
    voltage: int, high_voltage_switch: Option<bool>, speed: int) -> TractionUnitMode {
    if voltage < prop.voltage_min
        || !(match high_voltage_switch { Some(v) => v, None => true })
        || speed_in_command_dir(speed, mode) < -prop.set_traction_max_reverse_speed {
        TractionUnitMode::Off
    } else {
        mode
    }
}

/// The normalized force the lag runs toward: the commanded force in the
/// commanded direction when accelerating, against the rolling direction
/// when braking, zero when off.
pub open spec fn force_target(mode: TractionUnitMode, target_force: int, speed: int) -> int {
    match mode {
        TractionUnitMode::Off => 0,
        TractionUnitMode::Forward => target_force,
        TractionUnitMode::Backward => -target_force,
        TractionUnitMode::Brake => if speed > 0 {
            -target_force
        } else if speed < 0 {
            target_force
        } else {
            0
        },
    }
}

/// The reference force the normalized force is scaled by: when braking,
/// the speed-proportional slope capped at the braking maximum; otherwise
/// the power limit over the speed capped at the accelerating maximum.
pub open spec fn reference_force(prop: ThreePhaseTractionUnitProperties,
    mode: TractionUnitMode, speed: int) -> int {
    let speed_abs = if speed >= 0 { speed } else { -speed };
    if mode == TractionUnitMode::Brake {
        let slope = (prop.max_force_braking_per_speed * speed_abs) / (SCALE as int);
        if slope < prop.max_force_braking { slope } else { prop.max_force_braking as int }
    } else {
        let divisor = if speed_abs > 1000 { speed_abs } else { 1000 };
        let power_limited = (prop.max_power_acceleration * (SCALE as int)) / divisor;
        if power_limited < prop.max_force_acceleration {
            power_limited
        } else {
            prop.max_force_acceleration as int
        }
    }
}

/// A fresh traction unit applying no force.
pub fn add_three_phase_traction_unit() -> (s: ThreePhaseTractionUnitState)
    ensures
        s.current_force_normalized.value == 0,
        s.wheel_force.value == 0,
{
    ThreePhaseTractionUnitState {
        current_force_normalized: Shared::new(0),
        wheel_force: Shared::new(0),
    }
}

impl ThreePhaseTractionUnitState {
    /// The normalized force is within two units; demands may exceed one
    /// unit where the control deliberately over-brakes.
    pub open spec fn wf(&self) -> bool {
        -2 * SCALE <= self.current_force_normalized.value <= 2 * SCALE
    }

    /// One unit tick: the commanded mode is gated, the normalized force
    /// lags toward [`force_target`] by `delay_factor / SCALE` of the
    /// remaining distance, and the wheel force is the normalized force
    /// scaled by [`reference_force`].
    pub fn tick(
        &mut self,
        prop: &ThreePhaseTractionUnitProperties,
        mode: TractionUnitMode,
        target_force: i64,
        speed: i64,
        voltage: i64,
        high_voltage_switch: Option<bool>,
        delay_factor: i64,
    )
        requires
            old(self).wf(),
            prop.wf(),
            0 <= target_force <= 2 * SCALE,
            -MAX_WHEEL_SPEED <= speed <= MAX_WHEEL_SPEED,
            0 <= voltage <= 2 * SCALE,
            0 <= delay_factor <= SCALE,
        ensures
            final(self).wf(),
            ({
                let gated = gated_mode(*prop, mode, voltage as int, high_voltage_switch,
                    speed as int);
                let new_normalized = if gated == TractionUnitMode::Off { 0int } else {
                    approach_step(old(self).current_force_normalized.value as int,
                        delay_factor as int,
                        force_target(gated, target_force as int, speed as int))
                };
                &&& final(self).current_force_normalized.value == new_normalized
                &&& final(self).wheel_force.value == mul_div_scale_spec(new_normalized,
                    reference_force(*prop, gated, speed as int))
            }),
    {
        let speed_in_dir: i64 = match mode {
            TractionUnitMode::Forward => speed,
            TractionUnitMode::Backward => -speed,
            _ => 0,
        };
        let hv_on = match high_voltage_switch {
            Some(v) => v,
            None => true,
        };
        let gated = if voltage < prop.voltage_min || !hv_on
            || speed_in_dir < -prop.set_traction_max_reverse_speed {
            TractionUnitMode::Off
        } else {
            mode
        };

        let new_normalized: i64 = match gated {
            TractionUnitMode::Off => 0,
            TractionUnitMode::Forward => exponential_approach(
                self.current_force_normalized.get(),
                delay_factor,
                target_force,
            ),
            TractionUnitMode::Backward => exponential_approach(
                self.current_force_normalized.get(),
                delay_factor,
                -target_force,
            ),
            TractionUnitMode::Brake => {
                let target: i64 = if speed > 0 {
                    -target_force
                } else if speed < 0 {
                    target_force
                } else {
                    0
                };
                exponential_approach(self.current_force_normalized.get(), delay_factor, target)
            },
        };
        self.current_force_normalized.set(new_normalized);

        let speed_abs: i64 = if speed >= 0 { speed } else { -speed };
        let reference: i64 = if gated == TractionUnitMode::Brake {
            proof {
                lemma_braking_slope_bounds(prop.max_force_braking_per_speed as int,
                    speed_abs as int);
            }
            let slope = (prop.max_force_braking_per_speed * speed_abs) / SCALE;
            if slope < prop.max_force_braking {
                slope
            } else {
                prop.max_force_braking
            }
        } else {
            let divisor: i64 = if speed_abs > 1000 { speed_abs } else { 1000 };
            proof {
                lemma_power_limit_bounds(prop.max_power_acceleration as int, divisor as int);
            }
            let power_limited = (prop.max_power_acceleration * SCALE) / divisor;
            if power_limited < prop.max_force_acceleration {
                power_limited
            } else {
                prop.max_force_acceleration
            }
        };
        let force = mul_div_scale(new_normalized, reference);
        self.wheel_force.set(force);
    }
}

/// The braking-force slope stays inside `i64` and non-negative.
proof fn lemma_braking_slope_bounds(slope_per_speed: int, speed_abs: int)
    requires
        0 <= slope_per_speed <= MAX_FORCE,
        0 <= speed_abs <= MAX_WHEEL_SPEED,
    ensures
        0 <= slope_per_speed * speed_abs <= 1_000_000_000_000_000,
        0 <= (slope_per_speed * speed_abs) / (SCALE as int),
{
    assert(0 <= slope_per_speed * speed_abs <= 1_000_000_000_000_000) by (nonlinear_arith)
        requires 0 <= slope_per_speed <= 10_000_000, 0 <= speed_abs <= 100_000_000;
    vstd::arithmetic::div_mod::lemma_div_is_ordered(0, slope_per_speed * speed_abs,
        SCALE as int);
}

/// The power-limited force stays inside `i64` and non-negative.
proof fn lemma_power_limit_bounds(power: int, divisor: int)
    requires
        0 < power <= MAX_FORCE,
        1000 <= divisor,
    ensures
        0 <= power * (SCALE as int) <= 10_000_000_000_000,
        0 <= (power * (SCALE as int)) / divisor,
{
    assert(0 <= power * (SCALE as int) <= 10_000_000_000_000) by (nonlinear_arith)
        requires 0 < power <= 10_000_000, SCALE == 1_000_000;
    vstd::arithmetic::div_mod::lemma_div_is_ordered(0, power * (SCALE as int), divisor);
}

} // verus!
