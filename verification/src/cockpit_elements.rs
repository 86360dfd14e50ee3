//! A self-contained cockpit: direction selector, combined handle and
//! speedometer.
//!
//! This is the compact cockpit model: the direction selector steps through
//! its four positions, the handle integrates a held input into a demand in
//! `[-SCALE, SCALE]`, and the speedometer shows the magnitude of an axle
//! speed.  The host adapter feeds the input edges in and writes the
//! animation values out.

use vstd::prelude::*;

use crate::cockpit_types::RichtungswenderState;
use vstd::string::StringExecFns;
use crate::standard_elements::{mul_div_scale, mul_div_scale_spec, SCALE};

verus! {

/// Longest tick the handle integrator accepts, in microseconds.
pub const MAX_TICK: i64 = 10_000_000;

/// The direction selector of the compact cockpit.
#[derive(Debug, Default, Clone, Copy, PartialEq, Eq, Structural)]
pub struct Richtungswender {
    /// Current selector position.
    pub state: RichtungswenderState,
}

impl Richtungswender {
    /// The angle the selector's animation shows, plain degrees.
    pub fn angle(&self) -> (r: i64)
        ensures
            r == self.state.spec_angle(),
    {
        match self.state {
            RichtungswenderState::O => 0,
            RichtungswenderState::I => 29,
            RichtungswenderState::V => 58,
            RichtungswenderState::R => 135,
        }
    }

    /// One tick: the value the selector's animation variable must show.
    pub fn tick(&self) -> (r: i64)
        ensures
            r == self.state.spec_angle(),
    {
        self.angle()
    }

    /// Step the selector one position up, held at reverse.
    pub fn plus(&mut self)
        ensures
            final(self).state == match old(self).state {
                RichtungswenderState::O => RichtungswenderState::I,
                RichtungswenderState::I => RichtungswenderState::V,
                RichtungswenderState::V => RichtungswenderState::R,
                RichtungswenderState::R => RichtungswenderState::R,
            },
    {
        match self.state {
            RichtungswenderState::O => {
                self.state = RichtungswenderState::I;
            },
            RichtungswenderState::I => {
                self.state = RichtungswenderState::V;
            },
            RichtungswenderState::V => {
                self.state = RichtungswenderState::R;
            },
            RichtungswenderState::R => {},
        }
    }

    /// Step the selector one position down, held at off.
    pub fn minus(&mut self)
        ensures
            final(self).state == match old(self).state {
                RichtungswenderState::O => RichtungswenderState::O,
                RichtungswenderState::I => RichtungswenderState::O,
                RichtungswenderState::V => RichtungswenderState::I,
                RichtungswenderState::R => RichtungswenderState::V,
            },
    {
        match self.state {
            RichtungswenderState::O => {},
            RichtungswenderState::I => {
                self.state = RichtungswenderState::O;
            },
            RichtungswenderState::V => {
                self.state = RichtungswenderState::I;
            },
            RichtungswenderState::R => {
                self.state = RichtungswenderState::V;
            },
        }
    }
}

/// The combined throttle/brake handle of the compact cockpit: a demand in
/// `[-SCALE, SCALE]` moved by a held input.
#[derive(Debug, Default, Clone, Copy, PartialEq, Eq, Structural)]
pub struct Sollwertgeber {
    /// Current demand, in `[-SCALE, SCALE]`.
    pub state: i64,
}

impl Sollwertgeber {
    /// The demand is within full travel.
    pub open spec fn wf(&self) -> bool {
        -SCALE <= self.state <= SCALE
    }

    /// One tick: the value the handle's animation variable must show.
    pub fn tick(&self) -> (r: i64)
        ensures
            r == self.state,
    {
        self.state
    }

    /// Move the demand at `speed` (millionths of full travel per second,
    /// signed) for `dt` microseconds, clamped to full travel.
    pub fn moving(&mut self, speed: i64, dt: i64)
        requires
            old(self).wf(),
            -100_000_000 <= speed <= 100_000_000,
            0 <= dt <= MAX_TICK,
        ensures
            final(self).wf(),
            final(self).state == ({
                let moved = old(self).state + mul_div_scale_spec(speed as int, dt as int);
                if moved > SCALE {
                    SCALE as int
                } else if moved < -SCALE {
                    -SCALE as int
                } else {
                    moved
                }
            }),
    {
        let moved = self.state + mul_div_scale(speed, dt);
        self.state = if moved > SCALE {
            SCALE
        } else if moved < -SCALE {
            -SCALE
        } else {
            moved
        };
    }

    /// Set the demand outright, clamped to full travel.
    pub fn set(&mut self, position: i64)
        ensures
            final(self).wf(),
            final(self).state == if position > SCALE {
                SCALE as int
            } else if position < -SCALE {
                -SCALE as int
            } else {
                position as int
            },
    {
        self.state = if position > SCALE {
            SCALE
        } else if position < -SCALE {
            -SCALE
        } else {
            position
        };
    }
}

/// The speedometer: it shows the magnitude of one axle's speed.
pub struct Tacho {
    /// Host variable the speedometer writes.
    pub tacho_variable: String,
    /// Host variable of the axle speed it reads.
    pub axle_variable: String,
}

impl Tacho {
    /// A speedometer between the two named host variables.
    pub fn new(tacho_var: String, axle_var: String) -> (t: Self)
        ensures
            t.tacho_variable == tacho_var,
            t.axle_variable == axle_var,
    {
        Tacho { tacho_variable: tacho_var, axle_variable: axle_var }
    }

    /// One tick: the value the speedometer must show for an axle speed,
    /// its magnitude.
    pub fn tick(&self, axle_speed: i64) -> (r: i64)
        requires
            axle_speed != i64::MIN,
        ensures
            r == if axle_speed >= 0 { axle_speed as int } else { -(axle_speed as int) },
    {
        if axle_speed >= 0 {
            axle_speed
        } else {
            -axle_speed
        }
    }
}

/// What one cockpit tick hands back to the host: the animation values and
/// the speedometer value.
pub struct CockpitTickOutputs {
    /// Angle of the direction selector, plain degrees.
    pub richtungswender_angle: i64,
    /// Position of the handle, millionths.
    pub sollwertgeber_position: i64,
    /// Value of the speedometer, millionths of a metre per second.
    pub tacho_value: i64,
}

/// The input edges and held inputs of one cockpit tick.
pub struct CockpitInputs {
    /// The reverser-up input was just pressed.
    pub reverser_plus: bool,
    /// The reverser-down input was just pressed.
    pub reverser_minus: bool,
    /// The throttle input is held.
    pub throttle: bool,
    /// The brake input is held.
    pub brake: bool,
    /// The neutral input is held.
    pub neutral: bool,
}

/// The compact cockpit.
pub struct Cockpit {
    /// The direction selector.
    pub richtungswender: Richtungswender,
    /// The combined handle.
    pub sollwertgeber: Sollwertgeber,
    /// The speedometer.
    pub tacho: Tacho,
}

/// The handle demand after one cockpit tick: pressed neutral overrides,
/// else the held throttle and brake inputs each move the demand by one
/// full travel per second.
pub open spec fn cockpit_demand_after(state: int, inputs: CockpitInputs, dt: int) -> int {
    let after_throttle = if inputs.throttle {
        clamp_travel(state + mul_div_scale_spec(SCALE as int, dt))
    } else {
        state
    };
    let after_brake = if inputs.brake {
        clamp_travel(after_throttle + mul_div_scale_spec(-SCALE as int, dt))
    } else {
        after_throttle
    };
    if inputs.neutral {
        0
    } else {
        after_brake
    }
}

/// A demand clamped to full travel.
pub open spec fn clamp_travel(v: int) -> int {
    if v > SCALE {
        SCALE as int
    } else if v < -SCALE {
        -SCALE as int
    } else {
        v
    }
}

impl Cockpit {
    /// The handle is within its travel.
    pub open spec fn wf(&self) -> bool {
        self.sollwertgeber.wf()
    }

    /// A fresh cockpit at rest, wired to the speedometer of the leading
    /// bogie.
    pub fn new() -> (c: Self)
        ensures
            c.wf(),
            c.richtungswender.state == RichtungswenderState::O,
            c.sollwertgeber.state == 0,
    {
        Cockpit {
            richtungswender: Richtungswender { state: RichtungswenderState::O },
            sollwertgeber: Sollwertgeber { state: 0 },
            tacho: Tacho {
                tacho_variable: new_strlit_string("v_Axle_mps_0_1_abs"),
                axle_variable: new_strlit_string("v_Axle_mps_0_1"),
            },
        }
    }

    /// One cockpit tick: the input edges step the selector and move the
    /// handle, and the returned values are what the host variables must
    /// show.
    pub fn tick(&mut self, inputs: &CockpitInputs, axle_speed: i64, dt: i64)
        -> (out: CockpitTickOutputs)
        requires
            old(self).wf(),
            0 <= dt <= MAX_TICK,
            axle_speed != i64::MIN,
        ensures
            final(self).wf(),
            final(self).richtungswender.state == ({
                let after_plus = if inputs.reverser_plus {
                    match old(self).richtungswender.state {
                        RichtungswenderState::O => RichtungswenderState::I,
                        RichtungswenderState::I => RichtungswenderState::V,
                        RichtungswenderState::V => RichtungswenderState::R,
                        RichtungswenderState::R => RichtungswenderState::R,
                    }
                } else {
                    old(self).richtungswender.state
                };
                if inputs.reverser_minus {
                    match after_plus {
                        RichtungswenderState::O => RichtungswenderState::O,
                        RichtungswenderState::I => RichtungswenderState::O,
                        RichtungswenderState::V => RichtungswenderState::I,
                        RichtungswenderState::R => RichtungswenderState::V,
                    }
                } else {
                    after_plus
                }
            }),
            final(self).sollwertgeber.state == cockpit_demand_after(
                old(self).sollwertgeber.state as int, *inputs, dt as int),
            out.richtungswender_angle == final(self).richtungswender.state.spec_angle(),
            out.sollwertgeber_position == final(self).sollwertgeber.state,
            out.tacho_value == if axle_speed >= 0 { axle_speed as int } else {
                -(axle_speed as int)
            },
    {
        if inputs.reverser_plus {
            self.richtungswender.plus();
        }
        if inputs.reverser_minus {
            self.richtungswender.minus();
        }
        if inputs.throttle {
            self.sollwertgeber.moving(SCALE, dt);
        }
        if inputs.brake {
            self.sollwertgeber.moving(-SCALE, dt);
        }
        if inputs.neutral {
            self.sollwertgeber.set(0);
        }
        CockpitTickOutputs {
            richtungswender_angle: self.richtungswender.tick(),
            sollwertgeber_position: self.sollwertgeber.tick(),
            tacho_value: self.tacho.tick(axle_speed),
        }
    }

    /// The traction demand the cockpit commands: the positive side of the
    /// handle, signed by the selector (forward positive, reverse negative,
    /// nothing otherwise).
    pub fn target_traction(&self) -> (r: i64)
        requires
            self.wf(),
        ensures
            r == ({
                let traction = if self.sollwertgeber.state >= 0 {
                    self.sollwertgeber.state as int
                } else {
                    0
                };
                match self.richtungswender.state {
                    RichtungswenderState::V => traction,
                    RichtungswenderState::R => -traction,
                    _ => 0,
                }
            }),
    {
        let traction: i64 = if self.sollwertgeber.state >= 0 {
            self.sollwertgeber.state
        } else {
            0
        };
        match self.richtungswender.state {
            RichtungswenderState::V => traction,
            RichtungswenderState::R => -traction,
            _ => 0,
        }
    }

    /// The brake demand the cockpit commands: the negative side of the
    /// handle, made positive.
    pub fn target_brake(&self) -> (r: i64)
        requires
            self.wf(),
        ensures
            r == if self.sollwertgeber.state < 0 { -(self.sollwertgeber.state as int) } else {
                0int
            },
    {
        if self.sollwertgeber.state < 0 {
            -self.sollwertgeber.state
        } else {
            0
        }
    }
}

/// An owned copy of a string literal.
fn new_strlit_string(s: &str) -> (r: String)
    ensures
        r@ == s@,
{
    String::from_str(s)
}

} // verus!
