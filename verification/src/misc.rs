//! Odds and ends: the bell and the point-crossing rumble.

use vstd::prelude::*;

use crate::standard_elements::Shared;

verus! {

/// The signal cells of the miscellaneous subsystem.
pub struct MiscState {
    /// Whether the bell rings.
    pub klingel: Shared<bool>,
}

/// A fresh miscellaneous subsystem with a silent bell.
pub fn add_misc() -> (s: MiscState)
    ensures
        !s.klingel.value,
{
    MiscState { klingel: Shared::new(false) }
}

/// Whether the rail under either of two axles rumbles like a point or a
/// flat groove; the host reports each axle's rail kind as the two flags.
pub fn weichen_rumpeln(quality_a_froggy_or_groove: bool, quality_b_froggy_or_groove: bool)
    -> (r: bool)
    ensures
        r == (quality_a_froggy_or_groove || quality_b_froggy_or_groove),
{
    quality_a_froggy_or_groove || quality_b_froggy_or_groove
}

/// The pitch of the rumble sound over the axle speed: a base of nine
/// tenths plus the speed's magnitude over eighteen metres per second,
/// millionths.
pub fn rumpeln_pitch(axle_speed: i64) -> (r: i64)
    requires
        -100_000_000 <= axle_speed <= 100_000_000,
    ensures
        r == 900_000 + (if axle_speed >= 0 { axle_speed as int } else {
            -(axle_speed as int)
        }) / 18,
{
    let speed_abs: i64 = if axle_speed >= 0 { axle_speed } else { -axle_speed };
    900_000 + speed_abs / 18
}

} // verus!
