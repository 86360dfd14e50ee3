//! The cockpit's step-switch position types.
//!
//! Each enum is a closed set of switch positions with a next and a previous
//! position (held at the ends of the travel) and a table mapping each
//! position to the value its animation variable shows and the sound a move
//! onto it cues.

use vstd::prelude::*;

verus! {

/// One row of a step-switch output table: a position, the value its
/// animation shows (millionths), and the sound cued on reaching it.
pub struct SoundAndVarSetState<T> {
    /// The switch position this row is for.
    pub input: T,
    /// The animation value of the position, millionths.
    pub output: i64,
    /// The sound cued when the switch reaches the position, if any.
    pub sound: Option<String>,
}

/// Position of the direction selector (reverser): off, cab occupied,
/// forward, reverse.
#[derive(Debug, Default, Clone, Copy, PartialEq, Eq, Structural)]
pub enum RichtungswenderState {
    #[default]
    O,
    I,
    V,
    R,
}

impl RichtungswenderState {
    /// The next position up, held at the top.
    pub fn next(&self) -> (r: Self)
        ensures
            r == match self {
                RichtungswenderState::O => RichtungswenderState::I,
                RichtungswenderState::I => RichtungswenderState::V,
                RichtungswenderState::V => RichtungswenderState::R,
                RichtungswenderState::R => RichtungswenderState::R,
            },
    {
        match self {
            RichtungswenderState::O => RichtungswenderState::I,
            RichtungswenderState::I => RichtungswenderState::V,
            RichtungswenderState::V => RichtungswenderState::R,
            RichtungswenderState::R => RichtungswenderState::R,
        }
    }

    /// The next position down, held at the bottom.
    pub fn previous(&self) -> (r: Self)
        ensures
            r == match self {
                RichtungswenderState::O => RichtungswenderState::O,
                RichtungswenderState::I => RichtungswenderState::O,
                RichtungswenderState::V => RichtungswenderState::I,
                RichtungswenderState::R => RichtungswenderState::V,
            },
    {
        match self {
            RichtungswenderState::O => RichtungswenderState::O,
            RichtungswenderState::I => RichtungswenderState::O,
            RichtungswenderState::V => RichtungswenderState::I,
            RichtungswenderState::R => RichtungswenderState::V,
        }
    }

    /// The selector's angle at each position, millionths of a degree
    /// divided out: plain degrees.
    pub open spec fn spec_angle(&self) -> int {
        match self {
            RichtungswenderState::O => 0,
            RichtungswenderState::I => 29,
            RichtungswenderState::V => 58,
            RichtungswenderState::R => 135,
        }
    }

    /// The position's index on the switch travel.
    pub fn index(&self) -> (r: i8)
        ensures
            r == match self {
                RichtungswenderState::O => 0int,
                RichtungswenderState::I => 1int,
                RichtungswenderState::V => 2int,
                RichtungswenderState::R => 3int,
            },
    {
        match self {
            RichtungswenderState::O => 0,
            RichtungswenderState::I => 1,
            RichtungswenderState::V => 2,
            RichtungswenderState::R => 3,
        }
    }

    /// The position at an index; anything out of range is the off
    /// position.
    pub fn from_index(value: i8) -> (r: Self)
        ensures
            r == match value {
                1i8 => RichtungswenderState::I,
                2i8 => RichtungswenderState::V,
                3i8 => RichtungswenderState::R,
                _ => RichtungswenderState::O,
            },
    {
        match value {
            1 => RichtungswenderState::I,
            2 => RichtungswenderState::V,
            3 => RichtungswenderState::R,
            _ => RichtungswenderState::O,
        }
    }

    /// The output table of the selector: each position, its angle, and the
    /// same move sound on every row.
    pub fn generate_with_this_sound(sound: &Option<String>)
        -> (rows: Vec<SoundAndVarSetState<Self>>)
        ensures
            rows.len() == 4,
            rows[0].input == RichtungswenderState::O && rows[0].output == 0i64,
            rows[1].input == RichtungswenderState::I && rows[1].output == 29_000_000i64,
            rows[2].input == RichtungswenderState::V && rows[2].output == 58_000_000i64,
            rows[3].input == RichtungswenderState::R && rows[3].output == 135_000_000i64,
            forall|i: int| 0 <= i < 4 ==> #[trigger] rows[i].sound == *sound,
    {
        let mut rows: Vec<SoundAndVarSetState<Self>> = Vec::new();
        rows.push(SoundAndVarSetState {
            input: RichtungswenderState::O,
            output: 0,
            sound: clone_sound(sound),
        });
        rows.push(SoundAndVarSetState {
            input: RichtungswenderState::I,
            output: 29_000_000,
            sound: clone_sound(sound),
        });
        rows.push(SoundAndVarSetState {
            input: RichtungswenderState::V,
            output: 58_000_000,
            sound: clone_sound(sound),
        });
        rows.push(SoundAndVarSetState {
            input: RichtungswenderState::R,
            output: 135_000_000,
            sound: clone_sound(sound),
        });
        rows
    }
}

/// A copy of an optional sound name that names the same sound.
pub fn clone_sound(sound: &Option<String>) -> (r: Option<String>)
    ensures
        r == *sound,
{
    match sound {
        Some(s) => Some(s.clone()),
        None => None,
    }
}

/// Position of the indicator switch.
#[derive(Debug, Default, Clone, Copy, PartialEq, Eq, Structural)]
pub enum BlinkerSwitch {
    Left,
    #[default]
    Off,
    Right,
}

impl BlinkerSwitch {
    /// The next position toward the right, held at the right.
    pub fn next(&self) -> (r: Self)
        ensures
            r == match self {
                BlinkerSwitch::Left => BlinkerSwitch::Off,
                BlinkerSwitch::Off => BlinkerSwitch::Right,
                BlinkerSwitch::Right => BlinkerSwitch::Right,
            },
    {
        match self {
            BlinkerSwitch::Left => BlinkerSwitch::Off,
            BlinkerSwitch::Off => BlinkerSwitch::Right,
            BlinkerSwitch::Right => BlinkerSwitch::Right,
        }
    }

    /// The next position toward the left, held at the left.
    pub fn previous(&self) -> (r: Self)
        ensures
            r == match self {
                BlinkerSwitch::Left => BlinkerSwitch::Left,
                BlinkerSwitch::Off => BlinkerSwitch::Left,
                BlinkerSwitch::Right => BlinkerSwitch::Off,
            },
    {
        match self {
            BlinkerSwitch::Left => BlinkerSwitch::Left,
            BlinkerSwitch::Off => BlinkerSwitch::Left,
            BlinkerSwitch::Right => BlinkerSwitch::Off,
        }
    }

    /// The output table of the indicator switch.
    pub fn generate_with_this_sound(sound: &Option<String>)
        -> (rows: Vec<SoundAndVarSetState<Self>>)
        ensures
            rows.len() == 3,
            rows[0].input == BlinkerSwitch::Left && rows[0].output == 0i64,
            rows[1].input == BlinkerSwitch::Off && rows[1].output == 1_000_000i64,
            rows[2].input == BlinkerSwitch::Right && rows[2].output == 2_000_000i64,
            forall|i: int| 0 <= i < 3 ==> #[trigger] rows[i].sound == *sound,
    {
        let mut rows: Vec<SoundAndVarSetState<Self>> = Vec::new();
        rows.push(SoundAndVarSetState {
            input: BlinkerSwitch::Left,
            output: 0,
            sound: clone_sound(sound),
        });
        rows.push(SoundAndVarSetState {
            input: BlinkerSwitch::Off,
            output: 1_000_000,
            sound: clone_sound(sound),
        });
        rows.push(SoundAndVarSetState {
            input: BlinkerSwitch::Right,
            output: 2_000_000,
            sound: clone_sound(sound),
        });
        rows
    }
}

/// Position of the outside-light switch.
#[derive(Debug, Default, Clone, Copy, PartialEq, Eq, Structural)]
pub enum OutsideLightSwitch {
    #[default]
    Off,
    Stand,
    Abblend,
    Fern,
}

impl OutsideLightSwitch {
    /// The next position up, held at the top.
    pub fn next(&self) -> (r: Self)
        ensures
            r == match self {
                OutsideLightSwitch::Off => OutsideLightSwitch::Stand,
                OutsideLightSwitch::Stand => OutsideLightSwitch::Abblend,
                OutsideLightSwitch::Abblend => OutsideLightSwitch::Fern,
                OutsideLightSwitch::Fern => OutsideLightSwitch::Fern,
            },
    {
        match self {
            OutsideLightSwitch::Off => OutsideLightSwitch::Stand,
            OutsideLightSwitch::Stand => OutsideLightSwitch::Abblend,
            OutsideLightSwitch::Abblend => OutsideLightSwitch::Fern,
            OutsideLightSwitch::Fern => OutsideLightSwitch::Fern,
        }
    }

    /// The next position down, held at the bottom.
    pub fn previous(&self) -> (r: Self)
        ensures
            r == match self {
                OutsideLightSwitch::Off => OutsideLightSwitch::Off,
                OutsideLightSwitch::Stand => OutsideLightSwitch::Off,
                OutsideLightSwitch::Abblend => OutsideLightSwitch::Stand,
                OutsideLightSwitch::Fern => OutsideLightSwitch::Abblend,
            },
    {
        match self {
            OutsideLightSwitch::Off => OutsideLightSwitch::Off,
            OutsideLightSwitch::Stand => OutsideLightSwitch::Off,
            OutsideLightSwitch::Abblend => OutsideLightSwitch::Stand,
            OutsideLightSwitch::Fern => OutsideLightSwitch::Abblend,
        }
    }

    /// The output table of the outside-light switch.
    pub fn generate_with_this_sound(sound: &Option<String>)
        -> (rows: Vec<SoundAndVarSetState<Self>>)
        ensures
            rows.len() == 4,
            rows[0].input == OutsideLightSwitch::Off && rows[0].output == 0i64,
            rows[1].input == OutsideLightSwitch::Stand && rows[1].output == 1_000_000i64,
            rows[2].input == OutsideLightSwitch::Abblend && rows[2].output == 2_000_000i64,
            rows[3].input == OutsideLightSwitch::Fern && rows[3].output == 3_000_000i64,
            forall|i: int| 0 <= i < 4 ==> #[trigger] rows[i].sound == *sound,
    {
        let mut rows: Vec<SoundAndVarSetState<Self>> = Vec::new();
        rows.push(SoundAndVarSetState {
            input: OutsideLightSwitch::Off,
            output: 0,
            sound: clone_sound(sound),
        });
        rows.push(SoundAndVarSetState {
            input: OutsideLightSwitch::Stand,
            output: 1_000_000,
            sound: clone_sound(sound),
        });
        rows.push(SoundAndVarSetState {
            input: OutsideLightSwitch::Abblend,
            output: 2_000_000,
            sound: clone_sound(sound),
        });
        rows.push(SoundAndVarSetState {
            input: OutsideLightSwitch::Fern,
            output: 3_000_000,
            sound: clone_sound(sound),
        });
        rows
    }
}

/// Position of the door switch; the first position addresses the first
/// door alone and is spring-loaded.
#[derive(Debug, Default, Clone, Copy, PartialEq, Eq, Structural)]
pub enum DoorSwitch {
    Tuer1,
    #[default]
    Closed,
    Released,
    Open,
}

impl DoorSwitch {
    /// The next position up, held at the top.
    pub fn next(&self) -> (r: Self)
        ensures
            r == match self {
                DoorSwitch::Tuer1 => DoorSwitch::Closed,
                DoorSwitch::Closed => DoorSwitch::Released,
                DoorSwitch::Released => DoorSwitch::Open,
                DoorSwitch::Open => DoorSwitch::Open,
            },
    {
        match self {
            DoorSwitch::Tuer1 => DoorSwitch::Closed,
            DoorSwitch::Closed => DoorSwitch::Released,
            DoorSwitch::Released => DoorSwitch::Open,
            DoorSwitch::Open => DoorSwitch::Open,
        }
    }

    /// The next position down, held at the bottom.
    pub fn previous(&self) -> (r: Self)
        ensures
            r == match self {
                DoorSwitch::Tuer1 => DoorSwitch::Tuer1,
                DoorSwitch::Closed => DoorSwitch::Tuer1,
                DoorSwitch::Released => DoorSwitch::Closed,
                DoorSwitch::Open => DoorSwitch::Released,
            },
    {
        match self {
            DoorSwitch::Tuer1 => DoorSwitch::Tuer1,
            DoorSwitch::Closed => DoorSwitch::Tuer1,
            DoorSwitch::Released => DoorSwitch::Closed,
            DoorSwitch::Open => DoorSwitch::Released,
        }
    }

    /// The output table of the door switch.
    pub fn generate_with_this_sound(sound: &Option<String>)
        -> (rows: Vec<SoundAndVarSetState<Self>>)
        ensures
            rows.len() == 4,
            rows[0].input == DoorSwitch::Tuer1 && rows[0].output == -1_000_000i64,
            rows[1].input == DoorSwitch::Closed && rows[1].output == 0i64,
            rows[2].input == DoorSwitch::Released && rows[2].output == 1_000_000i64,
            rows[3].input == DoorSwitch::Open && rows[3].output == 2_000_000i64,
            forall|i: int| 0 <= i < 4 ==> #[trigger] rows[i].sound == *sound,
    {
        let mut rows: Vec<SoundAndVarSetState<Self>> = Vec::new();
        rows.push(SoundAndVarSetState {
            input: DoorSwitch::Tuer1,
            output: -1_000_000,
            sound: clone_sound(sound),
        });
        rows.push(SoundAndVarSetState {
            input: DoorSwitch::Closed,
            output: 0,
            sound: clone_sound(sound),
        });
        rows.push(SoundAndVarSetState {
            input: DoorSwitch::Released,
            output: 1_000_000,
            sound: clone_sound(sound),
        });
        rows.push(SoundAndVarSetState {
            input: DoorSwitch::Open,
            output: 2_000_000,
            sound: clone_sound(sound),
        });
        rows
    }
}

} // verus!
