//! The random draws that a tick may consume, and the generator they come from.
//!
//! Chance enters the engine only here. Everything else takes the numbers that
//! were drawn as plain values, so that a tick is a function of its inputs.

use vstd::prelude::*;
use bracket_lib::prelude::RandomNumberGenerator;
use crate::SCREEN_HEIGHT;

verus! {

/// The generator of `bracket_lib`, carried through as an opaque value.
#[verifier::external_type_specification]
#[verifier::external_body]
pub struct ExRandomNumberGenerator(RandomNumberGenerator);

/// Calls `RandomNumberGenerator::range` on `i32`. Trusted: for `min < max` the
/// call returns a number that is at least `min` and below `max`. With an empty
/// range the call would panic, so that is ruled out.
#[verifier::external_body]
pub(crate) fn range_i32(rng: &mut RandomNumberGenerator, min: i32, max: i32) -> (r: i32)
    requires
        min < max,
    ensures
        min <= r < max,
{
    rng.range(min, max)
}

/// Percentage below which an obstacle is a special one, once the score allows.
pub const SPECIAL_CHANCE: i32 = 30;

/// Lowest row a gap can be centred on when an obstacle appears.
pub const GAP_ROW_MIN: i32 = 10;

/// Highest row a gap can be centred on when an obstacle appears.
pub const GAP_ROW_MAX: i32 = 40;

/// Rows kept free above and below a power-up that appears.
pub const POWERUP_MARGIN: i32 = 5;

/// The draws that shape one obstacle.
#[derive(Debug, Clone, Copy, PartialEq, Eq, Structural)]
pub struct ObstacleRolls {
    /// A percentage: below thirty selects a special obstacle.
    pub special: i32,
    /// Which special obstacle: zero moves, anything else rotates.
    pub kind: i32,
    /// The row the gap is centred on.
    pub gap_y: i32,
}

/// The draws that shape one power-up.
#[derive(Debug, Clone, Copy, PartialEq, Eq, Structural)]
pub struct PowerUpRolls {
    /// Which effect: zero to three.
    pub kind: i32,
    /// The row it appears in.
    pub y: i32,
}

/// All draws one tick can need: at most one obstacle and one power-up appear
/// in a tick.
#[derive(Debug, Clone, Copy, PartialEq, Eq, Structural)]
pub struct Rolls {
    pub obstacle: ObstacleRolls,
    pub powerup: PowerUpRolls,
}

impl ObstacleRolls {
    /// The values a generator can produce.
    pub open spec fn in_range(self) -> bool {
        &&& 0 <= self.special < 100
        &&& 0 <= self.kind < 2
        &&& GAP_ROW_MIN <= self.gap_y <= GAP_ROW_MAX
    }

    /// Draws the three numbers of an obstacle.
    pub fn draw(rng: &mut RandomNumberGenerator) -> (r: ObstacleRolls)
        ensures
            r.in_range(),
    {
        let special: i32 = range_i32(rng, 0, 100);
        let kind: i32 = range_i32(rng, 0, 2);
        let gap_y: i32 = range_i32(rng, GAP_ROW_MIN, GAP_ROW_MAX + 1);
        ObstacleRolls { special, kind, gap_y }
    }
}

impl PowerUpRolls {
    /// The values a generator can produce.
    pub open spec fn in_range(self) -> bool {
        &&& 0 <= self.kind < 4
        &&& POWERUP_MARGIN <= self.y <= SCREEN_HEIGHT - POWERUP_MARGIN
    }

    /// Draws the two numbers of a power-up.
    pub fn draw(rng: &mut RandomNumberGenerator) -> (r: PowerUpRolls)
        ensures
            r.in_range(),
    {
        let kind: i32 = range_i32(rng, 0, 4);
        let y: i32 = range_i32(rng, POWERUP_MARGIN, SCREEN_HEIGHT - POWERUP_MARGIN + 1);
        PowerUpRolls { kind, y }
    }
}

impl Rolls {
    /// The values a generator can produce.
    pub open spec fn in_range(self) -> bool {
        &&& self.obstacle.in_range()
        &&& self.powerup.in_range()
    }

    /// Draws everything one tick can need.
    pub fn draw(rng: &mut RandomNumberGenerator) -> (r: Rolls)
        ensures
            r.in_range(),
    {
        let obstacle = ObstacleRolls::draw(rng);
        let powerup = PowerUpRolls::draw(rng);
        Rolls { obstacle, powerup }
    }
}

} // verus!
