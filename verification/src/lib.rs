//! Simulation core of a side-scrolling arcade game.
//!
//! The engine is tick driven: a host hands it the time that passed and at most
//! one input command, and the engine advances the player, the obstacle, the
//! power-ups and the mode of the game. All quantities are integers. Fractions
//! are kept in thousandths (velocities and multipliers) and time is kept in
//! microseconds, so that every step is exact and repeatable.

use vstd::prelude::*;

pub mod canvas;
pub mod difficulty;
pub mod display;
pub mod game;
pub mod laws;
pub mod obstacle;
pub mod player;
pub mod powerup;
pub mod rolls;
pub mod scores;

verus! {

/// Width of the playfield in grid columns.
pub const SCREEN_WIDTH: i32 = 90;

/// Height of the playfield in grid rows.
pub const SCREEN_HEIGHT: i32 = 50;

/// Time between two motion steps of the player, in microseconds.
pub const FRAME_DURATION: u64 = 75_000;

/// The larger of two integers.
pub open spec fn max_int(a: int, b: int) -> int {
    if a >= b {
        a
    } else {
        b
    }
}

/// The smaller of two integers.
pub open spec fn min_int(a: int, b: int) -> int {
    if a <= b {
        a
    } else {
        b
    }
}

/// Limits `v` to the values an `i32` can hold.
pub open spec fn clamp_i32(v: int) -> int {
    if v < i32::MIN {
        i32::MIN as int
    } else if v > i32::MAX {
        i32::MAX as int
    } else {
        v
    }
}

/// Quotient of `a` by a positive `b`, rounded towards zero.
pub open spec fn div_toward_zero(a: int, b: int) -> int
    recommends
        b > 0,
{
    if a >= 0 {
        a / b
    } else {
        -((-a) / b)
    }
}

/// Narrows a 64-bit value to 32 bits, stopping at the ends of the range.
pub fn saturate_i32(v: i64) -> (r: i32)
    ensures
        r as int == clamp_i32(v as int),
{
    if v < i32::MIN as i64 {
        i32::MIN
    } else if v > i32::MAX as i64 {
        i32::MAX
    } else {
        v as i32
    }
}

} // verus!
