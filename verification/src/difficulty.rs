//! Difficulty levels and the constants each of them selects.

use vstd::prelude::*;
use vstd::string::StringSliceAdditionalSpecFns;
use crate::{clamp_i32, div_toward_zero, max_int, min_int, saturate_i32};

verus! {

/// The four levels a game can be played at.
#[derive(Debug, Clone, Copy, PartialEq, Eq, Structural)]
pub enum Difficulty {
    Easy,
    Normal,
    Hard,
    Insane,
}

impl Difficulty {
    /// The ASCII bytes of the level's name, as written in a score record.
    pub open spec fn name_bytes(self) -> Seq<u8> {
        match self {
            Difficulty::Easy => seq![0x45u8, 0x61u8, 0x73u8, 0x79u8],
            Difficulty::Normal => seq![0x4eu8, 0x6fu8, 0x72u8, 0x6du8, 0x61u8, 0x6cu8],
            Difficulty::Hard => seq![0x48u8, 0x61u8, 0x72u8, 0x64u8],
            Difficulty::Insane => seq![0x49u8, 0x6eu8, 0x73u8, 0x61u8, 0x6eu8, 0x65u8],
        }
    }

    /// The level that `bytes` names, if they are exactly one level's name.
    pub open spec fn parse_name(bytes: Seq<u8>) -> Option<Difficulty> {
        if bytes == Difficulty::Easy.name_bytes() {
            Some(Difficulty::Easy)
        } else if bytes == Difficulty::Normal.name_bytes() {
            Some(Difficulty::Normal)
        } else if bytes == Difficulty::Hard.name_bytes() {
            Some(Difficulty::Hard)
        } else if bytes == Difficulty::Insane.name_bytes() {
            Some(Difficulty::Insane)
        } else {
            None
        }
    }

    /// Every level is found again from its own name.
    pub proof fn lemma_name_round_trip(self)
        ensures
            Difficulty::parse_name(self.name_bytes()) == Some(self),
    {
        let e = Difficulty::Easy.name_bytes();
        let n = Difficulty::Normal.name_bytes();
        let h = Difficulty::Hard.name_bytes();
        let i = Difficulty::Insane.name_bytes();
        assert(e.len() == 4 && h.len() == 4 && n.len() == 6 && i.len() == 6);
        assert(e[0] != h[0]);
        assert(n[0] != i[0]);
    }

    /// The level's name as bytes.
    pub fn name(&self) -> (r: Vec<u8>)
        ensures
            r@ == self.name_bytes(),
    {
        let r = match self {
            Difficulty::Easy => vec![0x45u8, 0x61u8, 0x73u8, 0x79u8],
            Difficulty::Normal => vec![0x4eu8, 0x6fu8, 0x72u8, 0x6du8, 0x61u8, 0x6cu8],
            Difficulty::Hard => vec![0x48u8, 0x61u8, 0x72u8, 0x64u8],
            Difficulty::Insane => vec![0x49u8, 0x6eu8, 0x73u8, 0x61u8, 0x6eu8, 0x65u8],
        };
        assert(r@ =~= self.name_bytes());
        r
    }

    /// Reads a level from the bytes of its name. Anything but one of the four
    /// names, letter for letter, is rejected.
    pub fn from_bytes(bytes: &[u8]) -> (r: Option<Difficulty>)
        ensures
            r == Difficulty::parse_name(bytes@),
    {
        if same_bytes(bytes, Difficulty::Easy.name().as_slice()) {
            Some(Difficulty::Easy)
        } else if same_bytes(bytes, Difficulty::Normal.name().as_slice()) {
            Some(Difficulty::Normal)
        } else if same_bytes(bytes, Difficulty::Hard.name().as_slice()) {
            Some(Difficulty::Hard)
        } else if same_bytes(bytes, Difficulty::Insane.name().as_slice()) {
            Some(Difficulty::Insane)
        } else {
            None
        }
    }

    /// Reads a level from its name.
    pub fn from_str(s: &str) -> (r: Result<Difficulty, ()>)
        ensures
            r.is_ok() == Difficulty::parse_name(s.spec_bytes()).is_some(),
            r.is_ok() ==> Some(r.unwrap()) == Difficulty::parse_name(s.spec_bytes()),
    {
        match Difficulty::from_bytes(s.as_bytes()) {
            Some(d) => Ok(d),
            None => Err(()),
        }
    }
}

/// Whether two byte strings hold the same bytes.
pub fn same_bytes(a: &[u8], b: &[u8]) -> (r: bool)
    ensures
        r == (a@ == b@),
{
    if a.len() != b.len() {
        return false;
    }
    let mut i: usize = 0;
    while i < a.len()
        invariant
            a@.len() == b@.len(),
            i <= a@.len(),
            forall|j: int| 0 <= j < i ==> a@[j] == b@[j],
        decreases a.len() - i,
    {
        if a[i] != b[i] {
            return false;
        }
        i += 1;
    }
    assert(a@ =~= b@);
    true
}

/// The constants of one level. Multipliers are in thousandths, the spawn
/// interval in microseconds.
#[derive(Debug, Clone, Copy, PartialEq, Eq, Structural)]
pub struct DifficultySettings {
    /// Base scroll speed of obstacles, in thousandths of a column per tick.
    pub obstacle_speed_multiplier: i32,
    /// Rows added to (or, if negative, taken from) every gap.
    pub obstacle_gap_size_modifier: i32,
    /// Lives a game starts with.
    pub starting_lives: i32,
    /// Time between two power-up spawns, in microseconds.
    pub powerup_spawn_rate: u32,
    /// Factor on points, kept with the level.
    pub score_multiplier: i32,
    /// Factor on gravity and divisor of the flap impulse, in thousandths.
    pub gravity_multiplier: i32,
}

/// Speed gained per point of score, in thousandths.
pub const SPEED_PER_POINT: i64 = 20;

/// Most speed the score can add, in thousandths.
pub const SPEED_BONUS_CAP: i64 = 500;

/// Smallest gap an obstacle can have, in rows.
pub const MIN_GAP_SIZE: i32 = 4;

/// Rows by which a score narrows the gap: one for every ten points, three at
/// most.
pub open spec fn score_reduction(score: int) -> int {
    min_int(div_toward_zero(score, 10), 3)
}

impl DifficultySettings {
    /// The constants of `difficulty`, as a specification.
    pub open spec fn profile(difficulty: Difficulty) -> DifficultySettings {
        match difficulty {
            Difficulty::Easy => DifficultySettings {
                obstacle_speed_multiplier: 700,
                obstacle_gap_size_modifier: 3,
                starting_lives: 5,
                powerup_spawn_rate: 3_000_000,
                score_multiplier: 1,
                gravity_multiplier: 800,
            },
            Difficulty::Normal => DifficultySettings {
                obstacle_speed_multiplier: 1000,
                obstacle_gap_size_modifier: 0,
                starting_lives: 3,
                powerup_spawn_rate: 4_000_000,
                score_multiplier: 1,
                gravity_multiplier: 1000,
            },
            Difficulty::Hard => DifficultySettings {
                obstacle_speed_multiplier: 1300,
                obstacle_gap_size_modifier: -2i32,
                starting_lives: 2,
                powerup_spawn_rate: 5_000_000,
                score_multiplier: 2,
                gravity_multiplier: 1200,
            },
            Difficulty::Insane => DifficultySettings {
                obstacle_speed_multiplier: 1600,
                obstacle_gap_size_modifier: -4i32,
                starting_lives: 1,
                powerup_spawn_rate: 6_000_000,
                score_multiplier: 3,
                gravity_multiplier: 1500,
            },
        }
    }

    /// What the engine needs of a set of constants: gravity that pulls, and at
    /// least one life to start with.
    pub open spec fn wf(self) -> bool {
        &&& self.gravity_multiplier > 0
        &&& self.starting_lives > 0
    }

    /// Obstacle speed at `score`, in thousandths of a column per tick: the base
    /// speed plus twenty thousandths per point, five hundred at most.
    pub open spec fn dynamic_speed(self, score: int) -> int {
        self.obstacle_speed_multiplier + min_int(score * SPEED_PER_POINT as int, SPEED_BONUS_CAP as int)
    }

    /// Gap size at `score` for an obstacle of `base_size`: the level's modifier
    /// widens or narrows it, the score narrows it, and it never falls below
    /// four rows.
    pub open spec fn dynamic_gap_size(self, base_size: int, score: int) -> int {
        max_int(
            MIN_GAP_SIZE as int,
            base_size + self.obstacle_gap_size_modifier - score_reduction(score),
        )
    }

    /// Columns an obstacle scrolls per tick at `score`: the whole part of the
    /// speed, and at least one.
    pub open spec fn scroll_step(self, score: int) -> int {
        max_int(1, self.dynamic_speed(score) / 1000)
    }

    /// The constants of `difficulty`.
    pub fn new(difficulty: Difficulty) -> (r: DifficultySettings)
        ensures
            r == DifficultySettings::profile(difficulty),
            r.wf(),
    {
        match difficulty {
            Difficulty::Easy => DifficultySettings {
                obstacle_speed_multiplier: 700,
                obstacle_gap_size_modifier: 3,
                starting_lives: 5,
                powerup_spawn_rate: 3_000_000,
                score_multiplier: 1,
                gravity_multiplier: 800,
            },
            Difficulty::Normal => DifficultySettings {
                obstacle_speed_multiplier: 1000,
                obstacle_gap_size_modifier: 0,
                starting_lives: 3,
                powerup_spawn_rate: 4_000_000,
                score_multiplier: 1,
                gravity_multiplier: 1000,
            },
            Difficulty::Hard => DifficultySettings {
                obstacle_speed_multiplier: 1300,
                obstacle_gap_size_modifier: -2,
                starting_lives: 2,
                powerup_spawn_rate: 5_000_000,
                score_multiplier: 2,
                gravity_multiplier: 1200,
            },
            Difficulty::Insane => DifficultySettings {
                obstacle_speed_multiplier: 1600,
                obstacle_gap_size_modifier: -4,
                starting_lives: 1,
                powerup_spawn_rate: 6_000_000,
                score_multiplier: 3,
                gravity_multiplier: 1500,
            },
        }
    }

    /// Obstacle speed at `score`, in thousandths of a column per tick. For a
    /// score that is not negative it lies between the base speed and the base
    /// speed plus five hundred.
    pub fn get_dynamic_speed(&self, score: i32) -> (r: i64)
        ensures
            r == self.dynamic_speed(score as int),
            score >= 0 ==> self.obstacle_speed_multiplier <= r <= self.obstacle_speed_multiplier
                + SPEED_BONUS_CAP,
    {
        let grown: i64 = score as i64 * SPEED_PER_POINT;
        let bonus: i64 = if grown < SPEED_BONUS_CAP {
            grown
        } else {
            SPEED_BONUS_CAP
        };
        self.obstacle_speed_multiplier as i64 + bonus
    }

    /// Gap size at `score` for an obstacle of `base_size`. The result is never
    /// below four; it stops at the largest `i32` where the sum would pass it.
    pub fn get_dynamic_gap_size(&self, base_size: i32, score: i32) -> (r: i32)
        ensures
            r == clamp_i32(self.dynamic_gap_size(base_size as int, score as int)),
            r >= MIN_GAP_SIZE,
    {
        let by_tens: i32 = score / 10;
        let score_reduction: i64 = if by_tens < 3 {
            by_tens as i64
        } else {
            3
        };
        let modified_size: i64 = base_size as i64 + self.obstacle_gap_size_modifier as i64
            - score_reduction;
        if modified_size < MIN_GAP_SIZE as i64 {
            MIN_GAP_SIZE
        } else {
            saturate_i32(modified_size)
        }
    }

    /// Columns an obstacle scrolls per tick at `score`.
    pub fn get_scroll_step(&self, score: i32) -> (r: i64)
        ensures
            r == self.scroll_step(score as int),
            r >= 1,
    {
        let speed: i64 = self.get_dynamic_speed(score);
        if speed < 1000 {
            1
        } else {
            speed / 1000
        }
    }
}

} // verus!
