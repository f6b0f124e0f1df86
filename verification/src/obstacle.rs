//! The obstacle: a wall across the playfield with one gap in it.

use vstd::prelude::*;
use bracket_lib::prelude::RandomNumberGenerator;
use crate::canvas::{push_visible, visible_cell, Cell, Tint};
use crate::difficulty::DifficultySettings;
use crate::player::Player;
use crate::rolls::{range_i32, ObstacleRolls, GAP_ROW_MAX, GAP_ROW_MIN, SPECIAL_CHANCE};
use crate::{clamp_i32, max_int, saturate_i32, SCREEN_HEIGHT};

verus! {

/// Gap size of an obstacle that appears at score zero.
pub const START_SIZE: i32 = 20;

/// Smallest base size an obstacle appears with.
pub const MIN_SIZE: i32 = 4;

/// Score above which special obstacles can appear.
pub const SPECIAL_SCORE: i32 = 20;

/// Ticks between two shifts of a moving gap.
pub const SHIFT_PERIOD: u32 = 20;

/// Row at or above which a moving gap turns downwards.
pub const TURN_DOWN_ROW: i32 = 15;

/// Row at or below which a moving gap turns upwards.
pub const TURN_UP_ROW: i32 = 35;

/// Glyph of a static wall, and the first of a rotating one.
pub const WALL_GLYPH: char = '|';

/// Glyph of a moving wall.
pub const MOVING_GLYPH: char = '\u{2551}';

/// Glyph above the gap of a moving wall.
pub const MARKER_GLYPH: char = '\u{2195}';

/// How an obstacle behaves.
#[derive(Debug, Clone, Copy, PartialEq, Eq, Structural)]
pub enum ObstacleType {
    /// The gap stays where it is.
    Static,
    /// The gap drifts up and down.
    Moving,
    /// The gap stays; the wall is drawn turning.
    Rotating,
}

/// The obstacle.
#[derive(Debug, Clone, Copy, PartialEq, Eq, Structural)]
pub struct Obstacle {
    /// Column.
    pub x: i32,
    /// Row the gap is centred on.
    pub gap_y: i32,
    /// Size of the gap before the level and the score adjust it.
    pub size: i32,
    /// Own speed in thousandths, kept with the obstacle.
    pub speed: i32,
    /// How it behaves.
    pub obstacle_type: ObstacleType,
    /// Ticks since a moving gap last shifted.
    pub move_timer: u32,
    /// Whether a moving gap is drifting down, towards larger rows.
    pub moving_down: bool,
}

/// Base size of an obstacle that appears at `score`: smaller with every point,
/// four at least.
pub open spec fn base_size(score: int) -> int {
    clamp_i32(max_int(MIN_SIZE as int, START_SIZE - score))
}

/// The type that the draws select at `score`. Up to a score of twenty every
/// obstacle is static. Above, a roll below thirty selects a special one, which
/// moves or rotates by the second roll.
pub open spec fn rolled_type(score: int, special: int, kind: int) -> ObstacleType {
    if score > SPECIAL_SCORE && special < SPECIAL_CHANCE {
        if kind == 0 {
            ObstacleType::Moving
        } else {
            ObstacleType::Rotating
        }
    } else {
        ObstacleType::Static
    }
}

/// Which of its four glyphs a rotating wall shows in column `x`.
pub open spec fn rotation_phase(x: int) -> int {
    (x / 3) % 4
}

/// The glyph of rotation phase `phase`.
pub open spec fn rotation_glyph(phase: int) -> char {
    if phase == 0 {
        WALL_GLYPH
    } else if phase == 1 {
        '/'
    } else if phase == 2 {
        '-'
    } else {
        '\\'
    }
}

impl Obstacle {
    /// The obstacle that appears in column `x` at `score` with the given type
    /// and gap row.
    pub open spec fn fresh(x: int, score: int, obstacle_type: ObstacleType, gap_y: int) -> Obstacle {
        Obstacle {
            x: x as i32,
            gap_y: gap_y as i32,
            size: base_size(score) as i32,
            speed: 1000,
            obstacle_type,
            move_timer: 0,
            moving_down: true,
        }
    }

    /// The obstacle that the draws `rolls` make in column `x` at `score`.
    pub open spec fn spawned(x: int, score: int, rolls: ObstacleRolls) -> Obstacle {
        Obstacle::fresh(
            x,
            score,
            rolled_type(score, rolls.special as int, rolls.kind as int),
            rolls.gap_y as int,
        )
    }

    /// After scrolling `step` columns to the left, stopping at the smallest
    /// `i32`.
    pub open spec fn scrolled(self, step: int) -> Obstacle {
        Obstacle { x: clamp_i32(self.x - step) as i32, ..self }
    }

    /// After one tick of drifting. Only a moving gap drifts: every twentieth
    /// tick it shifts one row in its direction, and it turns when it has come
    /// to row fifteen or above, or to row thirty-five or below.
    pub open spec fn oscillated(self) -> Obstacle {
        if self.obstacle_type != ObstacleType::Moving {
            self
        } else if self.move_timer + 1 < SHIFT_PERIOD {
            Obstacle { move_timer: (self.move_timer + 1) as u32, ..self }
        } else {
            let gap_y = clamp_i32(
                if self.moving_down {
                    self.gap_y + 1
                } else {
                    self.gap_y - 1
                },
            );
            Obstacle {
                gap_y: gap_y as i32,
                move_timer: 0,
                moving_down: if gap_y <= TURN_DOWN_ROW {
                    true
                } else if gap_y >= TURN_UP_ROW {
                    false
                } else {
                    self.moving_down
                },
                ..self
            }
        }
    }

    /// After one tick at `score` under the level `settings`: scrolled by the
    /// level's step, then drifted.
    pub open spec fn advanced(self, settings: DifficultySettings, score: int) -> Obstacle {
        self.scrolled(settings.scroll_step(score)).oscillated()
    }

    /// Half the gap at `score` under the level `settings`, rounded down. The
    /// gap reaches that many rows above and below its centre.
    pub open spec fn half_gap(self, settings: DifficultySettings, score: int) -> int {
        clamp_i32(settings.dynamic_gap_size(self.size as int, score)) / 2
    }

    /// Whether a player at `(x, y)` is in the wall: in the obstacle's column
    /// and outside the gap.
    pub open spec fn hits(self, x: int, y: int, settings: DifficultySettings, score: int) -> bool {
        let half = self.half_gap(settings, score);
        x == self.x && (y < self.gap_y - half || y > self.gap_y + half)
    }

    /// Whether a player in column `x` is past the obstacle.
    pub open spec fn passed_by(self, x: int) -> bool {
        x > self.x
    }

    /// Glyph the wall is drawn with.
    pub open spec fn glyph(self) -> char {
        match self.obstacle_type {
            ObstacleType::Static => WALL_GLYPH,
            ObstacleType::Moving => MOVING_GLYPH,
            ObstacleType::Rotating => rotation_glyph(rotation_phase(self.x as int)),
        }
    }

    /// Colour the wall is drawn with.
    pub open spec fn tint(self) -> Tint {
        match self.obstacle_type {
            ObstacleType::Static => Tint::Red,
            ObstacleType::Moving => Tint::Orange,
            ObstacleType::Rotating => Tint::Magenta,
        }
    }

    /// Whether row `y` is drawn as wall when the gap reaches `half` rows from
    /// its centre.
    pub open spec fn is_wall(self, half: int, y: int) -> bool {
        y < self.gap_y - half || y >= self.gap_y + half
    }

    /// The wall cells in the rows below `upto`, from the top.
    pub open spec fn wall_cells(self, half: int, upto: nat) -> Seq<Cell>
        decreases upto,
    {
        if upto == 0 {
            Seq::empty()
        } else {
            let y = (upto - 1) as int;
            self.wall_cells(half, (upto - 1) as nat) + (if self.is_wall(half, y) {
                visible_cell(self.x as int, y, self.glyph(), self.tint())
            } else {
                Seq::empty()
            })
        }
    }

    /// What is drawn of the obstacle: the wall on every row outside the gap,
    /// and for a moving one a marker above the gap.
    pub open spec fn cells(self, settings: DifficultySettings, score: int) -> Seq<Cell> {
        let half = self.half_gap(settings, score);
        self.wall_cells(half, SCREEN_HEIGHT as nat) + (if self.obstacle_type
            == ObstacleType::Moving {
            visible_cell(self.x as int, self.gap_y - half - 1, MARKER_GLYPH, Tint::Yellow)
        } else {
            Seq::empty()
        })
    }

    /// The obstacle that the draws `rolls` make in column `x` at `score`.
    pub fn from_rolls(x: i32, score: i32, rolls: &ObstacleRolls) -> (r: Obstacle)
        ensures
            r == Obstacle::spawned(x as int, score as int, *rolls),
    {
        let obstacle_type = if score > SPECIAL_SCORE && rolls.special < SPECIAL_CHANCE {
            if rolls.kind == 0 {
                ObstacleType::Moving
            } else {
                ObstacleType::Rotating
            }
        } else {
            ObstacleType::Static
        };
        Obstacle::with_type(x, score, obstacle_type, rolls.gap_y)
    }

    /// The obstacle that appears in column `x` at `score` with the given type
    /// and gap row.
    pub fn with_type(x: i32, score: i32, obstacle_type: ObstacleType, gap_y: i32) -> (r: Obstacle)
        ensures
            r == Obstacle::fresh(x as int, score as int, obstacle_type, gap_y as int),
    {
        let shrunk: i64 = START_SIZE as i64 - score as i64;
        let size: i32 = if shrunk < MIN_SIZE as i64 {
            MIN_SIZE
        } else {
            saturate_i32(shrunk)
        };
        Obstacle {
            x,
            gap_y,
            size,
            speed: 1000,
            obstacle_type,
            move_timer: 0,
            moving_down: true,
        }
    }

    /// A new obstacle in column `x` at `score`, shaped by chance. Up to a
    /// score of twenty it is static. Its gap is centred on a row from ten to
    /// forty.
    pub fn new(x: i32, score: i32, rng: &mut RandomNumberGenerator) -> (r: Obstacle)
        ensures
            r == Obstacle::fresh(x as int, score as int, r.obstacle_type, r.gap_y as int),
            GAP_ROW_MIN <= r.gap_y <= GAP_ROW_MAX,
            score <= SPECIAL_SCORE ==> r.obstacle_type == ObstacleType::Static,
    {
        let obstacle_type = if score > SPECIAL_SCORE && range_i32(rng, 0, 100) < SPECIAL_CHANCE {
            if range_i32(rng, 0, 2) == 0 {
                ObstacleType::Moving
            } else {
                ObstacleType::Rotating
            }
        } else {
            ObstacleType::Static
        };
        let gap_y: i32 = range_i32(rng, GAP_ROW_MIN, GAP_ROW_MAX + 1);
        Obstacle::with_type(x, score, obstacle_type, gap_y)
    }

    /// Moves the obstacle for one tick at `score`: scrolls it to the left by
    /// the level's step and lets a moving gap drift. While the column can
    /// still be represented, it strictly decreases.
    pub fn advance(&mut self, difficulty_settings: &DifficultySettings, score: i32)
        ensures
            *final(self) == old(self).advanced(*difficulty_settings, score as int),
            old(self).x - difficulty_settings.scroll_step(score as int) >= i32::MIN
                ==> final(self).x < old(self).x,
    {
        let step: i64 = difficulty_settings.get_scroll_step(score);
        self.x = saturate_i32(self.x as i64 - step);
        self.update_position();
    }

    /// Lets a moving gap drift for one tick.
    pub fn update_position(&mut self)
        ensures
            *final(self) == old(self).oscillated(),
    {
        match self.obstacle_type {
            ObstacleType::Moving => {
                if self.move_timer < SHIFT_PERIOD - 1 {
                    self.move_timer = self.move_timer + 1;
                } else {
                    let shifted: i64 = if self.moving_down {
                        self.gap_y as i64 + 1
                    } else {
                        self.gap_y as i64 - 1
                    };
                    self.gap_y = saturate_i32(shifted);
                    self.move_timer = 0;
                    if self.gap_y <= TURN_DOWN_ROW {
                        self.moving_down = true;
                    } else if self.gap_y >= TURN_UP_ROW {
                        self.moving_down = false;
                    }
                }
            },
            ObstacleType::Rotating => {},
            ObstacleType::Static => {},
        }
    }

    /// Glyph and colour the wall is drawn with.
    pub fn get_obstacle_appearance(&self) -> (r: (char, Tint))
        ensures
            r.0 == self.glyph(),
            r.1 == self.tint(),
    {
        match self.obstacle_type {
            ObstacleType::Static => (WALL_GLYPH, Tint::Red),
            ObstacleType::Moving => (MOVING_GLYPH, Tint::Orange),
            ObstacleType::Rotating => {
                let third: i64 = if self.x >= 0 {
                    self.x as i64 / 3
                } else {
                    -((-(self.x as i64) + 2) / 3)
                };
                let phase: i64 = ((third % 4) + 4) % 4;
                let glyph = if phase == 0 {
                    WALL_GLYPH
                } else if phase == 1 {
                    '/'
                } else if phase == 2 {
                    '-'
                } else {
                    '\\'
                };
                (glyph, Tint::Magenta)
            },
        }
    }

    /// Half the gap at `score` under the level, rounded down.
    pub fn get_half_gap(&self, difficulty_settings: &DifficultySettings, score: i32) -> (r: i32)
        ensures
            r == self.half_gap(*difficulty_settings, score as int),
            r >= 2,
    {
        difficulty_settings.get_dynamic_gap_size(self.size, score) / 2
    }

    /// The cells to draw for the obstacle at `score` under the level.
    pub fn render(&self, difficulty_settings: &DifficultySettings, score: i32) -> (cells: Vec<Cell>)
        ensures
            cells@ == self.cells(*difficulty_settings, score as int),
    {
        let half: i64 = self.get_half_gap(difficulty_settings, score) as i64;
        let (glyph, tint) = self.get_obstacle_appearance();
        let mut cells: Vec<Cell> = Vec::new();
        let mut y: i32 = 0;
        while y < SCREEN_HEIGHT
            invariant
                0 <= y <= SCREEN_HEIGHT,
                0 <= half <= i32::MAX,
                glyph == self.glyph(),
                tint == self.tint(),
                cells@ == self.wall_cells(half as int, y as nat),
            decreases SCREEN_HEIGHT - y,
        {
            if (y as i64) < self.gap_y as i64 - half || y as i64 >= self.gap_y as i64 + half {
                push_visible(&mut cells, self.x as i64, y as i64, glyph, tint);
            } else {
                assert(cells@ + Seq::<Cell>::empty() =~= cells@);
            }
            y += 1;
        }
        match self.obstacle_type {
            ObstacleType::Moving => {
                push_visible(
                    &mut cells,
                    self.x as i64,
                    self.gap_y as i64 - half - 1,
                    MARKER_GLYPH,
                    Tint::Yellow,
                );
            },
            _ => {
                assert(cells@ + Seq::<Cell>::empty() =~= cells@);
            },
        }
        cells
    }

    /// Whether the player is in the wall at `score` under the level: in the
    /// obstacle's column, and above or below the gap as the level and the score
    /// have sized it.
    pub fn hit_obstacle(
        &self,
        player: &Player,
        difficulty_settings: &DifficultySettings,
        score: i32,
    ) -> (r: bool)
        ensures
            r == self.hits(player.x as int, player.y as int, *difficulty_settings, score as int),
    {
        let half_size: i64 = self.get_half_gap(difficulty_settings, score) as i64;
        let does_x_match = player.x == self.x;
        let player_above_gap = (player.y as i64) < self.gap_y as i64 - half_size;
        let player_below_gap = player.y as i64 > self.gap_y as i64 + half_size;
        does_x_match && (player_above_gap || player_below_gap)
    }

    /// Whether the player is past the obstacle.
    pub fn is_passed_by_player(&self, player: &Player) -> (r: bool)
        ensures
            r == self.passed_by(player.x as int),
    {
        player.x > self.x
    }

    /// Points the obstacle is worth by its type: one, two or three.
    pub fn get_score_value(&self) -> (r: i32)
        ensures
            r == match self.obstacle_type {
                ObstacleType::Static => 1i32,
                ObstacleType::Moving => 2i32,
                ObstacleType::Rotating => 3i32,
            },
    {
        match self.obstacle_type {
            ObstacleType::Static => 1,
            ObstacleType::Moving => 2,
            ObstacleType::Rotating => 3,
        }
    }
}

/// Where a moving gap can be: between the lowest row it can appear on and one
/// row past the highest, drifting down on the first and up on the last.
pub open spec fn drift_bounded(obstacle: Obstacle) -> bool {
    &&& GAP_ROW_MIN <= obstacle.gap_y <= GAP_ROW_MAX + 1
    &&& obstacle.gap_y == GAP_ROW_MIN ==> obstacle.moving_down
    &&& obstacle.gap_y == GAP_ROW_MAX + 1 ==> !obstacle.moving_down
}

/// A gap that appears is within the bounds of drifting, and drifting keeps it
/// there: a moving gap never leaves rows ten to forty-one.
pub proof fn lemma_drift_stays_bounded(obstacle: Obstacle, x: int, score: int, rolls: ObstacleRolls)
    requires
        rolls.in_range(),
    ensures
        drift_bounded(Obstacle::spawned(x, score, rolls)),
        drift_bounded(obstacle) ==> drift_bounded(obstacle.oscillated()),
{
}

} // verus!
