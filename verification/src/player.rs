//! The player: a position, a vertical velocity and a short trail.
//!
//! Velocity is kept in thousandths of a row per motion step. Gravity adds to it
//! while it is below the cap, a flap replaces it, and each motion step moves the
//! player by its whole rows.

use vstd::prelude::*;
use crate::canvas::{push_visible, visible_cell, Cell, Tint};
use crate::difficulty::DifficultySettings;
use crate::{clamp_i32, div_toward_zero, max_int, min_int, saturate_i32, SCREEN_WIDTH};

verus! {

/// Velocity that gravity adds per motion step at a gravity multiplier of one.
pub const GRAVITY: i64 = 300;

/// Gravity and diving add to the velocity only while it is below this.
pub const VELOCITY_CAP: i32 = 1500;

/// Upward velocity of a flap at a gravity multiplier of one.
pub const FLAP_IMPULSE: i32 = 2000;

/// Velocity that one dive adds.
pub const DIVE_IMPULSE: i64 = 500;

/// Most positions the trail keeps.
pub const TRAIL_LENGTH: usize = 8;

/// Frames after which the animation repeats.
pub const ANIMATION_FRAMES: u32 = 60;

/// Glyph of a trail position.
pub const TRAIL_GLYPH: char = '\u{b7}';

/// Rightmost column the player can move to.
pub open spec fn max_column() -> int {
    SCREEN_WIDTH as int / 2
}

/// Velocity that gravity adds per motion step at a gravity multiplier of
/// `gravity` thousandths.
pub open spec fn gravity_step(gravity: int) -> int {
    GRAVITY as int * gravity / 1000
}

/// Upward velocity of a flap at a gravity multiplier of `gravity` thousandths.
pub open spec fn flap_impulse(gravity: int) -> int {
    FLAP_IMPULSE as int * 1000 / gravity
}

/// Whole rows that a velocity moves the player: the velocity in rows, rounded
/// down.
pub open spec fn rows_of(velocity: int) -> int {
    velocity / 1000
}

/// Velocity after gravity or a dive has acted on it: `step` more while it is
/// below the cap, unchanged from the cap on.
pub open spec fn pulled(velocity: int, step: int) -> int {
    if velocity < VELOCITY_CAP {
        velocity + step
    } else {
        velocity
    }
}

/// Velocity after gravity has acted `n` times in a row.
pub open spec fn pulled_times(velocity: int, step: int, n: nat) -> int
    decreases n,
{
    if n == 0 {
        velocity
    } else {
        pulled(pulled_times(velocity, step, (n - 1) as nat), step)
    }
}

/// Frame that follows `frame` in the animation.
pub open spec fn next_frame(frame: int) -> int {
    (frame % ANIMATION_FRAMES as int + 1) % ANIMATION_FRAMES as int
}

/// Brightness of the trail position at `index` of `len`: three for the oldest
/// end of the scale down to zero, by thirds of the remaining length.
pub open spec fn trail_shade(len: int, index: int) -> int
    recommends
        0 <= index < len,
{
    (len - index) * 3 / len
}

/// The cells of the first `upto` trail positions, those off the playfield left
/// out.
pub open spec fn trail_cells(trail: Seq<(i32, i32)>, upto: nat) -> Seq<Cell>
    recommends
        upto <= trail.len(),
    decreases upto,
{
    if upto == 0 {
        Seq::empty()
    } else {
        let i = (upto - 1) as int;
        trail_cells(trail, (upto - 1) as nat) + visible_cell(
            trail[i].0 as int,
            trail[i].1 as int,
            TRAIL_GLYPH,
            Tint::Trail(trail_shade(trail.len() as int, i) as u8),
        )
    }
}

/// Glyph of the player at a velocity: rising, falling or level.
pub open spec fn player_glyph(velocity: int) -> char {
    if velocity < -1000 {
        '^'
    } else if velocity > 1000 {
        'v'
    } else {
        '>'
    }
}

/// Colour of the player at a velocity: orange when faster than the cap in
/// either direction.
pub open spec fn player_tint(velocity: int) -> Tint {
    if velocity > VELOCITY_CAP || velocity < -VELOCITY_CAP {
        Tint::Orange
    } else {
        Tint::Yellow
    }
}

/// The player.
#[derive(Debug)]
pub struct Player {
    /// Column.
    pub x: i32,
    /// Row, counted from the top.
    pub y: i32,
    /// Vertical velocity in thousandths of a row per motion step; positive is down.
    pub velocity: i32,
    /// Columns per sideways move.
    pub speed: i32,
    /// Position in the animation.
    pub animation_frame: u32,
    /// The most recent positions, oldest first.
    pub trail_positions: Vec<(i32, i32)>,
}

/// A player as a mathematical value.
pub ghost struct PlayerView {
    pub x: int,
    pub y: int,
    pub velocity: int,
    pub speed: int,
    pub animation_frame: int,
    pub trail: Seq<(i32, i32)>,
}

impl View for Player {
    type V = PlayerView;

    open spec fn view(&self) -> PlayerView {
        PlayerView {
            x: self.x as int,
            y: self.y as int,
            velocity: self.velocity as int,
            speed: self.speed as int,
            animation_frame: self.animation_frame as int,
            trail: self.trail_positions@,
        }
    }
}

impl PlayerView {
    /// A player at rest at `(x, y)`.
    pub open spec fn at(x: int, y: int) -> PlayerView {
        PlayerView { x, y, velocity: 0, speed: 1, animation_frame: 0, trail: Seq::empty() }
    }

    /// After gravity or a dive has added `step` to a velocity below the cap.
    pub open spec fn pulled(self, step: int) -> PlayerView {
        PlayerView { velocity: pulled(self.velocity, step), ..self }
    }

    /// After moving by the whole rows of the velocity. Above the top row the
    /// player is set back onto it and stops; the row stops at the largest
    /// `i32`.
    pub open spec fn advanced(self) -> PlayerView {
        let y = self.y + rows_of(self.velocity);
        if y < 0 {
            PlayerView { y: 0, velocity: 0, ..self }
        } else {
            PlayerView { y: min_int(y, i32::MAX as int), ..self }
        }
    }

    /// After one motion step under gravity `step`.
    pub open spec fn fallen(self, step: int) -> PlayerView {
        self.pulled(step).advanced()
    }

    /// After a move to the left, which ends at column zero at the latest.
    pub open spec fn moved_left(self) -> PlayerView {
        PlayerView { x: max_int(0, min_int(self.x - self.speed, max_column())), ..self }
    }

    /// After a move to the right, which ends at the middle of the playfield at
    /// the latest.
    pub open spec fn moved_right(self) -> PlayerView {
        PlayerView { x: max_int(0, min_int(self.x + self.speed, max_column())), ..self }
    }

    /// After a flap of `impulse`: the velocity points up, the trail is empty.
    pub open spec fn flapped(self, impulse: int) -> PlayerView {
        PlayerView { velocity: -impulse, trail: Seq::empty(), ..self }
    }

    /// After a dive: more velocity, if below the cap, and one motion step.
    pub open spec fn dived(self) -> PlayerView {
        self.fallen(DIVE_IMPULSE as int)
    }

    /// After the velocity was scaled by `factor` thousandths, rounded towards
    /// zero.
    pub open spec fn slowed(self, factor: int) -> PlayerView {
        PlayerView {
            velocity: clamp_i32(div_toward_zero(self.velocity * factor, 1000)),
            ..self
        }
    }

    /// At rest, with no trail, at the start of the animation.
    pub open spec fn rested(self) -> PlayerView {
        PlayerView { velocity: 0, trail: Seq::empty(), animation_frame: 0, ..self }
    }

    /// After the current position was added to the trail. Once the trail is
    /// longer than eight, its oldest position is dropped.
    pub open spec fn trail_recorded(self) -> PlayerView {
        let longer = self.trail.push((self.x as i32, self.y as i32));
        PlayerView {
            trail: if longer.len() > TRAIL_LENGTH {
                longer.subrange(1, longer.len() as int)
            } else {
                longer
            },
            ..self
        }
    }

    /// After one frame of the animation.
    pub open spec fn animated(self) -> PlayerView {
        PlayerView { animation_frame: next_frame(self.animation_frame), ..self }
    }

    /// What is drawn of the player: the trail, the player, and in the first
    /// half of every ten frames a dot behind it.
    pub open spec fn cells(self) -> Seq<Cell> {
        trail_cells(self.trail, self.trail.len()) + visible_cell(
            self.x,
            self.y,
            player_glyph(self.velocity),
            player_tint(self.velocity),
        ) + (if self.animation_frame % 10 < 5 {
            visible_cell(self.x - 1, self.y, '.', player_tint(self.velocity))
        } else {
            Seq::empty()
        })
    }
}

/// How the player is moving.
#[derive(Debug, Clone, Copy, PartialEq, Eq, Structural)]
pub struct PlayerStatus {
    /// Velocity in thousandths of a row per motion step.
    pub velocity: i32,
    /// Rising faster than half a row per step.
    pub is_ascending: bool,
    /// Falling faster than half a row per step.
    pub is_descending: bool,
    /// Neither.
    pub is_stable: bool,
}

impl Player {
    /// A player at rest at `(x, y)`.
    pub fn new(x: i32, y: i32) -> (r: Player)
        ensures
            r@ == PlayerView::at(x as int, y as int),
    {
        Player { x, y, velocity: 0, speed: 1, animation_frame: 0, trail_positions: Vec::new() }
    }

    /// Draws the player for one frame: advances the animation, returns the
    /// cells to draw, and then adds the position to the trail.
    pub fn render(&mut self) -> (cells: Vec<Cell>)
        ensures
            cells@ == old(self)@.animated().cells(),
            final(self)@ == old(self)@.animated().trail_recorded(),
    {
        self.animation_frame = (self.animation_frame % ANIMATION_FRAMES + 1) % ANIMATION_FRAMES;
        let mut cells = self.render_trail();
        let glyph = if self.velocity < -1000 {
            '^'
        } else if self.velocity > 1000 {
            'v'
        } else {
            '>'
        };
        let tint = if self.velocity > VELOCITY_CAP || self.velocity < -VELOCITY_CAP {
            Tint::Orange
        } else {
            Tint::Yellow
        };
        push_visible(&mut cells, self.x as i64, self.y as i64, glyph, tint);
        if self.animation_frame % 10 < 5 {
            push_visible(&mut cells, self.x as i64 - 1, self.y as i64, '.', tint);
        }
        assert(cells@ =~= old(self)@.animated().cells());
        self.update_trail();
        cells
    }

    /// The cells of the trail.
    pub fn render_trail(&self) -> (cells: Vec<Cell>)
        ensures
            cells@ == trail_cells(self@.trail, self@.trail.len()),
    {
        let mut cells: Vec<Cell> = Vec::new();
        let len: usize = self.trail_positions.len();
        let mut i: usize = 0;
        while i < len
            invariant
                len == self.trail_positions@.len(),
                i <= len,
                cells@ == trail_cells(self.trail_positions@, i as nat),
            decreases len - i,
        {
            let (trail_x, trail_y) = self.trail_positions[i];
            let shade: u128 = (len - i) as u128 * 3 / len as u128;
            assert(shade <= 3) by (nonlinear_arith)
                requires
                    shade == ((len - i) * 3) as int / len as int,
                    0 < len - i <= len,
            ;
            push_visible(
                &mut cells,
                trail_x as i64,
                trail_y as i64,
                TRAIL_GLYPH,
                Tint::Trail(shade as u8),
            );
            i += 1;
        }
        cells
    }

    /// Adds the current position to the trail and drops the oldest one once
    /// there are more than eight.
    pub fn update_trail(&mut self)
        ensures
            final(self)@ == old(self)@.trail_recorded(),
            old(self)@.trail.len() <= TRAIL_LENGTH ==> final(self)@.trail.len() <= TRAIL_LENGTH,
    {
        self.trail_positions.push((self.x, self.y));
        if self.trail_positions.len() > TRAIL_LENGTH {
            let _ = self.trail_positions.remove(0);
        }
        assert(self@.trail =~= old(self)@.trail_recorded().trail);
    }

    /// One motion step under plain gravity.
    pub fn gravity_and_move(&mut self)
        ensures
            final(self)@ == old(self)@.fallen(GRAVITY as int),
    {
        self.apply_gravity();
        self.advance();
    }

    /// One motion step under the gravity of a level.
    pub fn gravity_and_move_with_difficulty(&mut self, difficulty_settings: &DifficultySettings)
        requires
            difficulty_settings.wf(),
        ensures
            final(self)@ == old(self)@.fallen(
                gravity_step(difficulty_settings.gravity_multiplier as int),
            ),
    {
        let step: i64 = GRAVITY * difficulty_settings.gravity_multiplier as i64 / 1000;
        self.pull(step);
        self.advance();
    }

    /// Lets plain gravity act on the velocity. A velocity at or above the cap
    /// is left as it is.
    pub fn apply_gravity(&mut self)
        ensures
            final(self)@ == old(self)@.pulled(GRAVITY as int),
    {
        self.pull(GRAVITY);
    }

    /// Adds `step` to a velocity below the cap.
    pub fn pull(&mut self, step: i64)
        requires
            0 <= step <= i32::MAX - VELOCITY_CAP,
        ensures
            final(self)@ == old(self)@.pulled(step as int),
            final(self).velocity < VELOCITY_CAP + step
                || final(self).velocity == old(self).velocity,
    {
        if self.velocity < VELOCITY_CAP {
            self.velocity = (self.velocity as i64 + step) as i32;
        }
    }

    /// Moves the player by the whole rows of its velocity and keeps it on or
    /// below the top row.
    pub fn advance(&mut self)
        ensures
            final(self)@ == old(self)@.advanced(),
            final(self).y >= 0,
    {
        let rows: i64 = if self.velocity >= 0 {
            self.velocity as i64 / 1000
        } else {
            -((-(self.velocity as i64) + 999) / 1000)
        };
        let y: i64 = self.y as i64 + rows;
        self.y = saturate_i32(y);
        self.clamp_position();
    }

    /// Sets a player above the top row back onto it, at rest.
    pub fn clamp_position(&mut self)
        ensures
            old(self).y < 0 ==> final(self)@ == (PlayerView { y: 0, velocity: 0, ..old(self)@ }),
            old(self).y >= 0 ==> final(self)@ == old(self)@,
    {
        if self.y < 0 {
            self.y = 0;
            self.velocity = 0;
        }
    }

    /// Moves one step to the left, not past column zero.
    pub fn move_left(&mut self)
        ensures
            final(self)@ == old(self)@.moved_left(),
            0 <= final(self).x <= max_column(),
    {
        self.x = Self::keep_on_half(self.x as i64 - self.speed as i64);
    }

    /// Moves one step to the right, not past the middle of the playfield.
    pub fn move_right(&mut self)
        ensures
            final(self)@ == old(self)@.moved_right(),
            0 <= final(self).x <= max_column(),
    {
        self.x = Self::keep_on_half(self.x as i64 + self.speed as i64);
    }

    /// The column nearest to `x` on the left half of the playfield.
    fn keep_on_half(x: i64) -> (r: i32)
        ensures
            r == max_int(0, min_int(x as int, max_column())),
    {
        let limit: i64 = SCREEN_WIDTH as i64 / 2;
        if x < 0 {
            0
        } else if x > limit {
            limit as i32
        } else {
            x as i32
        }
    }

    /// Flaps with the plain impulse and drops the trail.
    pub fn flap(&mut self)
        ensures
            final(self)@ == old(self)@.flapped(FLAP_IMPULSE as int),
    {
        self.velocity = -FLAP_IMPULSE;
        self.trail_positions.clear();
    }

    /// Flaps with the impulse of a level, which is weaker the stronger its
    /// gravity, and drops the trail.
    pub fn flap_with_difficulty(&mut self, difficulty_settings: &DifficultySettings)
        requires
            difficulty_settings.wf(),
        ensures
            final(self)@ == old(self)@.flapped(
                flap_impulse(difficulty_settings.gravity_multiplier as int),
            ),
    {
        let flap_strength: i32 = FLAP_IMPULSE * 1000 / difficulty_settings.gravity_multiplier;
        self.velocity = -flap_strength;
        self.trail_positions.clear();
    }

    /// Dives: adds to a velocity below the cap and makes one motion step.
    pub fn move_down(&mut self)
        ensures
            final(self)@ == old(self)@.dived(),
    {
        self.pull(DIVE_IMPULSE);
        self.advance();
    }

    /// Scales the velocity by `factor` thousandths.
    pub fn apply_slow_motion(&mut self, factor: i32)
        ensures
            final(self)@ == old(self)@.slowed(factor as int),
    {
        assert(-0x4000_0000_0000_0000 <= self.velocity as int * factor as int
            <= 0x4000_0000_0000_0000) by (nonlinear_arith)
            requires
                -0x8000_0000 <= self.velocity as int <= 0x7fff_ffff,
                -0x8000_0000 <= factor as int <= 0x7fff_ffff,
        ;
        let scaled: i64 = self.velocity as i64 * factor as i64;
        self.velocity = saturate_i32(scaled / 1000);
    }

    /// Brings the player to rest: no velocity, no trail, first frame.
    pub fn reset(&mut self)
        ensures
            final(self)@ == old(self)@.rested(),
    {
        self.velocity = 0;
        self.trail_positions.clear();
        self.animation_frame = 0;
    }

    /// How the player is moving.
    pub fn get_status(&self) -> (r: PlayerStatus)
        ensures
            r.velocity == self.velocity,
            r.is_ascending == (self.velocity < -500),
            r.is_descending == (self.velocity > 500),
            r.is_stable == (-500 <= self.velocity <= 500),
    {
        PlayerStatus {
            velocity: self.velocity,
            is_ascending: self.velocity < -500,
            is_descending: self.velocity > 500,
            is_stable: -500 <= self.velocity && self.velocity <= 500,
        }
    }
}

/// Gravity never lowers a velocity. It leaves a velocity at or above the cap
/// as it is, and however often it acts, it carries a velocity from below the
/// cap to less than one step above the cap.
pub proof fn lemma_gravity_bounded(velocity: int, step: int, n: nat)
    requires
        step >= 0,
    ensures
        velocity <= pulled_times(velocity, step, n) <= max_int(
            velocity,
            VELOCITY_CAP - 1 + step,
        ),
        velocity >= VELOCITY_CAP ==> pulled_times(velocity, step, n) == velocity,
    decreases n,
{
    if n > 0 {
        lemma_gravity_bounded(velocity, step, (n - 1) as nat);
    }
}

/// Gravity whose steps land on the cap never carries the velocity above the
/// cap, however often it acts.
pub proof fn lemma_gravity_stops_at_cap(velocity: int, step: int, n: nat)
    requires
        step > 0,
        velocity <= VELOCITY_CAP,
        (VELOCITY_CAP - velocity) % step == 0,
    ensures
        pulled_times(velocity, step, n) <= VELOCITY_CAP,
        (VELOCITY_CAP - pulled_times(velocity, step, n)) % step == 0,
    decreases n,
{
    if n > 0 {
        lemma_gravity_stops_at_cap(velocity, step, (n - 1) as nat);
        let before = pulled_times(velocity, step, (n - 1) as nat);
        let room = VELOCITY_CAP - before;
        if before < VELOCITY_CAP {
            if room < step {
                vstd::arithmetic::div_mod::lemma_small_mod(room as nat, step as nat);
            }
            vstd::arithmetic::div_mod::lemma_mod_sub_multiples_vanish(room, step);
            assert(-step + room == room - step);
        }
    }
}

} // verus!
