//! Power-ups: the pickups that cross the playfield, and the timed effects that
//! collecting them starts.

use vstd::prelude::*;
use crate::canvas::{push_visible, visible_cell, Cell, Tint};
use crate::rolls::PowerUpRolls;
use crate::{clamp_i32, saturate_i32, SCREEN_WIDTH};

verus! {

/// Time a shield lasts, in microseconds.
pub const SHIELD_DURATION: u32 = 5_000_000;

/// Time slow motion lasts, in microseconds.
pub const SLOW_MOTION_DURATION: u32 = 3_000_000;

/// Time double scoring lasts, in microseconds.
pub const DOUBLE_SCORE_DURATION: u32 = 10_000_000;

/// Column beyond the right edge in which power-ups appear.
pub const SPAWN_COLUMN: i32 = SCREEN_WIDTH + 10;

/// Column at which, and left of which, a power-up is gone.
pub const VANISH_COLUMN: i32 = -5;

/// Animation time that one tick adds, in microseconds.
pub const ANIMATION_STEP: u64 = 16_670;

/// Time after which the animation repeats, in microseconds.
pub const ANIMATION_PERIOD: u64 = 800_000;

/// Time a power-up is shown, and then hidden, while it blinks.
pub const BLINK_TIME: u64 = 200_000;

/// Time the glow around a power-up is shown, and then hidden.
pub const GLOW_TIME: u64 = 400_000;

/// What a power-up does.
#[derive(Debug, Clone, Copy, PartialEq, Eq, Structural)]
pub enum PowerUpType {
    /// Takes the next hit.
    Shield,
    /// Halves the pace of the player's motion steps.
    SlowMotion,
    /// Doubles the points for passing an obstacle.
    DoubleScore,
    /// Adds a life.
    ExtraLife,
}

impl PowerUpType {
    /// The effect that a draw selects: zero, one and two name the first three,
    /// anything else the extra life.
    pub open spec fn rolled(kind: int) -> PowerUpType {
        if kind == 0 {
            PowerUpType::Shield
        } else if kind == 1 {
            PowerUpType::SlowMotion
        } else if kind == 2 {
            PowerUpType::DoubleScore
        } else {
            PowerUpType::ExtraLife
        }
    }

    /// The effect that a draw selects.
    pub fn from_roll(kind: i32) -> (r: PowerUpType)
        ensures
            r == PowerUpType::rolled(kind as int),
    {
        match kind {
            0 => PowerUpType::Shield,
            1 => PowerUpType::SlowMotion,
            2 => PowerUpType::DoubleScore,
            _ => PowerUpType::ExtraLife,
        }
    }
}

/// A pickup on the playfield.
#[derive(Debug, Clone, Copy, PartialEq, Eq, Structural)]
pub struct PowerUp {
    /// Column.
    pub x: i32,
    /// Row.
    pub y: i32,
    /// What it does when collected.
    pub power_type: PowerUpType,
    /// Position in the blink animation, in microseconds.
    pub animation_timer: u64,
}

impl PowerUp {
    /// A power-up at `(x, y)` at the start of its animation.
    pub open spec fn at(x: int, y: int, power_type: PowerUpType) -> PowerUp {
        PowerUp { x: x as i32, y: y as i32, power_type, animation_timer: 0 }
    }

    /// The power-up that the draws `rolls` make: beyond the right edge, in the
    /// drawn row, with the drawn effect.
    pub open spec fn spawned(rolls: PowerUpRolls) -> PowerUp {
        PowerUp::at(SPAWN_COLUMN as int, rolls.y as int, PowerUpType::rolled(rolls.kind as int))
    }

    /// After one tick: one column further left, stopping at the smallest
    /// `i32`, and one step further in the animation.
    pub open spec fn scrolled(self) -> PowerUp {
        PowerUp {
            x: clamp_i32(self.x - 1) as i32,
            animation_timer: ((self.animation_timer % ANIMATION_PERIOD + ANIMATION_STEP)
                % ANIMATION_PERIOD as int) as u64,
            ..self
        }
    }

    /// Whether it has left the playfield on the left.
    pub open spec fn gone(self) -> bool {
        self.x <= VANISH_COLUMN
    }

    /// Whether a player at `(x, y)` collects it: in the same column, and at
    /// most one row away.
    pub open spec fn touches(self, x: int, y: int) -> bool {
        self.x == x && -1 <= self.y - y <= 1
    }

    /// Whether the blink animation shows it.
    pub open spec fn shown(self) -> bool {
        (self.animation_timer / BLINK_TIME) % 2 == 0
    }

    /// Whether the blink animation shows the glow around it.
    pub open spec fn glowing(self) -> bool {
        (self.animation_timer / GLOW_TIME) % 2 == 0
    }

    /// Glyph it is drawn with.
    pub open spec fn glyph(self) -> char {
        match self.power_type {
            PowerUpType::Shield => 'S',
            PowerUpType::SlowMotion => 'T',
            PowerUpType::DoubleScore => '2',
            PowerUpType::ExtraLife => '+',
        }
    }

    /// Colour it is drawn with.
    pub open spec fn tint(self) -> Tint {
        match self.power_type {
            PowerUpType::Shield => Tint::Cyan,
            PowerUpType::SlowMotion => Tint::Purple,
            PowerUpType::DoubleScore => Tint::Gold,
            PowerUpType::ExtraLife => Tint::Green,
        }
    }

    /// What is drawn of it: while shown, its glyph, and while glowing a dot on
    /// each of its four sides.
    pub open spec fn cells(self) -> Seq<Cell> {
        if !self.shown() {
            Seq::empty()
        } else if !self.glowing() {
            visible_cell(self.x as int, self.y as int, self.glyph(), self.tint())
        } else {
            visible_cell(self.x as int, self.y as int, self.glyph(), self.tint()) + visible_cell(
                self.x - 1,
                self.y as int,
                '.',
                self.tint(),
            ) + visible_cell(self.x + 1, self.y as int, '.', self.tint()) + visible_cell(
                self.x as int,
                self.y - 1,
                '.',
                self.tint(),
            ) + visible_cell(self.x as int, self.y + 1, '.', self.tint())
        }
    }

    /// A power-up at `(x, y)` at the start of its animation.
    pub fn new(x: i32, y: i32, power_type: PowerUpType) -> (r: PowerUp)
        ensures
            r == PowerUp::at(x as int, y as int, power_type),
    {
        PowerUp { x, y, power_type, animation_timer: 0 }
    }

    /// The power-up that the draws `rolls` make.
    pub fn from_rolls(rolls: &PowerUpRolls) -> (r: PowerUp)
        ensures
            r == PowerUp::spawned(*rolls),
    {
        PowerUp::new(SPAWN_COLUMN, rolls.y, PowerUpType::from_roll(rolls.kind))
    }

    /// Moves the power-up for one tick.
    pub fn update(&mut self)
        ensures
            *final(self) == old(self).scrolled(),
    {
        self.x = saturate_i32(self.x as i64 - 1);
        self.animation_timer = (self.animation_timer % ANIMATION_PERIOD + ANIMATION_STEP)
            % ANIMATION_PERIOD;
    }

    /// The cells to draw for the power-up.
    pub fn render(&self) -> (cells: Vec<Cell>)
        ensures
            cells@ == self.cells(),
    {
        let (symbol, color) = self.get_visual_representation();
        let mut cells: Vec<Cell> = Vec::new();
        let x: i64 = self.x as i64;
        let y: i64 = self.y as i64;
        let blink = (self.animation_timer / BLINK_TIME) % 2 == 0;
        if blink {
            push_visible(&mut cells, x, y, symbol, color);
            if (self.animation_timer / GLOW_TIME) % 2 == 0 {
                push_visible(&mut cells, x - 1, y, '.', color);
                push_visible(&mut cells, x + 1, y, '.', color);
                push_visible(&mut cells, x, y - 1, '.', color);
                push_visible(&mut cells, x, y + 1, '.', color);
            }
        }
        assert(cells@ =~= self.cells());
        cells
    }

    /// Glyph and colour it is drawn with.
    pub fn get_visual_representation(&self) -> (r: (char, Tint))
        ensures
            r.0 == self.glyph(),
            r.1 == self.tint(),
    {
        match self.power_type {
            PowerUpType::Shield => ('S', Tint::Cyan),
            PowerUpType::SlowMotion => ('T', Tint::Purple),
            PowerUpType::DoubleScore => ('2', Tint::Gold),
            PowerUpType::ExtraLife => ('+', Tint::Green),
        }
    }

    /// Whether a player at `(player_x, player_y)` collects the power-up: it is
    /// in the player's column and at most one row away.
    pub fn collides_with_player(&self, player_x: i32, player_y: i32) -> (r: bool)
        ensures
            r == self.touches(player_x as int, player_y as int),
    {
        let rows: i64 = self.y as i64 - player_y as i64;
        self.x == player_x && -1 <= rows && rows <= 1
    }
}

/// An effect that is running.
#[derive(Debug, Clone, Copy, PartialEq, Eq, Structural)]
pub struct ActivePowerUp {
    /// Which effect.
    pub power_type: PowerUpType,
    /// Time it still lasts, in microseconds.
    pub timer: u32,
}

impl ActivePowerUp {
    /// After `elapsed` microseconds: that much less time left, zero at least.
    pub open spec fn aged(self, elapsed: int) -> ActivePowerUp {
        ActivePowerUp {
            timer: if self.timer > elapsed {
                (self.timer - elapsed) as u32
            } else {
                0
            },
            ..self
        }
    }

    /// An effect that lasts `duration` microseconds.
    pub fn new(power_type: PowerUpType, duration: u32) -> (r: ActivePowerUp)
        ensures
            r == (ActivePowerUp { power_type, timer: duration }),
    {
        ActivePowerUp { power_type, timer: duration }
    }

    /// Whether the effect still has time left.
    pub fn is_active(&self) -> (r: bool)
        ensures
            r == (self.timer > 0),
    {
        self.timer > 0
    }
}

/// The first `upto` power-ups, each moved by one tick, in their order.
pub open spec fn scrolled_powerups(powerups: Seq<PowerUp>, upto: nat) -> Seq<PowerUp>
    recommends
        upto <= powerups.len(),
    decreases upto,
{
    if upto == 0 {
        Seq::empty()
    } else {
        scrolled_powerups(powerups, (upto - 1) as nat).push(powerups[upto - 1].scrolled())
    }
}

/// Those of the first `upto` power-ups that have not left the playfield, in
/// their order.
pub open spec fn remaining_powerups(powerups: Seq<PowerUp>, upto: nat) -> Seq<PowerUp>
    recommends
        upto <= powerups.len(),
    decreases upto,
{
    if upto == 0 {
        Seq::empty()
    } else {
        let rest = remaining_powerups(powerups, (upto - 1) as nat);
        if powerups[upto - 1].gone() {
            rest
        } else {
            rest.push(powerups[upto - 1])
        }
    }
}

/// The effects of those of the first `upto` power-ups that a player at
/// `(x, y)` collects, in their order.
pub open spec fn collected_types(powerups: Seq<PowerUp>, upto: nat, x: int, y: int) -> Seq<
    PowerUpType,
>
    recommends
        upto <= powerups.len(),
    decreases upto,
{
    if upto == 0 {
        Seq::empty()
    } else {
        let rest = collected_types(powerups, (upto - 1) as nat, x, y);
        if powerups[upto - 1].touches(x, y) {
            rest.push(powerups[upto - 1].power_type)
        } else {
            rest
        }
    }
}

/// Those of the first `upto` power-ups that a player at `(x, y)` does not
/// collect, in their order.
pub open spec fn uncollected(powerups: Seq<PowerUp>, upto: nat, x: int, y: int) -> Seq<PowerUp>
    recommends
        upto <= powerups.len(),
    decreases upto,
{
    if upto == 0 {
        Seq::empty()
    } else {
        let rest = uncollected(powerups, (upto - 1) as nat, x, y);
        if powerups[upto - 1].touches(x, y) {
            rest
        } else {
            rest.push(powerups[upto - 1])
        }
    }
}

/// Of the first `upto` effects, each `elapsed` microseconds older, those that
/// still have time left, in their order.
pub open spec fn aged_effects(effects: Seq<ActivePowerUp>, upto: nat, elapsed: int) -> Seq<
    ActivePowerUp,
>
    recommends
        upto <= effects.len(),
    decreases upto,
{
    if upto == 0 {
        Seq::empty()
    } else {
        let rest = aged_effects(effects, (upto - 1) as nat, elapsed);
        let aged = effects[upto - 1].aged(elapsed);
        if aged.timer > 0 {
            rest.push(aged)
        } else {
            rest
        }
    }
}

/// Whether one of the effects doubles the score.
pub open spec fn doubles_score(effects: Seq<ActivePowerUp>) -> bool {
    exists|i: int|
        0 <= i < effects.len() && (#[trigger] effects[i]).power_type == PowerUpType::DoubleScore
}

/// Moves every power-up by one tick.
pub fn scroll_powerups(powerups: &mut Vec<PowerUp>)
    ensures
        final(powerups)@ == scrolled_powerups(old(powerups)@, old(powerups)@.len()),
{
    let mut moved: Vec<PowerUp> = Vec::new();
    let mut i: usize = 0;
    while i < powerups.len()
        invariant
            i <= powerups@.len(),
            powerups@ == old(powerups)@,
            moved@ == scrolled_powerups(powerups@, i as nat),
        decreases powerups.len() - i,
    {
        let mut powerup = powerups[i];
        powerup.update();
        moved.push(powerup);
        i += 1;
    }
    *powerups = moved;
}

/// Drops the power-ups that have left the playfield on the left.
pub fn drop_gone_powerups(powerups: &mut Vec<PowerUp>)
    ensures
        final(powerups)@ == remaining_powerups(old(powerups)@, old(powerups)@.len()),
{
    let mut kept: Vec<PowerUp> = Vec::new();
    let mut i: usize = 0;
    while i < powerups.len()
        invariant
            i <= powerups@.len(),
            powerups@ == old(powerups)@,
            kept@ == remaining_powerups(powerups@, i as nat),
        decreases powerups.len() - i,
    {
        let powerup = powerups[i];
        if powerup.x > VANISH_COLUMN {
            kept.push(powerup);
        }
        i += 1;
    }
    *powerups = kept;
}

/// Takes out the power-ups that a player at `(player_x, player_y)` collects
/// and returns their effects, in the order in which they stood.
pub fn collect_powerups(powerups: &mut Vec<PowerUp>, player_x: i32, player_y: i32) -> (types: Vec<
    PowerUpType,
>)
    ensures
        types@ == collected_types(
            old(powerups)@,
            old(powerups)@.len(),
            player_x as int,
            player_y as int,
        ),
        final(powerups)@ == uncollected(
            old(powerups)@,
            old(powerups)@.len(),
            player_x as int,
            player_y as int,
        ),
{
    let mut types: Vec<PowerUpType> = Vec::new();
    let mut left: Vec<PowerUp> = Vec::new();
    let mut i: usize = 0;
    while i < powerups.len()
        invariant
            i <= powerups@.len(),
            powerups@ == old(powerups)@,
            types@ == collected_types(powerups@, i as nat, player_x as int, player_y as int),
            left@ == uncollected(powerups@, i as nat, player_x as int, player_y as int),
        decreases powerups.len() - i,
    {
        let powerup = powerups[i];
        if powerup.collides_with_player(player_x, player_y) {
            types.push(powerup.power_type);
        } else {
            left.push(powerup);
        }
        i += 1;
    }
    *powerups = left;
    types
}

/// Makes every effect `elapsed` microseconds older and drops those that have
/// run out.
pub fn age_effects(effects: &mut Vec<ActivePowerUp>, elapsed: u32)
    ensures
        final(effects)@ == aged_effects(old(effects)@, old(effects)@.len(), elapsed as int),
{
    let mut kept: Vec<ActivePowerUp> = Vec::new();
    let mut i: usize = 0;
    while i < effects.len()
        invariant
            i <= effects@.len(),
            effects@ == old(effects)@,
            kept@ == aged_effects(effects@, i as nat, elapsed as int),
        decreases effects.len() - i,
    {
        let effect = effects[i];
        if effect.timer > elapsed {
            kept.push(ActivePowerUp { power_type: effect.power_type, timer: effect.timer - elapsed });
        }
        i += 1;
    }
    *effects = kept;
}

/// Whether one of the effects doubles the score.
pub fn has_double_score(effects: &Vec<ActivePowerUp>) -> (r: bool)
    ensures
        r == doubles_score(effects@),
{
    let mut i: usize = 0;
    while i < effects.len()
        invariant
            i <= effects@.len(),
            forall|j: int| 0 <= j < i ==> effects@[j].power_type != PowerUpType::DoubleScore,
        decreases effects.len() - i,
    {
        match effects[i].power_type {
            PowerUpType::DoubleScore => {
                return true;
            },
            _ => {},
        }
        i += 1;
    }
    false
}

} // verus!
