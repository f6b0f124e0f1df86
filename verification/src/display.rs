//! What a renderer is given after a tick: the cells of the playfield and the
//! figures of the status lines.

use vstd::prelude::*;
use crate::canvas::{push_visible, visible_cell, Cell, Tint};
use crate::difficulty::Difficulty;
use crate::game::{GameMode, State, StateView};
use crate::powerup::{ActivePowerUp, PowerUp};

verus! {

/// Time the shield is drawn with one glyph before it changes to the other, in
/// microseconds.
pub const SHIELD_BLINK_TIME: u32 = 200_000;

/// The figures of the status lines.
#[derive(Debug)]
pub struct Hud {
    pub mode: GameMode,
    pub score: i32,
    pub lives: i32,
    pub combo: i32,
    pub difficulty: Difficulty,
    /// Whether slow motion is running.
    pub slow_motion: bool,
    /// The running effects, each with the microseconds it still lasts.
    pub effects: Vec<ActivePowerUp>,
    /// The microseconds the shield still lasts, if there is one.
    pub shield: Option<u32>,
}

/// The cells of the first `upto` power-ups, in their order.
pub open spec fn powerup_cells(powerups: Seq<PowerUp>, upto: nat) -> Seq<Cell>
    recommends
        upto <= powerups.len(),
    decreases upto,
{
    if upto == 0 {
        Seq::empty()
    } else {
        powerup_cells(powerups, (upto - 1) as nat) + powerups[upto - 1].cells()
    }
}

impl StateView {
    /// Glyph the shield is drawn with: it alternates as the shield runs down.
    pub open spec fn shield_glyph(self) -> char {
        if (self.shield_timer / SHIELD_BLINK_TIME as int) % 2 == 0 {
            'O'
        } else {
            'o'
        }
    }

    /// The cells of the shield: one on each of the player's four sides.
    pub open spec fn shield_cells(self) -> Seq<Cell> {
        let glyph = self.shield_glyph();
        visible_cell(self.player.x - 1, self.player.y, glyph, Tint::Cyan) + visible_cell(
            self.player.x + 1,
            self.player.y,
            glyph,
            Tint::Cyan,
        ) + visible_cell(self.player.x, self.player.y - 1, glyph, Tint::Cyan) + visible_cell(
            self.player.x,
            self.player.y + 1,
            glyph,
            Tint::Cyan,
        )
    }

    /// The cells of the playfield: the player in its next animation frame, the
    /// obstacle, the power-ups, and the shield while there is one.
    pub open spec fn game_cells(self) -> Seq<Cell> {
        self.player.animated().cells() + self.obstacle.cells(self.difficulty_settings, self.score)
            + powerup_cells(self.powerups, self.powerups.len()) + (if self.shield_active {
            self.shield_cells()
        } else {
            Seq::empty()
        })
    }
}

impl State {
    /// Draws the playfield for one frame. The player's animation advances and
    /// its position joins the trail; nothing else changes.
    pub fn render_game(&mut self) -> (cells: Vec<Cell>)
        ensures
            cells@ == old(self)@.game_cells(),
            final(self)@ == (StateView {
                player: old(self)@.player.animated().trail_recorded(),
                ..old(self)@
            }),
    {
        let shield_cells = self.render_shield_effect();
        let mut cells = self.player.render();
        let mut wall = self.obstacle.render(&self.difficulty_settings, self.score);
        cells.append(&mut wall);
        let mut i: usize = 0;
        let ghost base = cells@;
        assert(base + powerup_cells(self.powerups@, 0) =~= base);
        while i < self.powerups.len()
            invariant
                i <= self.powerups@.len(),
                cells@ == base + powerup_cells(self.powerups@, i as nat),
            decreases self.powerups.len() - i,
        {
            let mut more = self.powerups[i].render();
            cells.append(&mut more);
            assert(cells@ =~= base + powerup_cells(self.powerups@, (i + 1) as nat));
            i += 1;
        }
        if self.shield_active {
            let mut around = shield_cells;
            cells.append(&mut around);
        }
        assert(cells@ =~= old(self)@.game_cells());
        cells
    }

    /// The figures of the status lines.
    pub fn render_ui(&self) -> (hud: Hud)
        ensures
            hud.mode == self.mode,
            hud.score == self.score,
            hud.lives == self.lives,
            hud.combo == self.combo_count,
            hud.difficulty == self.selected_difficulty,
            hud.slow_motion == (self.slow_motion_timer > 0),
            hud.effects@ == self.active_powerups@,
            hud.shield == if self.shield_active {
                Some(self.shield_timer)
            } else {
                None
            },
    {
        let mut effects: Vec<ActivePowerUp> = Vec::new();
        let mut i: usize = 0;
        while i < self.active_powerups.len()
            invariant
                i <= self.active_powerups@.len(),
                effects@ == self.active_powerups@.take(i as int),
            decreases self.active_powerups.len() - i,
        {
            effects.push(self.active_powerups[i]);
            assert(effects@ =~= self.active_powerups@.take(i + 1));
            i += 1;
        }
        assert(self.active_powerups@.take(self.active_powerups@.len() as int)
            =~= self.active_powerups@);
        Hud {
            mode: self.mode,
            score: self.score,
            lives: self.lives,
            combo: self.combo_count,
            difficulty: self.selected_difficulty,
            slow_motion: self.slow_motion_timer > 0,
            effects,
            shield: if self.shield_active {
                Some(self.shield_timer)
            } else {
                None
            },
        }
    }

    /// The cells of the shield around the player.
    pub fn render_shield_effect(&self) -> (cells: Vec<Cell>)
        ensures
            cells@ == self@.shield_cells(),
    {
        let shield_char = if (self.shield_timer / SHIELD_BLINK_TIME) % 2 == 0 {
            'O'
        } else {
            'o'
        };
        let x: i64 = self.player.x as i64;
        let y: i64 = self.player.y as i64;
        let mut cells: Vec<Cell> = Vec::new();
        push_visible(&mut cells, x - 1, y, shield_char, Tint::Cyan);
        push_visible(&mut cells, x + 1, y, shield_char, Tint::Cyan);
        push_visible(&mut cells, x, y - 1, shield_char, Tint::Cyan);
        push_visible(&mut cells, x, y + 1, shield_char, Tint::Cyan);
        assert(cells@ =~= self@.shield_cells());
        cells
    }
}

} // verus!
