//! What the engine hands to a renderer: coloured glyphs at grid positions.

use vstd::prelude::*;
use crate::{SCREEN_HEIGHT, SCREEN_WIDTH};

verus! {

/// The colours the game draws with. `Trail` carries a brightness from zero to
/// three.
#[derive(Debug, Clone, Copy, PartialEq, Eq, Structural)]
pub enum Tint {
    Red,
    Orange,
    Yellow,
    Magenta,
    Cyan,
    Purple,
    Gold,
    Green,
    Trail(u8),
}

/// One glyph at one position of the playfield.
#[derive(Debug, Clone, Copy, PartialEq, Eq, Structural)]
pub struct Cell {
    pub x: i32,
    pub y: i32,
    pub glyph: char,
    pub tint: Tint,
}

/// Whether column `x`, row `y` lies on the playfield.
pub open spec fn on_screen(x: int, y: int) -> bool {
    0 <= x < SCREEN_WIDTH && 0 <= y < SCREEN_HEIGHT
}

/// The cell for a glyph at `(x, y)`, or nothing if that lies off the playfield.
pub open spec fn visible_cell(x: int, y: int, glyph: char, tint: Tint) -> Seq<Cell> {
    if on_screen(x, y) {
        seq![Cell { x: x as i32, y: y as i32, glyph, tint }]
    } else {
        Seq::empty()
    }
}

/// Appends the glyph at `(x, y)` to `cells` if that lies on the playfield.
pub fn push_visible(cells: &mut Vec<Cell>, x: i64, y: i64, glyph: char, tint: Tint)
    ensures
        final(cells)@ == old(cells)@ + visible_cell(x as int, y as int, glyph, tint),
{
    if 0 <= x && x < SCREEN_WIDTH as i64 && 0 <= y && y < SCREEN_HEIGHT as i64 {
        cells.push(Cell { x: x as i32, y: y as i32, glyph, tint });
        assert(cells@ =~= old(cells)@ + visible_cell(x as int, y as int, glyph, tint));
    } else {
        assert(cells@ =~= old(cells)@ + visible_cell(x as int, y as int, glyph, tint));
    }
}

} // verus!
