//! The board as text, ready for a terminal.
//!
//! The floor row is not drawn. Every other row is drawn twice, top row
//! first, between two bars; under the last row runs a line of dashes.

use vstd::prelude::*;
use crate::board::{row_of, Board};
use crate::cell::Cell;
use crate::tetromino::{HEIGHT, WIDTH};

verus! {

/// The byte that frames a row.
pub const BAR: u8 = 124;

/// The byte that ends a row.
pub const LINE_FEED: u8 = 10;

/// The byte that follows it.
pub const CARRIAGE_RETURN: u8 = 13;

/// The byte the ground is made of.
pub const DASH: u8 = 45;

/// How many dashes the ground has.
pub const GROUND: usize = 32;

/// The glyphs of `cells`, one after another.
pub open spec fn glyphs(cells: Seq<Cell>) -> Seq<u8>
    decreases cells.len(),
{
    if cells.len() == 0 {
        Seq::empty()
    } else {
        glyphs(cells.drop_last()) + cells.last().glyph()
    }
}

/// Row `row` as text: a bar, the glyphs of its cells, a bar, and the end of
/// the line.
pub open spec fn line(board: Seq<Cell>, row: int) -> Seq<u8> {
    seq![BAR] + glyphs(row_of(board, row)) + seq![BAR, LINE_FEED, CARRIAGE_RETURN]
}

/// The topmost `rows` rows as text, each row twice, the top row first.
pub open spec fn picture(board: Seq<Cell>, rows: int) -> Seq<u8>
    decreases rows,
{
    if rows <= 0 {
        Seq::empty()
    } else {
        picture(board, rows - 1) + line(board, HEIGHT - rows) + line(board, HEIGHT - rows)
    }
}

/// The whole board as text: every row but the floor, and the ground.
pub open spec fn frame(board: Seq<Cell>) -> Seq<u8> {
    picture(board, HEIGHT - 1) + Seq::new(GROUND as nat, |i: int| DASH)
}

impl Board {
    /// Adds row `row` as text to `text`.
    fn render_line(&self, text: &mut Vec<u8>, row: u8)
        requires
            row < HEIGHT,
        ensures
            final(text)@ == old(text)@ + line(self@, row as int),
    {
        let ghost cells = row_of(self@, row as int);
        let width: usize = WIDTH as usize;
        let start: usize = row as usize * width;
        text.push(BAR);
        let mut col: usize = 0;
        while col < width
            invariant
                col <= width == WIDTH,
                row < HEIGHT,
                start == row * WIDTH,
                cells == row_of(self@, row as int),
                text@ == old(text)@ + seq![BAR] + glyphs(cells.take(col as int)),
            decreases width - col,
        {
            let cell = self.cells[start + col];
            let ghost before = text@;
            text.extend_from_slice(cell.to_printable_bytes());
            proof {
                let seen = cells.take(col as int);
                let more = cells.take(col + 1);
                assert(more.drop_last() =~= seen);
                assert(more.last() == cell);
                assert(text@ =~= before + cell.glyph());
            }
            col += 1;
        }
        assert(cells.take(width as int) =~= cells);
        text.push(BAR);
        text.push(LINE_FEED);
        text.push(CARRIAGE_RETURN);
        assert(text@ =~= old(text)@ + line(self@, row as int));
    }

    /// The board as text.
    pub fn render(&self) -> (text: Vec<u8>)
        ensures
            text@ == frame(self@),
    {
        let mut text: Vec<u8> = Vec::new();
        let mut rows: u8 = 0;
        while rows < HEIGHT - 1
            invariant
                rows <= HEIGHT - 1,
                text@ == picture(self@, rows as int),
            decreases HEIGHT - 1 - rows,
        {
            rows += 1;
            self.render_line(&mut text, HEIGHT - rows);
            self.render_line(&mut text, HEIGHT - rows);
        }
        let mut i: usize = 0;
        while i < GROUND
            invariant
                i <= GROUND,
                text@ == picture(self@, HEIGHT - 1) + Seq::new(i as nat, |k: int| DASH),
            decreases GROUND - i,
        {
            text.push(DASH);
            i += 1;
        }
        text
    }
}

} // verus!
