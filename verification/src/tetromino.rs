//! The falling piece: four grid addresses, a kind and a rotation state.
//!
//! A grid address is `row * WIDTH + column`, row 0 being the floor.

use vstd::prelude::*;
use crate::cell::{quad, Name};
use crate::game::Move;
use crate::random::random_in_range;

verus! {

/// Columns of the grid.
pub const WIDTH: u8 = 10;

/// Rows of the grid, the floor row included.
pub const HEIGHT: u8 = 21;

/// Squares of the grid.
pub const CELLS: u8 = 210;

/// What a turn adds to each of the four cells of a piece of kind `name` in
/// rotation state `spin`. Outside the kind's cycle nothing moves.
pub open spec fn turn_deltas(name: Name, spin: int) -> Seq<int> {
    match name {
        Name::T => if spin == 0 {
            quad(-9, 0, 0, 0)
        } else if spin == 1 {
            quad(0, 0, 0, -11)
        } else if spin == 2 {
            quad(0, 0, 9, 0)
        } else if spin == 3 {
            quad(9, 0, -9, 11)
        } else {
            quad(0, 0, 0, 0)
        },
        Name::L => if spin == 0 {
            quad(0, 11, -11, -2)
        } else if spin == 1 {
            quad(0, -11, 11, 20)
        } else if spin == 2 {
            quad(0, 11, -11, 2)
        } else if spin == 3 {
            quad(0, -11, 11, -20)
        } else {
            quad(0, 0, 0, 0)
        },
        Name::J => if spin == 0 {
            quad(0, 11, -11, 20)
        } else if spin == 1 {
            quad(0, -11, 11, 2)
        } else if spin == 2 {
            quad(0, 11, -11, -20)
        } else if spin == 3 {
            quad(0, -11, 11, -2)
        } else {
            quad(0, 0, 0, 0)
        },
        Name::I => if spin == 0 {
            quad(9, 0, -9, -18)
        } else if spin == 1 {
            quad(-9, 0, 9, 18)
        } else {
            quad(0, 0, 0, 0)
        },
        Name::S => if spin == 0 {
            quad(21, 1, 0, 0)
        } else if spin == 1 {
            quad(-21, -1, 0, 0)
        } else {
            quad(0, 0, 0, 0)
        },
        Name::Z => if spin == 0 {
            quad(0, 20, 2, 0)
        } else if spin == 1 {
            quad(0, -20, -2, 0)
        } else {
            quad(0, 0, 0, 0)
        },
        Name::O => quad(0, 0, 0, 0),
    }
}

/// The rotation state that follows `spin` for a piece of kind `name`.
/// Outside the kind's cycle the state stays as it is.
pub open spec fn next_spin(name: Name, spin: int) -> int {
    if 0 <= spin < name.cycle() {
        (spin + 1) % name.cycle()
    } else {
        spin
    }
}

/// Every cell is an address of the grid.
pub open spec fn on_grid(cells: Seq<int>) -> bool {
    forall|i: int| 0 <= i < cells.len() ==> 0 <= #[trigger] cells[i] < CELLS
}

/// No cell lies in the floor row or below it.
pub open spec fn above_floor(cells: Seq<int>) -> bool {
    forall|i: int| 0 <= i < cells.len() ==> #[trigger] cells[i] >= WIDTH
}

/// Some cell lies in the leftmost column.
pub open spec fn touches_left(cells: Seq<int>) -> bool {
    exists|i: int| 0 <= i < cells.len() && #[trigger] cells[i] % (WIDTH as int) == 0
}

/// Some cell lies in the rightmost column.
pub open spec fn touches_right(cells: Seq<int>) -> bool {
    exists|i: int| 0 <= i < cells.len() && #[trigger] cells[i] % (WIDTH as int) == WIDTH - 1
}

/// The cells reach over the seam between the end of one row and the start of
/// the next: the mark of a piece that went through a wall.
pub open spec fn straddles(cells: Seq<int>) -> bool {
    touches_left(cells) && touches_right(cells)
}

/// A piece as mathematics sees it.
pub struct Piece {
    pub name: Name,
    pub cells: Seq<int>,
    pub spin: int,
}

impl Piece {
    /// A fresh piece of kind `name`.
    pub open spec fn spawn(name: Name) -> Piece {
        Piece { name, cells: name.spawn_cells(), spin: 0 }
    }

    /// The piece with `delta` added to every cell.
    pub open spec fn shifted(self, delta: int) -> Piece {
        Piece {
            name: self.name,
            cells: Seq::new(self.cells.len(), |i: int| self.cells[i] + delta),
            spin: self.spin,
        }
    }

    /// The piece after one turn by the table of kind `name`.
    pub open spec fn turned_as(self, name: Name) -> Piece {
        Piece {
            name: self.name,
            cells: Seq::new(
                self.cells.len(),
                |i: int| self.cells[i] + turn_deltas(name, self.spin)[i],
            ),
            spin: next_spin(name, self.spin),
        }
    }

    /// The piece after one turn.
    pub open spec fn turned(self) -> Piece {
        self.turned_as(self.name)
    }

    /// The piece after `n` turns.
    pub open spec fn turned_times(self, n: nat) -> Piece
        decreases n,
    {
        if n == 0 {
            self
        } else {
            self.turned().turned_times((n - 1) as nat)
        }
    }

    /// Where `direction` would take the piece, walls and stack left aside.
    pub open spec fn moved(self, direction: Move) -> Piece {
        match direction {
            Move::Left => self.shifted(-1),
            Move::Right => self.shifted(1),
            Move::Down => self.shifted(-(WIDTH as int)),
            Move::Turn => self.turned(),
            Move::Stay => self,
        }
    }

    /// Every cell is a number a byte can hold.
    pub open spec fn fits(self) -> bool {
        forall|i: int| 0 <= i < self.cells.len() ==> 0 <= #[trigger] self.cells[i] <= u8::MAX
    }

    /// A fresh piece of kind `name` after `spin` turns, still where it
    /// appeared.
    pub open spec fn posed(name: Name, spin: int) -> Piece {
        Piece::spawn(name).turned_times(spin as nat)
    }

    /// The piece has four cells, a rotation state of its kind's cycle, and
    /// the outline its kind has in that state: it is that outline moved as a
    /// whole.
    pub open spec fn shaped(self) -> bool {
        &&& self.cells.len() == 4
        &&& 0 <= self.spin < self.name.cycle()
        &&& self.cells =~= Piece::posed(self.name, self.spin).shifted(
            self.cells[0] - Piece::posed(self.name, self.spin).cells[0],
        ).cells
    }

    /// No two cells are the same square.
    pub open spec fn distinct(self) -> bool {
        forall|i: int, j: int|
            0 <= i < j < self.cells.len() ==> #[trigger] self.cells[i] != #[trigger] self.cells[j]
    }

    /// The piece is whole, on the grid, above the floor and through no wall.
    pub open spec fn placed(self) -> bool {
        &&& self.shaped()
        &&& on_grid(self.cells)
        &&& above_floor(self.cells)
        &&& !straddles(self.cells)
    }
}

/// Four addresses held in bytes, as integers.
pub open spec fn addresses(coordinates: [u8; 4]) -> Seq<int> {
    Seq::new(4, |i: int| coordinates[i] as int)
}

/// The falling piece.
#[derive(Debug, Clone, Copy)]
pub struct Tetromino {
    pub coordinates: [u8; 4],
    pub name: Name,
    pub spin: u8,
}

impl View for Tetromino {
    type V = Piece;

    open spec fn view(&self) -> Piece {
        Piece {
            name: self.name,
            cells: addresses(self.coordinates),
            spin: self.spin as int,
        }
    }
}

/// What a turn adds to each cell of a piece of kind `name` in state `spin`.
pub fn rotation_deltas(name: Name, spin: u8) -> (deltas: [i8; 4])
    ensures
        forall|i: int| 0 <= i < 4 ==> deltas[i] as int == turn_deltas(name, spin as int)[i],
{
    match name {
        Name::T => match spin {
            0 => [-9, 0, 0, 0],
            1 => [0, 0, 0, -11],
            2 => [0, 0, 9, 0],
            3 => [9, 0, -9, 11],
            _ => [0, 0, 0, 0],
        },
        Name::L => match spin {
            0 => [0, 11, -11, -2],
            1 => [0, -11, 11, 20],
            2 => [0, 11, -11, 2],
            3 => [0, -11, 11, -20],
            _ => [0, 0, 0, 0],
        },
        Name::J => match spin {
            0 => [0, 11, -11, 20],
            1 => [0, -11, 11, 2],
            2 => [0, 11, -11, -20],
            3 => [0, -11, 11, -2],
            _ => [0, 0, 0, 0],
        },
        Name::I => match spin {
            0 => [9, 0, -9, -18],
            1 => [-9, 0, 9, 18],
            _ => [0, 0, 0, 0],
        },
        Name::S => match spin {
            0 => [21, 1, 0, 0],
            1 => [-21, -1, 0, 0],
            _ => [0, 0, 0, 0],
        },
        Name::Z => match spin {
            0 => [0, 20, 2, 0],
            1 => [0, -20, -2, 0],
            _ => [0, 0, 0, 0],
        },
        Name::O => [0, 0, 0, 0],
    }
}

/// The rotation state that follows `spin` for a piece of kind `name`.
pub fn rotation_successor(name: Name, spin: u8) -> (next: u8)
    ensures
        next == next_spin(name, spin as int),
{
    let cycle: u8 = name.cycle_length();
    if spin >= cycle {
        spin
    } else if spin + 1 == cycle {
        0
    } else {
        spin + 1
    }
}

impl Tetromino {
    /// A fresh piece of kind `name`.
    pub fn create(name: Name) -> (piece: Tetromino)
        ensures
            piece@ == Piece::spawn(name),
            piece@.distinct(),
            piece@.placed(),
    {
        let piece = Tetromino { coordinates: name.to_coordinates(), name, spin: 0 };
        proof {
            assert(piece@.cells =~= name.spawn_cells());
            lemma_spawn_is_placed(name);
        }
        piece
    }

    /// A fresh piece of a kind drawn at random.
    pub fn randow_new() -> (piece: Tetromino)
        ensures
            piece@ == Piece::spawn(piece.name),
            piece@.distinct(),
            piece@.placed(),
    {
        let drawn: u8 = random_in_range(0, 7);
        Tetromino::create(Name::from_index(drawn))
    }

    /// Adds `deltas`, cell by cell.
    fn displace(&mut self, deltas: &[i16; 4])
        requires
            forall|i: int|
                #![trigger deltas[i]]
                0 <= i < 4 ==> 0 <= old(self).coordinates[i] + deltas[i] <= u8::MAX,
        ensures
            final(self).name == old(self).name,
            final(self).spin == old(self).spin,
            forall|i: int|
                #![trigger final(self).coordinates[i]]
                0 <= i < 4 ==> final(self).coordinates[i] == old(self).coordinates[i] + deltas[i],
    {
        let mut i: usize = 0;
        while i < 4
            invariant
                i <= 4,
                self.name == old(self).name,
                self.spin == old(self).spin,
                forall|k: int|
                    #![trigger deltas[k]]
                    0 <= k < 4 ==> 0 <= old(self).coordinates[k] + deltas[k] <= u8::MAX,
                forall|k: int|
                    #![trigger self.coordinates[k]]
                    0 <= k < i ==> self.coordinates[k] == old(self).coordinates[k] + deltas[k],
                forall|k: int| i <= k < 4 ==> self.coordinates[k] == old(self).coordinates[k],
            decreases 4 - i,
        {
            let target: i16 = self.coordinates[i] as i16 + deltas[i];
            self.coordinates[i] = target as u8;
            i += 1;
        }
    }

    /// Moves the piece by whole rows and columns: `delta_row` rows up and
    /// `delta_col` columns to the right, the same for all four cells.
    pub fn translate(&mut self, delta_row: i8, delta_col: i8)
        requires
            old(self)@.shifted(delta_row * WIDTH + delta_col).fits(),
        ensures
            final(self)@ == old(self)@.shifted(delta_row * WIDTH + delta_col),
    {
        let delta: i16 = delta_row as i16 * 10 + delta_col as i16;
        let ghost target = self@.shifted(delta as int);
        let deltas: [i16; 4] = [delta, delta, delta, delta];
        assert forall|i: int| #![trigger deltas[i]] 0 <= i < 4 implies 0 <= self.coordinates[i]
            + deltas[i] <= u8::MAX by {
            assert(target.cells[i] == self.coordinates[i] + delta);
        }
        self.displace(&deltas);
        assert(self@.cells =~= target.cells);
    }

    /// Turns the piece once by the table of kind `name`.
    pub fn turn_as(&mut self, name: Name)
        requires
            old(self)@.turned_as(name).fits(),
        ensures
            final(self)@ == old(self)@.turned_as(name),
    {
        let ghost target = self@.turned_as(name);
        let table = rotation_deltas(name, self.spin);
        let deltas: [i16; 4] = [table[0] as i16, table[1] as i16, table[2] as i16, table[3] as i16];
        assert forall|i: int| #![trigger deltas[i]] 0 <= i < 4 implies 0 <= self.coordinates[i]
            + deltas[i] <= u8::MAX by {
            assert(deltas[i] == table[i]);
            assert(target.cells[i] == self.coordinates[i] + deltas[i]);
        }
        self.displace(&deltas);
        self.spin = rotation_successor(name, self.spin);
        assert(self@.cells =~= target.cells);
    }

    /// Whether the piece can take `direction` and still hold its cells in
    /// bytes.
    pub fn can_move(&self, direction: &Move) -> (ok: bool)
        ensures
            ok == self@.moved(*direction).fits(),
    {
        let deltas: [i8; 4] = match direction {
            Move::Left => [-1, -1, -1, -1],
            Move::Right => [1, 1, 1, 1],
            Move::Down => [-10, -10, -10, -10],
            Move::Turn => rotation_deltas(self.name, self.spin),
            Move::Stay => [0, 0, 0, 0],
        };
        let ghost target = self@.moved(*direction);
        assert(target.cells.len() == 4);
        assert forall|k: int| #![trigger deltas[k]] 0 <= k < 4 implies target.cells[k]
            == self.coordinates[k] + deltas[k] by {}
        let mut i: usize = 0;
        while i < 4
            invariant
                i <= 4,
                target == self@.moved(*direction),
                target.cells.len() == 4,
                forall|k: int|
                    #![trigger deltas[k]]
                    0 <= k < 4 ==> target.cells[k] == self.coordinates[k] + deltas[k],
                forall|k: int| 0 <= k < i ==> 0 <= #[trigger] target.cells[k] <= u8::MAX,
            decreases 4 - i,
        {
            let cell: i16 = self.coordinates[i] as i16 + deltas[i] as i16;
            if cell < 0 || cell > 255 {
                assert(!(0 <= target.cells[i as int] <= u8::MAX));
                return false;
            }
            i += 1;
        }
        true
    }

    /// Takes `direction`, walls and stack left aside.
    pub fn move_it(&mut self, direction: &Move)
        requires
            old(self)@.moved(*direction).fits(),
        ensures
            final(self)@ == old(self)@.moved(*direction),
    {
        match direction {
            Move::Left => self.translate(0, -1),
            Move::Right => self.translate(0, 1),
            Move::Down => self.translate(-1, 0),
            Move::Turn => self.turn_as(self.name),
            Move::Stay => {},
        }
    }

    /// Where `direction` would take the piece, if bytes can hold that.
    pub fn candidate(&self, direction: &Move) -> (next: Option<Tetromino>)
        ensures
            next is Some <==> self@.moved(*direction).fits(),
            next is Some ==> next.unwrap()@ == self@.moved(*direction),
    {
        if self.can_move(direction) {
            let mut next = *self;
            next.move_it(direction);
            Some(next)
        } else {
            None
        }
    }
}

/// The cells of a fresh piece after each number of turns, kind by kind.
pub proof fn lemma_posed_cells(name: Name, spin: int)
    requires
        0 <= spin < name.cycle(),
    ensures
        Piece::posed(name, spin).name == name,
        Piece::posed(name, spin).spin == spin,
        Piece::posed(name, spin).cells == match name {
            Name::T => if spin == 0 {
                quad(174, 175, 176, 185)
            } else if spin == 1 {
                quad(165, 175, 176, 185)
            } else if spin == 2 {
                quad(165, 175, 176, 174)
            } else {
                quad(165, 175, 185, 174)
            },
            Name::L => if spin == 0 {
                quad(184, 174, 194, 175)
            } else if spin == 1 {
                quad(184, 185, 183, 173)
            } else if spin == 2 {
                quad(184, 174, 194, 193)
            } else {
                quad(184, 185, 183, 195)
            },
            Name::J => if spin == 0 {
                quad(185, 175, 195, 174)
            } else if spin == 1 {
                quad(185, 186, 184, 194)
            } else if spin == 2 {
                quad(185, 175, 195, 196)
            } else {
                quad(185, 186, 184, 176)
            },
            Name::I => if spin == 0 {
                quad(175, 185, 195, 205)
            } else {
                quad(184, 185, 186, 187)
            },
            Name::S => if spin == 0 {
                quad(174, 175, 185, 186)
            } else {
                quad(195, 176, 185, 186)
            },
            Name::Z => if spin == 0 {
                quad(175, 176, 184, 185)
            } else {
                quad(175, 196, 186, 185)
            },
            Name::O => quad(174, 175, 185, 184),
        },
{
    let fresh = Piece::spawn(name);
    let once = fresh.turned();
    let twice = once.turned();
    let thrice = twice.turned();
    reveal_with_fuel(Piece::turned_times, 4);
    assert(fresh.turned_times(0) == fresh);
    assert(fresh.turned_times(1) == once);
    assert(fresh.turned_times(2) == twice);
    assert(fresh.turned_times(3) == thrice);
    if spin == 0 {
    } else if spin == 1 {
        assert(once.cells =~= quad(
            fresh.cells[0] + turn_deltas(name, 0)[0],
            fresh.cells[1] + turn_deltas(name, 0)[1],
            fresh.cells[2] + turn_deltas(name, 0)[2],
            fresh.cells[3] + turn_deltas(name, 0)[3],
        ));
    } else if spin == 2 {
        assert(twice.cells =~= quad(
            once.cells[0] + turn_deltas(name, 1)[0],
            once.cells[1] + turn_deltas(name, 1)[1],
            once.cells[2] + turn_deltas(name, 1)[2],
            once.cells[3] + turn_deltas(name, 1)[3],
        ));
    } else {
        assert(thrice.cells =~= quad(
            twice.cells[0] + turn_deltas(name, 2)[0],
            twice.cells[1] + turn_deltas(name, 2)[1],
            twice.cells[2] + turn_deltas(name, 2)[2],
            twice.cells[3] + turn_deltas(name, 2)[3],
        ));
    }
}

/// A fresh piece of any kind has four cells, all different, all on the grid
/// and above the floor; it has its kind's outline and reaches through no
/// wall.
pub proof fn lemma_spawn_is_placed(name: Name)
    ensures
        Piece::spawn(name).cells.len() == 4,
        Piece::spawn(name).distinct(),
        Piece::spawn(name).placed(),
{
    let piece = Piece::spawn(name);
    reveal_with_fuel(Piece::turned_times, 1);
    assert(Piece::posed(name, 0) == piece);
    assert(piece.cells =~= piece.shifted(0).cells);
    assert(!touches_right(piece.cells));
}

/// Turning a piece as many times as its kind's cycle is long brings back
/// the piece it was: the same cells in the same order, the same rotation
/// state.
pub proof fn lemma_turn_cycle(piece: Piece)
    requires
        piece.cells.len() == 4,
        0 <= piece.spin < piece.name.cycle(),
    ensures
        piece.turned_times(piece.name.cycle() as nat) == piece,
{
    let once = piece.turned();
    let twice = once.turned();
    let thrice = twice.turned();
    let again = thrice.turned();
    reveal_with_fuel(Piece::turned_times, 5);
    assert(piece.turned_times(1) == once);
    assert(piece.turned_times(2) == twice);
    assert(piece.turned_times(4) == again);
    if piece.name.cycle() == 1 {
        assert(once.cells =~= piece.cells);
    } else if piece.name.cycle() == 2 {
        assert(twice.cells =~= piece.cells);
    } else {
        assert(again.cells =~= piece.cells);
    }
}

/// Moving a piece by some amount and then back by the same amount leaves it
/// where it was.
pub proof fn lemma_shift_inverse(piece: Piece, delta: int)
    ensures
        piece.shifted(delta).shifted(-delta) == piece,
{
    assert(piece.shifted(delta).shifted(-delta).cells =~= piece.cells);
}

/// Left then right, and right then left, leave a piece where it was.
pub proof fn lemma_left_right_inverse(piece: Piece)
    ensures
        piece.moved(Move::Left).moved(Move::Right) == piece,
        piece.moved(Move::Right).moved(Move::Left) == piece,
{
    lemma_shift_inverse(piece, -1);
    lemma_shift_inverse(piece, 1);
}

/// A step or a turn keeps the outline of a piece.
pub proof fn lemma_move_keeps_shape(piece: Piece, direction: Move)
    requires
        piece.shaped(),
    ensures
        piece.moved(direction).shaped(),
{
    let target = piece.moved(direction);
    lemma_posed_cells(piece.name, piece.spin);
    lemma_posed_cells(target.name, target.spin);
    assert(target.cells =~= Piece::posed(target.name, target.spin).shifted(
        target.cells[0] - Piece::posed(target.name, target.spin).cells[0],
    ).cells);
}

} // verus!
