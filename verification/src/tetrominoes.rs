//! The piece seen row by column: four blocks, each a row and a column, a
//! kind, the way the piece faces, and the number of its kind.
//!
//! Rows count from the floor up, columns from the left. A turn moves single
//! blocks by fixed steps that depend on the kind and on the way the piece
//! faces; the first block of a T and the second of an I never move.

use vstd::prelude::*;
use crate::cell::Name;
use crate::random::random_in_range;
use crate::tetromino::{HEIGHT, WIDTH};

verus! {

/// The way a piece faces.
#[derive(Debug, Clone, Copy, PartialEq, Eq, Structural)]
pub enum Orientation {
    North,
    South,
    West,
    East,
}

/// Four pairs in order.
pub open spec fn four(a: (int, int), b: (int, int), c: (int, int), d: (int, int)) -> Seq<
    (int, int),
> {
    seq![a, b, c, d]
}

/// The rows and columns of the blocks of a fresh piece of kind `name`.
pub open spec fn spawn_blocks(name: Name) -> Seq<(int, int)> {
    match name {
        Name::T => four((18, 5), (18, 4), (19, 5), (18, 6)),
        Name::I => four((17, 5), (18, 5), (19, 5), (20, 5)),
        Name::S => four((17, 3), (17, 4), (18, 4), (18, 5)),
        Name::Z => four((17, 4), (17, 5), (18, 3), (18, 4)),
        Name::O => four((17, 4), (17, 5), (18, 5), (18, 4)),
        Name::L => four((18, 4), (17, 4), (19, 4), (17, 5)),
        Name::J => four((18, 5), (17, 5), (19, 5), (17, 4)),
    }
}

/// The rows and columns that a turn adds to the four blocks of a piece of
/// kind `name` that faces `facing`. The I goes by whether it stands
/// `upright`, not by the way it faces. The S and the Z know two ways only:
/// north, and any other.
pub open spec fn turn_steps(name: Name, facing: Orientation, upright: bool) -> Seq<(int, int)> {
    match name {
        Name::T => match facing {
            Orientation::North => four((0, 0), (-1, 1), (0, 0), (0, 0)),
            Orientation::West => four((0, 0), (0, 0), (-1, -1), (0, 0)),
            Orientation::South => four((0, 0), (0, 0), (0, 0), (1, -1)),
            Orientation::East => four((0, 0), (1, -1), (1, 1), (-1, 1)),
        },
        Name::L => match facing {
            Orientation::North => four((0, 0), (1, 1), (-1, -1), (0, -2)),
            Orientation::West => four((0, 0), (-1, -1), (1, 1), (2, 0)),
            Orientation::South => four((0, 0), (1, 1), (-1, -1), (0, 2)),
            Orientation::East => four((0, 0), (-1, -1), (1, 1), (-2, 0)),
        },
        Name::J => match facing {
            Orientation::North => four((0, 0), (1, 1), (-1, -1), (2, 0)),
            Orientation::West => four((0, 0), (-1, -1), (1, 1), (0, 2)),
            Orientation::South => four((0, 0), (1, 1), (-1, -1), (-2, 0)),
            Orientation::East => four((0, 0), (-1, -1), (1, 1), (0, -2)),
        },
        Name::I => if upright {
            four((1, -1), (0, 0), (-1, 1), (-2, 2))
        } else {
            four((-1, 1), (0, 0), (1, -1), (2, -2))
        },
        Name::S => if facing == Orientation::North {
            four((2, 1), (0, 1), (0, 0), (0, 0))
        } else {
            four((-2, -1), (0, -1), (0, 0), (0, 0))
        },
        Name::Z => if facing == Orientation::North {
            four((0, 0), (0, 1), (1, 2), (0, 0))
        } else {
            four((0, 0), (0, -1), (-1, -2), (0, 0))
        },
        Name::O => four((0, 0), (0, 0), (0, 0), (0, 0)),
    }
}

/// The way a piece of kind `name` faces after a turn, if it faced `facing`
/// before. The T, the L and the J face north, west, south and east in turn;
/// the S and the Z face east after north and north after anything else; the
/// I and the square keep facing as they did.
pub open spec fn next_facing(name: Name, facing: Orientation) -> Orientation {
    match name {
        Name::T | Name::L | Name::J => match facing {
            Orientation::North => Orientation::West,
            Orientation::West => Orientation::South,
            Orientation::South => Orientation::East,
            Orientation::East => Orientation::North,
        },
        Name::S | Name::Z => if facing == Orientation::North {
            Orientation::East
        } else {
            Orientation::North
        },
        Name::I | Name::O => facing,
    }
}

/// A piece of blocks as mathematics sees it.
pub struct Shape {
    pub name: Name,
    pub blocks: Seq<(int, int)>,
    pub orientation: Orientation,
    pub footprint: int,
}

impl Shape {
    /// A fresh piece of kind `name`: it faces north and bears the number of
    /// its kind.
    pub open spec fn spawn(name: Name) -> Shape {
        Shape {
            name,
            blocks: spawn_blocks(name),
            orientation: Orientation::North,
            footprint: name.mark(),
        }
    }

    /// The piece with `rows` added to the row and `columns` to the column of
    /// every block.
    pub open spec fn shifted(self, rows: int, columns: int) -> Shape {
        Shape {
            blocks: Seq::new(
                self.blocks.len(),
                |i: int| (self.blocks[i].0 + rows, self.blocks[i].1 + columns),
            ),
            ..self
        }
    }

    /// The first block does not lie in the row of the second: so stands an I
    /// that is upright.
    pub open spec fn upright(self) -> bool {
        self.blocks[0].0 != self.blocks[1].0
    }

    /// The piece after one turn by the steps of kind `kind`.
    pub open spec fn turned_as(self, kind: Name) -> Shape {
        let steps = turn_steps(kind, self.orientation, self.upright());
        Shape {
            blocks: Seq::new(
                self.blocks.len(),
                |i: int| (self.blocks[i].0 + steps[i].0, self.blocks[i].1 + steps[i].1),
            ),
            orientation: next_facing(kind, self.orientation),
            ..self
        }
    }

    /// The piece after one turn.
    pub open spec fn turned(self) -> Shape {
        self.turned_as(self.name)
    }

    /// The piece after `n` turns.
    pub open spec fn turned_times(self, n: nat) -> Shape
        decreases n,
    {
        if n == 0 {
            self
        } else {
            self.turned().turned_times((n - 1) as nat)
        }
    }

    /// Every row and every column is a number a byte can hold.
    pub open spec fn fits(self) -> bool {
        forall|i: int|
            0 <= i < self.blocks.len() ==> 0 <= (#[trigger] self.blocks[i]).0 <= u8::MAX && 0
                <= self.blocks[i].1 <= u8::MAX
    }

    /// Every block lies on the grid.
    pub open spec fn on_grid(self) -> bool {
        forall|i: int|
            0 <= i < self.blocks.len() ==> 0 <= (#[trigger] self.blocks[i]).0 < HEIGHT && 0
                <= self.blocks[i].1 < WIDTH
    }

    /// No two blocks are the same square.
    pub open spec fn distinct(self) -> bool {
        forall|i: int, j: int|
            0 <= i < j < self.blocks.len() ==> #[trigger] self.blocks[i] != #[trigger] self.blocks[j]
    }

    /// The piece is in a state that its turns go round: it has four blocks;
    /// an S or a Z faces north or east; the first block of an I lies in the
    /// row of the second or in the row below it.
    pub open spec fn poised(self) -> bool {
        &&& self.blocks.len() == 4
        &&& match self.name {
            Name::S | Name::Z => self.orientation == Orientation::North || self.orientation
                == Orientation::East,
            Name::I => self.blocks[0].0 == self.blocks[1].0 || self.blocks[0].0 + 1
                == self.blocks[1].0,
            _ => true,
        }
    }
}

/// The piece, block by block.
#[derive(Debug, Clone, Copy)]
pub struct Tetromino {
    pub blocks: [[u8; 2]; 4],
    pub name: Name,
    pub orientation: Orientation,
    pub footprint: u8,
}

impl View for Tetromino {
    type V = Shape;

    open spec fn view(&self) -> Shape {
        Shape {
            name: self.name,
            blocks: Seq::new(4, |i: int| (self.blocks[i][0] as int, self.blocks[i][1] as int)),
            orientation: self.orientation,
            footprint: self.footprint as int,
        }
    }
}

/// The rows and columns that a turn adds to the four blocks.
pub fn turn_table(name: Name, facing: Orientation, upright: bool) -> (steps: [[i8; 2]; 4])
    ensures
        forall|i: int|
            #![trigger steps[i]]
            0 <= i < 4 ==> steps[i][0] as int == turn_steps(name, facing, upright)[i].0
                && steps[i][1] as int == turn_steps(name, facing, upright)[i].1,
{
    match name {
        Name::T => match facing {
            Orientation::North => [[0, 0], [-1, 1], [0, 0], [0, 0]],
            Orientation::West => [[0, 0], [0, 0], [-1, -1], [0, 0]],
            Orientation::South => [[0, 0], [0, 0], [0, 0], [1, -1]],
            Orientation::East => [[0, 0], [1, -1], [1, 1], [-1, 1]],
        },
        Name::L => match facing {
            Orientation::North => [[0, 0], [1, 1], [-1, -1], [0, -2]],
            Orientation::West => [[0, 0], [-1, -1], [1, 1], [2, 0]],
            Orientation::South => [[0, 0], [1, 1], [-1, -1], [0, 2]],
            Orientation::East => [[0, 0], [-1, -1], [1, 1], [-2, 0]],
        },
        Name::J => match facing {
            Orientation::North => [[0, 0], [1, 1], [-1, -1], [2, 0]],
            Orientation::West => [[0, 0], [-1, -1], [1, 1], [0, 2]],
            Orientation::South => [[0, 0], [1, 1], [-1, -1], [-2, 0]],
            Orientation::East => [[0, 0], [-1, -1], [1, 1], [0, -2]],
        },
        Name::I => if upright {
            [[1, -1], [0, 0], [-1, 1], [-2, 2]]
        } else {
            [[-1, 1], [0, 0], [1, -1], [2, -2]]
        },
        Name::S => match facing {
            Orientation::North => [[2, 1], [0, 1], [0, 0], [0, 0]],
            _ => [[-2, -1], [0, -1], [0, 0], [0, 0]],
        },
        Name::Z => match facing {
            Orientation::North => [[0, 0], [0, 1], [1, 2], [0, 0]],
            _ => [[0, 0], [0, -1], [-1, -2], [0, 0]],
        },
        Name::O => [[0, 0], [0, 0], [0, 0], [0, 0]],
    }
}

/// The way a piece of kind `name` faces after a turn.
pub fn turn_facing(name: Name, facing: Orientation) -> (next: Orientation)
    ensures
        next == next_facing(name, facing),
{
    match name {
        Name::T | Name::L | Name::J => match facing {
            Orientation::North => Orientation::West,
            Orientation::West => Orientation::South,
            Orientation::South => Orientation::East,
            Orientation::East => Orientation::North,
        },
        Name::S | Name::Z => match facing {
            Orientation::North => Orientation::East,
            _ => Orientation::North,
        },
        Name::I | Name::O => facing,
    }
}

impl Tetromino {
    /// The fields of the piece hold what `shape` says, block by block.
    pub open spec fn holds(self, shape: Shape) -> bool {
        &&& self.name == shape.name
        &&& self.orientation == shape.orientation
        &&& self.footprint == shape.footprint
        &&& forall|i: int|
            #![trigger self.blocks[i]]
            0 <= i < 4 ==> self.blocks[i][0] == shape.blocks[i].0 && self.blocks[i][1]
                == shape.blocks[i].1
    }

    /// A fresh piece of a kind drawn at random.
    pub fn randow_new_tetromino() -> (piece: Tetromino)
        ensures
            piece@ == Shape::spawn(piece.name),
            piece.holds(Shape::spawn(piece.name)),
    {
        let drawn: u8 = random_in_range(0, 7);
        Tetromino::create(Name::from_index(drawn))
    }

    /// Adds `steps`, block by block.
    fn displace(&mut self, steps: &[[i16; 2]; 4])
        requires
            forall|i: int|
                #![trigger steps[i]]
                0 <= i < 4 ==> 0 <= old(self).blocks[i][0] + steps[i][0] <= u8::MAX && 0 <= old(
                    self,
                ).blocks[i][1] + steps[i][1] <= u8::MAX,
        ensures
            final(self).name == old(self).name,
            final(self).orientation == old(self).orientation,
            final(self).footprint == old(self).footprint,
            forall|i: int|
                #![trigger final(self).blocks[i]]
                0 <= i < 4 ==> final(self).blocks[i][0] == old(self).blocks[i][0] + steps[i][0]
                    && final(self).blocks[i][1] == old(self).blocks[i][1] + steps[i][1],
    {
        let mut i: usize = 0;
        while i < 4
            invariant
                i <= 4,
                self.name == old(self).name,
                self.orientation == old(self).orientation,
                self.footprint == old(self).footprint,
                forall|k: int|
                    #![trigger steps[k]]
                    0 <= k < 4 ==> 0 <= old(self).blocks[k][0] + steps[k][0] <= u8::MAX && 0
                        <= old(self).blocks[k][1] + steps[k][1] <= u8::MAX,
                forall|k: int|
                    #![trigger self.blocks[k]]
                    0 <= k < i ==> self.blocks[k][0] == old(self).blocks[k][0] + steps[k][0]
                        && self.blocks[k][1] == old(self).blocks[k][1] + steps[k][1],
                forall|k: int|
                    #![trigger self.blocks[k]]
                    i <= k < 4 ==> self.blocks[k] == old(self).blocks[k],
            decreases 4 - i,
        {
            let block = self.blocks[i];
            let step = steps[i];
            let row: i16 = block[0] as i16 + step[0];
            let column: i16 = block[1] as i16 + step[1];
            self.blocks[i] = [row as u8, column as u8];
            i += 1;
        }
    }

    /// Moves every block by `rows` rows up and `columns` columns to the
    /// right.
    pub fn shift(&mut self, rows: i8, columns: i8)
        requires
            old(self)@.shifted(rows as int, columns as int).fits(),
        ensures
            final(self)@ == old(self)@.shifted(rows as int, columns as int),
            final(self).holds(old(self)@.shifted(rows as int, columns as int)),
    {
        let ghost target = self@.shifted(rows as int, columns as int);
        let step: [i16; 2] = [rows as i16, columns as i16];
        let steps: [[i16; 2]; 4] = [step, step, step, step];
        assert forall|i: int| #![trigger steps[i]] 0 <= i < 4 implies 0 <= self.blocks[i][0]
            + steps[i][0] <= u8::MAX && 0 <= self.blocks[i][1] + steps[i][1] <= u8::MAX by {
            assert(target.blocks[i] == (self.blocks[i][0] + rows, self.blocks[i][1] + columns));
        }
        self.displace(&steps);
        assert(self@.blocks =~= target.blocks);
    }

    /// One row down, all four blocks.
    pub fn pull_down(&mut self)
        requires
            old(self)@.shifted(-1, 0).fits(),
        ensures
            final(self)@ == old(self)@.shifted(-1, 0),
            final(self).holds(old(self)@.shifted(-1, 0)),
    {
        self.shift(-1, 0);
    }

    /// One column to the left, all four blocks.
    pub fn push_left(&mut self)
        requires
            old(self)@.shifted(0, -1).fits(),
        ensures
            final(self)@ == old(self)@.shifted(0, -1),
            final(self).holds(old(self)@.shifted(0, -1)),
    {
        self.shift(0, -1);
    }

    /// One column to the right, all four blocks.
    pub fn push_right(&mut self)
        requires
            old(self)@.shifted(0, 1).fits(),
        ensures
            final(self)@ == old(self)@.shifted(0, 1),
            final(self).holds(old(self)@.shifted(0, 1)),
    {
        self.shift(0, 1);
    }

    /// A fresh piece of kind `name`.
    pub fn create(name: Name) -> (piece: Tetromino)
        ensures
            piece@ == Shape::spawn(name),
            piece.holds(Shape::spawn(name)),
    {
        match name {
            Name::I => Tetromino::create_i(),
            Name::T => Tetromino::create_t(),
            Name::S => Tetromino::create_s(),
            Name::Z => Tetromino::create_z(),
            Name::O => Tetromino::create_o(),
            Name::L => Tetromino::create_l(),
            Name::J => Tetromino::create_j(),
        }
    }

    /// A fresh T. Its first block is the one that turns leave in place.
    pub fn create_t() -> (piece: Tetromino)
        ensures
            piece@ == Shape::spawn(Name::T),
            piece.holds(Shape::spawn(Name::T)),
    {
        let piece = Tetromino {
            blocks: [[18, 5], [18, 4], [19, 5], [18, 6]],
            name: Name::T,
            orientation: Orientation::North,
            footprint: 1,
        };
        assert(piece@.blocks =~= spawn_blocks(Name::T));
        piece
    }

    /// A fresh I, upright.
    pub fn create_i() -> (piece: Tetromino)
        ensures
            piece@ == Shape::spawn(Name::I),
            piece.holds(Shape::spawn(Name::I)),
    {
        let piece = Tetromino {
            blocks: [[17, 5], [18, 5], [19, 5], [20, 5]],
            name: Name::I,
            orientation: Orientation::North,
            footprint: 2,
        };
        assert(piece@.blocks =~= spawn_blocks(Name::I));
        piece
    }

    /// A fresh S.
    pub fn create_s() -> (piece: Tetromino)
        ensures
            piece@ == Shape::spawn(Name::S),
            piece.holds(Shape::spawn(Name::S)),
    {
        let piece = Tetromino {
            blocks: [[17, 3], [17, 4], [18, 4], [18, 5]],
            name: Name::S,
            orientation: Orientation::North,
            footprint: 3,
        };
        assert(piece@.blocks =~= spawn_blocks(Name::S));
        piece
    }

    /// A fresh Z.
    pub fn create_z() -> (piece: Tetromino)
        ensures
            piece@ == Shape::spawn(Name::Z),
            piece.holds(Shape::spawn(Name::Z)),
    {
        let piece = Tetromino {
            blocks: [[17, 4], [17, 5], [18, 3], [18, 4]],
            name: Name::Z,
            orientation: Orientation::North,
            footprint: 4,
        };
        assert(piece@.blocks =~= spawn_blocks(Name::Z));
        piece
    }

    /// A fresh square.
    pub fn create_o() -> (piece: Tetromino)
        ensures
            piece@ == Shape::spawn(Name::O),
            piece.holds(Shape::spawn(Name::O)),
    {
        let piece = Tetromino {
            blocks: [[17, 4], [17, 5], [18, 5], [18, 4]],
            name: Name::O,
            orientation: Orientation::North,
            footprint: 5,
        };
        assert(piece@.blocks =~= spawn_blocks(Name::O));
        piece
    }

    /// A fresh L.
    pub fn create_l() -> (piece: Tetromino)
        ensures
            piece@ == Shape::spawn(Name::L),
            piece.holds(Shape::spawn(Name::L)),
    {
        let piece = Tetromino {
            blocks: [[18, 4], [17, 4], [19, 4], [17, 5]],
            name: Name::L,
            orientation: Orientation::North,
            footprint: 6,
        };
        assert(piece@.blocks =~= spawn_blocks(Name::L));
        piece
    }

    /// A fresh J.
    pub fn create_j() -> (piece: Tetromino)
        ensures
            piece@ == Shape::spawn(Name::J),
            piece.holds(Shape::spawn(Name::J)),
    {
        let piece = Tetromino {
            blocks: [[18, 5], [17, 5], [19, 5], [17, 4]],
            name: Name::J,
            orientation: Orientation::North,
            footprint: 7,
        };
        assert(piece@.blocks =~= spawn_blocks(Name::J));
        piece
    }

    /// Whether a turn by the steps of kind `kind` leaves every row and
    /// column a number a byte can hold.
    pub fn can_turn_as(&self, kind: Name) -> (ok: bool)
        ensures
            ok == self@.turned_as(kind).fits(),
    {
        let upright = self.blocks[0][0] != self.blocks[1][0];
        let steps = turn_table(kind, self.orientation, upright);
        let ghost target = self@.turned_as(kind);
        assert(target.blocks.len() == 4);
        assert forall|k: int| #![trigger steps[k]] 0 <= k < 4 implies target.blocks[k] == (
            self.blocks[k][0] + steps[k][0],
            self.blocks[k][1] + steps[k][1],
        ) by {}
        let mut i: usize = 0;
        while i < 4
            invariant
                i <= 4,
                target == self@.turned_as(kind),
                target.blocks.len() == 4,
                forall|k: int|
                    #![trigger steps[k]]
                    0 <= k < 4 ==> target.blocks[k] == (
                        self.blocks[k][0] + steps[k][0],
                        self.blocks[k][1] + steps[k][1],
                    ),
                forall|k: int|
                    0 <= k < i ==> 0 <= (#[trigger] target.blocks[k]).0 <= u8::MAX && 0
                        <= target.blocks[k].1 <= u8::MAX,
            decreases 4 - i,
        {
            let block = self.blocks[i];
            let step = steps[i];
            let row: i16 = block[0] as i16 + step[0] as i16;
            let column: i16 = block[1] as i16 + step[1] as i16;
            if row < 0 || row > 255 || column < 0 || column > 255 {
                assert(!(0 <= target.blocks[i as int].0 <= u8::MAX && 0 <= target.blocks[i as int].1
                    <= u8::MAX));
                return false;
            }
            i += 1;
        }
        true
    }

    /// Turns the piece once by the steps of kind `kind`.
    pub fn turn_as(&mut self, kind: Name)
        requires
            old(self)@.turned_as(kind).fits(),
        ensures
            final(self)@ == old(self)@.turned_as(kind),
            final(self).holds(old(self)@.turned_as(kind)),
    {
        let ghost target = self@.turned_as(kind);
        let upright = self.blocks[0][0] != self.blocks[1][0];
        let table = turn_table(kind, self.orientation, upright);
        let steps: [[i16; 2]; 4] = [
            [table[0][0] as i16, table[0][1] as i16],
            [table[1][0] as i16, table[1][1] as i16],
            [table[2][0] as i16, table[2][1] as i16],
            [table[3][0] as i16, table[3][1] as i16],
        ];
        assert forall|i: int| #![trigger steps[i]] 0 <= i < 4 implies 0 <= self.blocks[i][0]
            + steps[i][0] <= u8::MAX && 0 <= self.blocks[i][1] + steps[i][1] <= u8::MAX by {
            assert(steps[i][0] == table[i][0] && steps[i][1] == table[i][1]);
            assert(target.blocks[i] == (
                self.blocks[i][0] + steps[i][0],
                self.blocks[i][1] + steps[i][1],
            ));
        }
        self.displace(&steps);
        self.orientation = turn_facing(kind, self.orientation);
        assert(self@.blocks =~= target.blocks);
    }

    /// One turn by the steps of the piece's own kind. The square stays as
    /// it is.
    pub fn turn(&mut self)
        requires
            old(self)@.turned().fits(),
        ensures
            final(self)@ == old(self)@.turned(),
            final(self).holds(old(self)@.turned()),
    {
        match self.name {
            Name::I => self.turn_i(),
            Name::T => self.turn_t(),
            Name::S => self.turn_s(),
            Name::Z => self.turn_z(),
            Name::L => self.turn_l(),
            Name::J => self.turn_j(),
            Name::O => {
                assert(self@.turned().blocks =~= self@.blocks);
            },
        }
    }

    /// The rows and columns the blocks would have after a turn; the piece
    /// itself stays.
    pub fn simulate_a_turn(&self) -> (blocks: [[u8; 2]; 4])
        requires
            self@.turned().fits(),
        ensures
            forall|i: int|
                #![trigger blocks[i]]
                0 <= i < 4 ==> (blocks[i][0] as int, blocks[i][1] as int)
                    == self@.turned().blocks[i],
    {
        let mut substitute = *self;
        substitute.turn();
        substitute.blocks
    }

    /// One turn of a T: the piece faces north, west, south and east in
    /// turn, and its first block stays where it is.
    pub fn turn_t(&mut self)
        requires
            old(self)@.turned_as(Name::T).fits(),
        ensures
            final(self)@ == old(self)@.turned_as(Name::T),
            final(self).holds(old(self)@.turned_as(Name::T)),
    {
        self.turn_as(Name::T);
    }

    /// One turn of an I: from upright to flat, or back. The way it faces
    /// stays.
    pub fn turn_i(&mut self)
        requires
            old(self)@.turned_as(Name::I).fits(),
        ensures
            final(self)@ == old(self)@.turned_as(Name::I),
            final(self).holds(old(self)@.turned_as(Name::I)),
    {
        self.turn_as(Name::I);
    }

    /// One turn of an S: from north to east, or back.
    pub fn turn_s(&mut self)
        requires
            old(self)@.turned_as(Name::S).fits(),
        ensures
            final(self)@ == old(self)@.turned_as(Name::S),
            final(self).holds(old(self)@.turned_as(Name::S)),
    {
        self.turn_as(Name::S);
    }

    /// One turn of a Z: from north to east, or back.
    pub fn turn_z(&mut self)
        requires
            old(self)@.turned_as(Name::Z).fits(),
        ensures
            final(self)@ == old(self)@.turned_as(Name::Z),
            final(self).holds(old(self)@.turned_as(Name::Z)),
    {
        self.turn_as(Name::Z);
    }

    /// One turn of an L.
    pub fn turn_l(&mut self)
        requires
            old(self)@.turned_as(Name::L).fits(),
        ensures
            final(self)@ == old(self)@.turned_as(Name::L),
            final(self).holds(old(self)@.turned_as(Name::L)),
    {
        self.turn_as(Name::L);
    }

    /// One turn of a J.
    pub fn turn_j(&mut self)
        requires
            old(self)@.turned_as(Name::J).fits(),
        ensures
            final(self)@ == old(self)@.turned_as(Name::J),
            final(self).holds(old(self)@.turned_as(Name::J)),
    {
        self.turn_as(Name::J);
    }
}

/// A fresh piece of any kind has four blocks, all different and all on the
/// grid; it is in a state that its turns go round.
pub proof fn lemma_spawn_blocks(name: Name)
    ensures
        Shape::spawn(name).blocks.len() == 4,
        Shape::spawn(name).distinct(),
        Shape::spawn(name).on_grid(),
        Shape::spawn(name).poised(),
{
}

/// A turn leaves a piece in a state that its turns go round.
pub proof fn lemma_turn_keeps_poised(piece: Shape)
    requires
        piece.poised(),
    ensures
        piece.turned().poised(),
{
}

/// Turning a piece as many times as its kind's cycle is long brings back
/// the piece it was: the same blocks in the same order, facing the same
/// way.
pub proof fn lemma_turn_cycle_of_blocks(piece: Shape)
    requires
        piece.poised(),
    ensures
        piece.turned_times(piece.name.cycle() as nat) == piece,
{
    let once = piece.turned();
    let twice = once.turned();
    let thrice = twice.turned();
    let again = thrice.turned();
    reveal_with_fuel(Shape::turned_times, 5);
    assert(piece.turned_times(1) == once);
    assert(piece.turned_times(2) == twice);
    assert(piece.turned_times(4) == again);
    if piece.name.cycle() == 1 {
        assert(once.blocks =~= piece.blocks);
    } else if piece.name.cycle() == 2 {
        assert(twice.blocks =~= piece.blocks);
    } else {
        assert(again.blocks =~= piece.blocks);
    }
}

/// Moving a piece by some rows and columns and then back by as many leaves
/// it where it was.
pub proof fn lemma_shift_inverse_of_blocks(piece: Shape, rows: int, columns: int)
    ensures
        piece.shifted(rows, columns).shifted(-rows, -columns) == piece,
{
    assert(piece.shifted(rows, columns).shifted(-rows, -columns).blocks =~= piece.blocks);
}

} // verus!
