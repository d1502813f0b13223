//! Cell tags and piece kinds.

use vstd::prelude::*;

verus! {

/// The seven piece kinds.
#[derive(Debug, Clone, Copy, PartialEq, Eq, Structural)]
pub enum Name {
    T,
    I,
    S,
    Z,
    O,
    L,
    J,
}

/// What one square of the grid holds: nothing, or the tag of the kind that
/// was frozen there.
#[derive(Debug, Clone, Copy, PartialEq, Eq, Structural)]
pub enum Cell {
    T,
    I,
    S,
    Z,
    O,
    L,
    J,
    Empty,
}

/// Four integers in order.
pub open spec fn quad(a: int, b: int, c: int, d: int) -> Seq<int> {
    seq![a, b, c, d]
}

impl Name {
    /// The grid addresses a fresh piece of this kind occupies, in the order
    /// in which the rotation table addresses them.
    pub open spec fn spawn_cells(self) -> Seq<int> {
        match self {
            Name::T => quad(174, 175, 176, 185),
            Name::I => quad(175, 185, 195, 205),
            Name::S => quad(174, 175, 185, 186),
            Name::Z => quad(175, 176, 184, 185),
            Name::O => quad(174, 175, 185, 184),
            Name::L => quad(184, 174, 194, 175),
            Name::J => quad(185, 175, 195, 174),
        }
    }

    /// How many turns bring a piece of this kind back to where it began.
    pub open spec fn cycle(self) -> int {
        match self {
            Name::O => 1,
            Name::I | Name::S | Name::Z => 2,
            Name::T | Name::L | Name::J => 4,
        }
    }

    /// The tag this kind leaves on the board.
    pub open spec fn tag(self) -> Cell {
        match self {
            Name::T => Cell::T,
            Name::I => Cell::I,
            Name::S => Cell::S,
            Name::Z => Cell::Z,
            Name::O => Cell::O,
            Name::L => Cell::L,
            Name::J => Cell::J,
        }
    }

    /// The kind a drawn number stands for: 0 to 6 in the order T, I, S, Z,
    /// O, L, J; any other number stands for T.
    pub open spec fn of_index(n: int) -> Name {
        if n == 1 {
            Name::I
        } else if n == 2 {
            Name::S
        } else if n == 3 {
            Name::Z
        } else if n == 4 {
            Name::O
        } else if n == 5 {
            Name::L
        } else if n == 6 {
            Name::J
        } else {
            Name::T
        }
    }

    /// Maps a drawn number to a kind.
    pub fn from_index(n: u8) -> (name: Name)
        ensures
            name == Name::of_index(n as int),
    {
        match n {
            0 => Name::T,
            1 => Name::I,
            2 => Name::S,
            3 => Name::Z,
            4 => Name::O,
            5 => Name::L,
            6 => Name::J,
            _ => Name::T,
        }
    }

    /// The number by which this kind is known: 1 for T, then I, S, Z, O and
    /// L, up to 7 for J.
    pub open spec fn mark(self) -> int {
        match self {
            Name::T => 1,
            Name::I => 2,
            Name::S => 3,
            Name::Z => 4,
            Name::O => 5,
            Name::L => 6,
            Name::J => 7,
        }
    }

    /// The number by which this kind is known.
    pub fn footprint(&self) -> (n: u8)
        ensures
            n == self.mark(),
            Name::of_index(n - 1) == *self,
    {
        match self {
            Name::T => 1,
            Name::I => 2,
            Name::S => 3,
            Name::Z => 4,
            Name::O => 5,
            Name::L => 6,
            Name::J => 7,
        }
    }

    pub fn cycle_length(&self) -> (n: u8)
        ensures
            n == self.cycle(),
    {
        match self {
            Name::O => 1,
            Name::I | Name::S | Name::Z => 2,
            Name::T | Name::L | Name::J => 4,
        }
    }

    pub fn to_cell(&self) -> (cell: Cell)
        ensures
            cell == self.tag(),
            cell != Cell::Empty,
    {
        match self {
            Name::T => Cell::T,
            Name::I => Cell::I,
            Name::S => Cell::S,
            Name::Z => Cell::Z,
            Name::O => Cell::O,
            Name::L => Cell::L,
            Name::J => Cell::J,
        }
    }

    /// The addresses of a fresh piece of this kind.
    pub fn to_coordinates(&self) -> (cells: [u8; 4])
        ensures
            forall|i: int| 0 <= i < 4 ==> cells[i] as int == self.spawn_cells()[i],
    {
        match self {
            Name::T => [174, 175, 176, 185],
            Name::I => [175, 185, 195, 205],
            Name::S => [174, 175, 185, 186],
            Name::Z => [175, 176, 184, 185],
            Name::O => [174, 175, 185, 184],
            Name::L => [184, 174, 194, 175],
            Name::J => [185, 175, 195, 174],
        }
    }
}

impl Cell {
    /// The kind whose tag this is, if it is one.
    pub open spec fn kind(self) -> Option<Name> {
        match self {
            Cell::T => Some(Name::T),
            Cell::I => Some(Name::I),
            Cell::S => Some(Name::S),
            Cell::Z => Some(Name::Z),
            Cell::O => Some(Name::O),
            Cell::L => Some(Name::L),
            Cell::J => Some(Name::J),
            Cell::Empty => None,
        }
    }

    /// The three bytes drawn for this cell: the kind's letter three times,
    /// or three spaces.
    pub open spec fn glyph(self) -> Seq<u8> {
        match self {
            Cell::T => seq![84u8, 84u8, 84u8],
            Cell::I => seq![73u8, 73u8, 73u8],
            Cell::S => seq![83u8, 83u8, 83u8],
            Cell::Z => seq![90u8, 90u8, 90u8],
            Cell::O => seq![79u8, 79u8, 79u8],
            Cell::L => seq![76u8, 76u8, 76u8],
            Cell::J => seq![74u8, 74u8, 74u8],
            Cell::Empty => seq![32u8, 32u8, 32u8],
        }
    }

    pub fn name(&self) -> (name: Option<Name>)
        ensures
            name == self.kind(),
    {
        match self {
            Cell::T => Some(Name::T),
            Cell::I => Some(Name::I),
            Cell::S => Some(Name::S),
            Cell::Z => Some(Name::Z),
            Cell::O => Some(Name::O),
            Cell::L => Some(Name::L),
            Cell::J => Some(Name::J),
            Cell::Empty => None,
        }
    }

    pub fn is_empty(&self) -> (empty: bool)
        ensures
            empty == (*self == Cell::Empty),
    {
        match self {
            Cell::Empty => true,
            _ => false,
        }
    }

    pub fn to_printable_bytes(&self) -> (bytes: &[u8])
        ensures
            bytes@ == self.glyph(),
    {
        match self {
            Cell::T => &[84u8, 84u8, 84u8],
            Cell::I => &[73u8, 73u8, 73u8],
            Cell::S => &[83u8, 83u8, 83u8],
            Cell::Z => &[90u8, 90u8, 90u8],
            Cell::O => &[79u8, 79u8, 79u8],
            Cell::L => &[76u8, 76u8, 76u8],
            Cell::J => &[74u8, 74u8, 74u8],
            Cell::Empty => &[32u8, 32u8, 32u8],
        }
    }

    /// The addresses of a fresh piece of the kind this tag belongs to.
    pub fn to_coordinates(&self) -> (cells: [u8; 4])
        requires
            *self != Cell::Empty,
        ensures
            forall|i: int| 0 <= i < 4 ==> cells[i] as int == self.kind().unwrap().spawn_cells()[i],
    {
        match self {
            Cell::T => Name::T.to_coordinates(),
            Cell::I => Name::I.to_coordinates(),
            Cell::S => Name::S.to_coordinates(),
            Cell::Z => Name::Z.to_coordinates(),
            Cell::O => Name::O.to_coordinates(),
            Cell::L => Name::L.to_coordinates(),
            Cell::J => Name::J.to_coordinates(),
            Cell::Empty => vstd::pervasive::unreached(),
        }
    }
}

} // verus!
