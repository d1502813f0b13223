//! The settled cells of the grid: occupancy, row collapse, line clearing
//! and the rules that decide whether a piece may stand somewhere.

use vstd::prelude::*;
use crate::cell::{Cell, Name};
use crate::game::Move;
use crate::tetromino::{
    above_floor, addresses, lemma_posed_cells, on_grid, straddles, touches_left, touches_right,
    Piece, Tetromino, CELLS, HEIGHT, WIDTH,
};

verus! {

/// First address of the band whose occupancy ends the game.
pub const ZONE_START: u8 = 173;

/// First address past that band.
pub const ZONE_END: u8 = 177;

/// `n` empty cells.
pub open spec fn blank(n: int) -> Seq<Cell> {
    Seq::new(n as nat, |k: int| Cell::Empty)
}

/// The cells of row `row`.
pub open spec fn row_of(board: Seq<Cell>, row: int) -> Seq<Cell> {
    board.subrange(row * WIDTH, (row + 1) * WIDTH)
}

/// Row `row` has no empty cell.
pub open spec fn row_full(board: Seq<Cell>, row: int) -> bool {
    forall|k: int| row * WIDTH <= k < (row + 1) * WIDTH ==> #[trigger] board[k] != Cell::Empty
}

/// The board after row `row` is taken out: the rows below it stay, every
/// row from it upwards takes the cells of the row above, and the top row
/// is empty.
pub open spec fn collapsed(board: Seq<Cell>, row: int) -> Seq<Cell> {
    Seq::new(
        board.len(),
        |k: int|
            if k < row * WIDTH {
                board[k]
            } else if k + WIDTH < board.len() {
                board[k + WIDTH]
            } else {
                Cell::Empty
            },
    )
}

/// How many of the lowest `rows` rows are full.
pub open spec fn full_rows(board: Seq<Cell>, rows: int) -> int
    decreases rows,
{
    if rows <= 0 {
        0
    } else {
        full_rows(board, rows - 1) + if row_full(board, rows - 1) {
            1int
        } else {
            0int
        }
    }
}

/// The rows among the lowest `rows` that are not full, in their order, one
/// after another.
pub open spec fn surviving(board: Seq<Cell>, rows: int) -> Seq<Cell>
    decreases rows,
{
    if rows <= 0 {
        Seq::empty()
    } else if row_full(board, rows - 1) {
        surviving(board, rows - 1)
    } else {
        surviving(board, rows - 1) + row_of(board, rows - 1)
    }
}

/// The board after line clearing: the rows that are not full, in their
/// order, and above them as many empty rows as there were full ones.
pub open spec fn cleared(board: Seq<Cell>) -> Seq<Cell> {
    surviving(board, HEIGHT as int) + blank(WIDTH * full_rows(board, HEIGHT as int))
}

/// Row `row` is full and no other row is.
pub open spec fn sole_full_row(board: Seq<Cell>, row: int) -> bool {
    &&& 0 <= row < HEIGHT
    &&& forall|r: int| 0 <= r < HEIGHT ==> (row_full(board, r) <==> r == row)
}

/// Row `row` and the row on top of it are full and no other row is.
pub open spec fn sole_full_pair(board: Seq<Cell>, row: int) -> bool {
    &&& 0 <= row < HEIGHT - 1
    &&& forall|r: int| 0 <= r < HEIGHT ==> (row_full(board, r) <==> (r == row || r == row + 1))
}

/// Some cell of the band that ends the game is taken.
pub open spec fn zone_occupied(board: Seq<Cell>) -> bool {
    exists|k: int| ZONE_START <= k < ZONE_END && #[trigger] board[k] != Cell::Empty
}

/// The board with `tag` written on each of `cells`.
pub open spec fn stamped(board: Seq<Cell>, cells: Seq<int>, tag: Cell) -> Seq<Cell> {
    Seq::new(
        board.len(),
        |k: int|
            if cells.contains(k) {
                tag
            } else {
                board[k]
            },
    )
}

/// Every cell is an address of the grid and the board is empty there.
pub open spec fn free(board: Seq<Cell>, cells: Seq<int>) -> bool {
    forall|i: int|
        0 <= i < cells.len() ==> 0 <= #[trigger] cells[i] < CELLS && board[cells[i]] == Cell::Empty
}

/// The rule for the upright I, which is one column wide and so never
/// reaches over the seam: a step to the left must not land its first cell
/// in the rightmost column, nor a step to the right in the leftmost.
pub open spec fn slips_through(cells: Seq<int>, direction: Move, kind: Name) -> bool {
    kind == Name::I && ((direction == Move::Left && cells[0] % (WIDTH as int) == WIDTH - 1) || (
    direction == Move::Right && cells[0] % (WIDTH as int) == 0))
}

/// Whether a piece of kind `kind` that took `direction` may stand on
/// `cells`: it reaches over no seam, stands on free squares of the grid
/// above the floor, and did not slip through a wall.
pub open spec fn legal(board: Seq<Cell>, cells: Seq<int>, direction: Move, kind: Name) -> bool {
    &&& !straddles(cells)
    &&& free(board, cells)
    &&& above_floor(cells)
    &&& !slips_through(cells, direction, kind)
}

/// The settled cells, row after row from the floor up.
#[derive(Debug, Clone, Copy)]
pub struct Board {
    pub cells: [Cell; 210],
}

impl View for Board {
    type V = Seq<Cell>;

    open spec fn view(&self) -> Seq<Cell> {
        self.cells@
    }
}

impl Board {
    /// An empty board.
    pub fn new() -> (board: Board)
        ensures
            board@ == blank(CELLS as int),
    {
        let board = Board { cells: [Cell::Empty; 210] };
        assert(board@ =~= blank(CELLS as int));
        board
    }

    /// What the square at `pos` holds.
    pub fn get(&self, pos: u8) -> (cell: Cell)
        requires
            pos < CELLS,
        ensures
            cell == self@[pos as int],
    {
        self.cells[pos as usize]
    }

    /// Writes `kind` on the square at `pos`.
    pub fn set(&mut self, pos: u8, kind: Cell)
        requires
            pos < CELLS,
        ensures
            final(self)@ == old(self)@.update(pos as int, kind),
    {
        self.cells[pos as usize] = kind;
        assert(self@ =~= old(self)@.update(pos as int, kind));
    }

    /// Whether row `row` has no empty cell.
    pub fn is_row_full(&self, row: u8) -> (full: bool)
        requires
            row < HEIGHT,
        ensures
            full == row_full(self@, row as int),
    {
        let width: usize = WIDTH as usize;
        let start: usize = row as usize * width;
        let mut col: usize = 0;
        while col < width
            invariant
                col <= width == WIDTH,
                row < HEIGHT,
                start == row * WIDTH,
                forall|k: int| start <= k < start + col ==> #[trigger] self@[k] != Cell::Empty,
            decreases width - col,
        {
            if self.cells[start + col].is_empty() {
                return false;
            }
            col += 1;
        }
        true
    }

    /// Takes row `row` out: every row above it moves down by one and the top
    /// row becomes empty.
    pub fn collapse_from(&mut self, row: u8)
        requires
            row < HEIGHT,
        ensures
            final(self)@ == collapsed(old(self)@, row as int),
    {
        let ghost goal = collapsed(self@, row as int);
        let width: usize = WIDTH as usize;
        let end: usize = CELLS as usize;
        let mut k: usize = row as usize * width;
        while k + width < end
            invariant
                row * WIDTH <= k <= end - width,
                width == WIDTH,
                end == CELLS,
                row < HEIGHT,
                old(self)@.len() == CELLS,
                goal == collapsed(old(self)@, row as int),
                forall|j: int| 0 <= j < k ==> #[trigger] self@[j] == goal[j],
                forall|j: int| k <= j < CELLS ==> #[trigger] self@[j] == old(self)@[j],
            decreases end - k,
        {
            let ghost before = self@;
            let above = self.cells[k + width];
            self.cells[k] = above;
            assert(self@ == before.update(k as int, above));
            k += 1;
        }
        while k < end
            invariant
                end - width <= k <= end,
                width == WIDTH,
                end == CELLS,
                row < HEIGHT,
                old(self)@.len() == CELLS,
                goal == collapsed(old(self)@, row as int),
                forall|j: int| 0 <= j < k ==> #[trigger] self@[j] == goal[j],
            decreases end - k,
        {
            let ghost before = self@;
            self.cells[k] = Cell::Empty;
            assert(self@ == before.update(k as int, Cell::Empty));
            k += 1;
        }
        assert(self@ =~= goal);
    }

    /// Whether a cell of the band that ends the game is taken.
    pub fn is_game_over_zone_occupied(&self) -> (occupied: bool)
        ensures
            occupied == zone_occupied(self@),
    {
        let mut k: u8 = ZONE_START;
        while k < ZONE_END
            invariant
                ZONE_START <= k <= ZONE_END,
                forall|j: int| ZONE_START <= j < k ==> #[trigger] self@[j] == Cell::Empty,
            decreases ZONE_END - k,
        {
            if !self.cells[k as usize].is_empty() {
                return true;
            }
            k += 1;
        }
        false
    }

    /// Writes the piece's tag on each of its cells.
    pub fn freeze(&mut self, piece: &Tetromino)
        requires
            on_grid(piece@.cells),
        ensures
            final(self)@ == stamped(old(self)@, piece@.cells, piece.name.tag()),
    {
        let tag = piece.name.to_cell();
        let ghost cells = piece@.cells;
        let mut i: usize = 0;
        while i < 4
            invariant
                i <= 4,
                cells == piece@.cells,
                on_grid(cells),
                tag == piece.name.tag(),
                self@ == stamped(old(self)@, cells.take(i as int), tag),
            decreases 4 - i,
        {
            let ghost seen = cells.take(i as int);
            let ghost more = cells.take(i + 1);
            let pos: u8 = piece.coordinates[i];
            assert(cells[i as int] == pos);
            self.cells[pos as usize] = tag;
            assert(self@ =~= stamped(old(self)@, more, tag)) by {
                assert(more[i as int] == pos);
                assert forall|k: int| 0 <= k < CELLS implies #[trigger] self@[k] == stamped(
                    old(self)@,
                    more,
                    tag,
                )[k] by {
                    if more.contains(k) {
                        let j = choose|j: int| 0 <= j < more.len() && more[j] == k;
                        if j < i {
                            assert(seen[j] == k);
                        }
                    } else if seen.contains(k) {
                        let j = choose|j: int| 0 <= j < seen.len() && seen[j] == k;
                        assert(more[j] == k);
                    }
                }
            }
            i += 1;
        }
        assert(cells.take(4) =~= cells);
        assert(self@ =~= stamped(old(self)@, cells, tag));
    }

    /// Decides whether a piece of kind `piece_kind` that took `move_kind`
    /// may stand on `candidate_cells`. A piece that is let through stands on
    /// the grid and on empty squares only.
    pub fn validate(&self, candidate_cells: &[u8; 4], move_kind: &Move, piece_kind: Name) -> (ok:
        bool)
        ensures
            ok == legal(self@, addresses(*candidate_cells), *move_kind, piece_kind),
            ok ==> forall|i: int|
                0 <= i < 4 ==> #[trigger] candidate_cells[i] < CELLS
                    && self@[candidate_cells[i] as int] == Cell::Empty,
    {
        let ghost cells = addresses(*candidate_cells);
        let mut left = false;
        let mut right = false;
        let mut clear = true;
        let mut i: usize = 0;
        while i < 4
            invariant
                i <= 4,
                cells == addresses(*candidate_cells),
                left == touches_left(cells.take(i as int)),
                right == touches_right(cells.take(i as int)),
                clear == (free(self@, cells.take(i as int)) && above_floor(cells.take(i as int))),
            decreases 4 - i,
        {
            let pos: u8 = candidate_cells[i];
            let ghost seen = cells.take(i as int);
            let ghost more = cells.take(i + 1);
            assert(more =~= seen.push(pos as int));
            assert(forall|j: int| 0 <= j < i ==> more[j] == seen[j]);
            assert(more[i as int] == pos);
            if pos % WIDTH == 0 {
                left = true;
            }
            if pos % WIDTH == WIDTH - 1 {
                right = true;
            }
            if pos >= CELLS || pos < WIDTH || !self.cells[pos as usize].is_empty() {
                clear = false;
            }
            assert(left == touches_left(more)) by {
                if touches_left(seen) {
                    let j = choose|j: int| 0 <= j < seen.len() && seen[j] % (WIDTH as int) == 0;
                    assert(more[j] % (WIDTH as int) == 0);
                }
            }
            assert(right == touches_right(more)) by {
                if touches_right(seen) {
                    let j = choose|j: int|
                        0 <= j < seen.len() && seen[j] % (WIDTH as int) == WIDTH - 1;
                    assert(more[j] % (WIDTH as int) == WIDTH - 1);
                }
            }
            i += 1;
        }
        assert(cells.take(4) =~= cells);
        let slips = piece_kind == Name::I && ((*move_kind == Move::Left && candidate_cells[0]
            % WIDTH == WIDTH - 1) || (*move_kind == Move::Right && candidate_cells[0] % WIDTH
            == 0));
        assert(cells[0] == candidate_cells[0]);
        let ok = !(left && right) && clear && !slips;
        assert(ok ==> forall|i: int|
            0 <= i < 4 ==> #[trigger] candidate_cells[i] < CELLS
                && self@[candidate_cells[i] as int] == Cell::Empty) by {
            if ok {
                assert forall|i: int| 0 <= i < 4 implies #[trigger] candidate_cells[i] < CELLS
                    && self@[candidate_cells[i] as int] == Cell::Empty by {
                    assert(cells[i] == candidate_cells[i]);
                }
            }
        }
        ok
    }

    /// Takes out every full row. What is left keeps its order and settles
    /// on the floor; the rows freed at the top are empty. Returns how many
    /// rows went. Where one row alone is full, that row alone goes and the
    /// rows above it come down by one; where two rows on top of each other
    /// are full and no other, both go at once.
    pub fn clear_full_rows(&mut self) -> (count: u8)
        ensures
            final(self)@ == cleared(old(self)@),
            count == full_rows(old(self)@, HEIGHT as int),
            forall|row: int| 0 <= row < HEIGHT ==> !row_full(final(self)@, row),
            forall|row: int| #[trigger]
                sole_full_row(old(self)@, row) ==> count == 1 && final(self)@ == collapsed(
                    old(self)@,
                    row,
                ),
            forall|row: int| #[trigger]
                sole_full_pair(old(self)@, row) ==> count == 2 && final(self)@ == collapsed(
                    collapsed(old(self)@, row),
                    row,
                ),
    {
        let mut row: u8 = 0;
        let mut count: u8 = 0;
        while row + count < HEIGHT
            invariant
                row + count <= HEIGHT,
                cleared(self@) == cleared(old(self)@),
                full_rows(self@, HEIGHT as int) + count == full_rows(old(self)@, HEIGHT as int),
                forall|r: int| 0 <= r < row ==> !row_full(self@, r),
                forall|k: int|
                    CELLS - WIDTH * count <= k < CELLS ==> #[trigger] self@[k] == Cell::Empty,
            decreases HEIGHT - row - count,
        {
            if self.is_row_full(row) {
                proof {
                    lemma_collapse_full_row(self@, row as int);
                    assert forall|r: int| 0 <= r < row implies !row_full(
                        collapsed(self@, row as int),
                        r,
                    ) by {
                        lemma_collapse_rows(self@, row as int, r);
                    }
                }
                self.collapse_from(row);
                count += 1;
            } else {
                row += 1;
            }
        }
        proof {
            assert forall|r: int| 0 <= r < HEIGHT implies !row_full(self@, r) by {
                if r >= row {
                    assert(self@[r * WIDTH] == Cell::Empty);
                }
            }
            lemma_nothing_to_clear(self@);
            assert forall|r: int| #[trigger] sole_full_row(old(self)@, r) implies count == 1
                && self@ == collapsed(old(self)@, r) by {
                lemma_clear_single_row(old(self)@, r);
            }
            assert forall|r: int| #[trigger] sole_full_pair(old(self)@, r) implies count == 2
                && self@ == collapsed(collapsed(old(self)@, r), r) by {
                lemma_clear_two_rows(old(self)@, r);
            }
        }
        count
    }
}

/// How the rows of a board lie after row `row` is taken out: those below it
/// are as they were, those from it upwards are the rows that lay one higher,
/// and the top row is empty.
pub proof fn lemma_collapse_rows(board: Seq<Cell>, row: int, j: int)
    requires
        board.len() == CELLS,
        0 <= row < HEIGHT,
        0 <= j < HEIGHT,
    ensures
        j < row ==> row_of(collapsed(board, row), j) == row_of(board, j) && row_full(
            collapsed(board, row),
            j,
        ) == row_full(board, j),
        row <= j < HEIGHT - 1 ==> row_of(collapsed(board, row), j) == row_of(board, j + 1)
            && row_full(collapsed(board, row), j) == row_full(board, j + 1),
        j == HEIGHT - 1 ==> row_of(collapsed(board, row), j) == blank(WIDTH as int) && !row_full(
            collapsed(board, row),
            j,
        ),
{
    let after = collapsed(board, row);
    if j < row {
        assert(row_of(after, j) =~= row_of(board, j));
        if row_full(board, j) {
            assert forall|k: int| j * WIDTH <= k < (j + 1) * WIDTH implies #[trigger] after[k]
                != Cell::Empty by {
                assert(after[k] == board[k]);
            }
        }
        if row_full(after, j) {
            assert forall|k: int| j * WIDTH <= k < (j + 1) * WIDTH implies #[trigger] board[k]
                != Cell::Empty by {
                assert(after[k] == board[k]);
            }
        }
    } else if j < HEIGHT - 1 {
        assert(row_of(after, j) =~= row_of(board, j + 1));
        if row_full(board, j + 1) {
            assert forall|k: int| j * WIDTH <= k < (j + 1) * WIDTH implies #[trigger] after[k]
                != Cell::Empty by {
                assert(after[k] == board[k + WIDTH]);
            }
        }
        if row_full(after, j) {
            assert forall|k: int| (j + 1) * WIDTH <= k < (j + 2) * WIDTH implies #[trigger] board[k]
                != Cell::Empty by {
                assert(after[k - WIDTH] == board[k]);
            }
        }
    } else {
        assert(row_of(after, j) =~= blank(WIDTH as int));
        assert(after[j * WIDTH] == Cell::Empty);
    }
}

/// The lowest `rows` rows hold as many cells in their rows that are not
/// full as the count of full rows leaves.
pub proof fn lemma_surviving_len(board: Seq<Cell>, rows: int)
    requires
        0 <= rows,
        rows * WIDTH <= board.len(),
    ensures
        0 <= full_rows(board, rows) <= rows,
        surviving(board, rows).len() == WIDTH * (rows - full_rows(board, rows)),
    decreases rows,
{
    if rows > 0 {
        lemma_surviving_len(board, rows - 1);
    }
}

proof fn lemma_collapse_prefix(board: Seq<Cell>, row: int, rows: int)
    requires
        board.len() == CELLS,
        0 <= row < HEIGHT,
        row_full(board, row),
        0 <= rows < HEIGHT,
    ensures
        rows <= row ==> surviving(collapsed(board, row), rows) == surviving(board, rows)
            && full_rows(collapsed(board, row), rows) == full_rows(board, rows),
        rows >= row ==> surviving(collapsed(board, row), rows) == surviving(board, rows + 1)
            && full_rows(collapsed(board, row), rows) + 1 == full_rows(board, rows + 1),
    decreases rows,
{
    let after = collapsed(board, row);
    if rows > 0 {
        lemma_collapse_prefix(board, row, rows - 1);
        lemma_collapse_rows(board, row, rows - 1);
    }
    if rows == row {
        assert(surviving(board, rows + 1) == surviving(board, rows));
        assert(full_rows(board, rows + 1) == full_rows(board, rows) + 1);
    } else if rows > row {
        assert(surviving(after, rows - 1) == surviving(board, rows));
        assert(row_of(after, rows - 1) == row_of(board, rows));
        assert(row_full(after, rows - 1) == row_full(board, rows));
    }
}

/// Taking out one full row changes nothing in what line clearing gives, and
/// leaves one full row fewer.
pub proof fn lemma_collapse_full_row(board: Seq<Cell>, row: int)
    requires
        board.len() == CELLS,
        0 <= row < HEIGHT,
        row_full(board, row),
    ensures
        cleared(collapsed(board, row)) == cleared(board),
        full_rows(collapsed(board, row), HEIGHT as int) + 1 == full_rows(board, HEIGHT as int),
{
    let after = collapsed(board, row);
    let top = HEIGHT - 1;
    lemma_collapse_prefix(board, row, top);
    lemma_collapse_rows(board, row, top);
    lemma_surviving_len(board, HEIGHT as int);
    lemma_surviving_len(after, HEIGHT as int);
    let gone = full_rows(after, HEIGHT as int);
    assert(surviving(after, top) == surviving(board, HEIGHT as int));
    assert(surviving(after, HEIGHT as int) == surviving(board, HEIGHT as int) + blank(
        WIDTH as int,
    ));
    assert(gone == full_rows(after, top));
    assert(gone + 1 == full_rows(board, HEIGHT as int));
    assert(blank(WIDTH as int) + blank(WIDTH * gone) =~= blank(WIDTH * (gone + 1)));
    assert(cleared(after) =~= cleared(board));
}

proof fn lemma_no_full_row_prefix(board: Seq<Cell>, rows: int)
    requires
        board.len() == CELLS,
        0 <= rows <= HEIGHT,
        forall|row: int| 0 <= row < HEIGHT ==> !row_full(board, row),
    ensures
        full_rows(board, rows) == 0,
        surviving(board, rows) == board.take(rows * WIDTH),
    decreases rows,
{
    if rows > 0 {
        lemma_no_full_row_prefix(board, rows - 1);
        assert(board.take((rows - 1) * WIDTH) + row_of(board, rows - 1) =~= board.take(
            rows * WIDTH,
        ));
    } else {
        assert(board.take(0) =~= Seq::<Cell>::empty());
    }
}

/// Line clearing leaves a board without full rows as it is.
pub proof fn lemma_nothing_to_clear(board: Seq<Cell>)
    requires
        board.len() == CELLS,
        forall|row: int| 0 <= row < HEIGHT ==> !row_full(board, row),
    ensures
        full_rows(board, HEIGHT as int) == 0,
        cleared(board) == board,
{
    lemma_no_full_row_prefix(board, HEIGHT as int);
    assert(cleared(board) =~= board);
}

/// A full row among the lowest `rows` is counted.
proof fn lemma_full_row_counts(board: Seq<Cell>, rows: int, row: int)
    requires
        0 <= row < rows,
        row_full(board, row),
    ensures
        full_rows(board, rows) >= 1,
        full_rows(board, row) >= 0,
    decreases rows,
{
    if rows - 1 > row {
        lemma_full_row_counts(board, rows - 1, row);
    } else {
        lemma_full_rows_bounds(board, row);
    }
}

/// No more rows are full than there are, and no fewer than none.
pub proof fn lemma_full_rows_bounds(board: Seq<Cell>, rows: int)
    ensures
        0 <= full_rows(board, rows) <= if rows >= 0 {
            rows
        } else {
            0
        },
    decreases rows,
{
    if rows > 0 {
        lemma_full_rows_bounds(board, rows - 1);
    }
}

/// Where the count of full rows is not zero, some row is full.
proof fn lemma_some_row_is_full(board: Seq<Cell>, rows: int)
    requires
        full_rows(board, rows) > 0,
    ensures
        exists|row: int| 0 <= row < rows && row_full(board, row),
    decreases rows,
{
    if rows > 0 && !row_full(board, rows - 1) {
        lemma_some_row_is_full(board, rows - 1);
    }
}

/// Line clearing comes to rest: the board it gives has its size and no full
/// row, so that clearing it once more changes nothing.
pub proof fn lemma_cleared_is_settled(board: Seq<Cell>)
    requires
        board.len() == CELLS,
    ensures
        cleared(board).len() == CELLS,
        forall|row: int| 0 <= row < HEIGHT ==> !row_full(cleared(board), row),
        cleared(cleared(board)) == cleared(board),
    decreases full_rows(board, HEIGHT as int),
{
    lemma_full_rows_bounds(board, HEIGHT as int);
    if full_rows(board, HEIGHT as int) == 0 {
        assert forall|row: int| 0 <= row < HEIGHT implies !row_full(board, row) by {
            if row_full(board, row) {
                lemma_full_row_counts(board, HEIGHT as int, row);
            }
        }
        lemma_nothing_to_clear(board);
    } else {
        lemma_some_row_is_full(board, HEIGHT as int);
        let row = choose|row: int| 0 <= row < HEIGHT && row_full(board, row);
        lemma_collapse_full_row(board, row);
        lemma_cleared_is_settled(collapsed(board, row));
    }
}

/// Where exactly one row is full, line clearing takes out that row and no
/// other: one row is counted, the rows above it come down by one, and the
/// top row is empty.
pub proof fn lemma_clear_single_row(board: Seq<Cell>, row: int)
    requires
        board.len() == CELLS,
        sole_full_row(board, row),
    ensures
        full_rows(board, HEIGHT as int) == 1,
        cleared(board) == collapsed(board, row),
{
    let after = collapsed(board, row);
    lemma_collapse_full_row(board, row);
    assert forall|r: int| 0 <= r < HEIGHT implies !row_full(after, r) by {
        lemma_collapse_rows(board, row, r);
    }
    lemma_nothing_to_clear(after);
}

/// Where exactly two rows are full, one on top of the other, line clearing
/// takes out both at once: two rows are counted, and the rows above them
/// come down by two.
pub proof fn lemma_clear_two_rows(board: Seq<Cell>, row: int)
    requires
        board.len() == CELLS,
        sole_full_pair(board, row),
    ensures
        full_rows(board, HEIGHT as int) == 2,
        cleared(board) == collapsed(collapsed(board, row), row),
{
    let after = collapsed(board, row);
    lemma_collapse_full_row(board, row);
    assert forall|r: int| 0 <= r < HEIGHT implies (row_full(after, r) <==> r == row) by {
        lemma_collapse_rows(board, row, r);
    }
    lemma_clear_single_row(after, row);
}

/// The cell of `cells` that lies `offset` columns to the right of cell `i`,
/// columns counted round the seam; 4 if there is none.
pub open spec fn column_mate(cells: Seq<int>, i: int, offset: int) -> int {
    if (cells[0] - cells[i]) % (WIDTH as int) == offset {
        0
    } else if (cells[1] - cells[i]) % (WIDTH as int) == offset {
        1
    } else if (cells[2] - cells[i]) % (WIDTH as int) == offset {
        2
    } else if (cells[3] - cells[i]) % (WIDTH as int) == offset {
        3
    } else {
        4
    }
}

/// In the outline of every kind and state, each cell has a cell in the
/// column to its left or in the column to its right; only the upright I has
/// all its cells in one column.
#[verifier::rlimit(40)]
proof fn lemma_outline_columns(name: Name, spin: int, i: int)
    requires
        0 <= spin < name.cycle(),
        0 <= i < 4,
    ensures
        name == Name::I && spin == 0 ==> (Piece::posed(name, spin).cells[0] - Piece::posed(
            name,
            spin,
        ).cells[i]) % (WIDTH as int) == 0,
        !(name == Name::I && spin == 0) ==> column_mate(Piece::posed(name, spin).cells, i, 1) < 4
            || column_mate(Piece::posed(name, spin).cells, i, WIDTH - 1) < 4,
{
    lemma_posed_cells(name, spin);
}

/// A piece that has its kind's outline has the column mates of that
/// outline, and has its first cell in the column of all the others where
/// the outline is one column wide.
proof fn lemma_piece_columns(piece: Piece, i: int)
    requires
        piece.shaped(),
        0 <= i < 4,
    ensures
        piece.name == Name::I && piece.spin == 0 ==> (piece.cells[0] - piece.cells[i]) % (
        WIDTH as int) == 0,
        !(piece.name == Name::I && piece.spin == 0) ==> column_mate(piece.cells, i, 1) < 4
            || column_mate(piece.cells, i, WIDTH - 1) < 4,
{
    let outline = Piece::posed(piece.name, piece.spin).cells;
    lemma_outline_columns(piece.name, piece.spin, i);
    assert(forall|j: int| 0 <= j < 4 ==> #[trigger] piece.cells[j] - piece.cells[i] == outline[j]
        - outline[i]);
}

/// The columns of two squares that lie `gap` apart, when the first lies in
/// column `column`.
proof fn lemma_columns_apart(first: int, second: int, column: int, gap: int)
    requires
        first % (WIDTH as int) == column,
        (second - first) % (WIDTH as int) == gap,
    ensures
        second % (WIDTH as int) == (column + gap) % (WIDTH as int),
{
}

/// Cells of which one lies in the leftmost column and one in the column
/// next to it reach over the seam once all have stepped to the left.
proof fn lemma_step_left_over_seam(cells: Seq<int>, target: Seq<int>, at: int, mate: int)
    requires
        cells.len() == 4,
        target.len() == 4,
        forall|i: int| 0 <= i < 4 ==> #[trigger] target[i] == cells[i] - 1,
        0 <= at < 4,
        0 <= mate < 4,
        cells[at] % (WIDTH as int) == 0,
        (cells[mate] - cells[at]) % (WIDTH as int) == 1,
    ensures
        straddles(target),
{
    lemma_columns_apart(cells[at], cells[mate], 0, 1);
    assert(target[at] % (WIDTH as int) == WIDTH - 1);
    assert(target[mate] % (WIDTH as int) == 0);
}

/// Cells of which one lies in the rightmost column and one in the column
/// next to it reach over the seam once all have stepped to the right.
proof fn lemma_step_right_over_seam(cells: Seq<int>, target: Seq<int>, at: int, mate: int)
    requires
        cells.len() == 4,
        target.len() == 4,
        forall|i: int| 0 <= i < 4 ==> #[trigger] target[i] == cells[i] + 1,
        0 <= at < 4,
        0 <= mate < 4,
        cells[at] % (WIDTH as int) == WIDTH - 1,
        (cells[mate] - cells[at]) % (WIDTH as int) == WIDTH - 1,
    ensures
        straddles(target),
{
    lemma_columns_apart(cells[at], cells[mate], WIDTH - 1, WIDTH - 1);
    assert(target[at] % (WIDTH as int) == 0);
    assert(target[mate] % (WIDTH as int) == WIDTH - 1);
}

/// A piece that stands against the left wall is not let through it: on no
/// board is the step to the left legal. The cells it would take lie in the
/// row below, which is how the validator knows.
pub proof fn lemma_left_wall_blocks(board: Seq<Cell>, piece: Piece)
    requires
        piece.placed(),
        touches_left(piece.cells),
    ensures
        !legal(board, piece.moved(Move::Left).cells, Move::Left, piece.name),
{
    let cells = piece.cells;
    let target = piece.moved(Move::Left).cells;
    let at = choose|i: int| 0 <= i < cells.len() && #[trigger] cells[i] % (WIDTH as int) == 0;
    lemma_piece_columns(piece, at);
    assert(forall|i: int| 0 <= i < 4 ==> #[trigger] target[i] == cells[i] - 1);
    if piece.name == Name::I && piece.spin == 0 {
        lemma_columns_apart(cells[at], cells[0], 0, 0);
        assert(slips_through(target, Move::Left, piece.name));
    } else if column_mate(cells, at, 1) < 4 {
        lemma_step_left_over_seam(cells, target, at, column_mate(cells, at, 1));
    } else {
        let mate = column_mate(cells, at, WIDTH - 1);
        lemma_columns_apart(cells[at], cells[mate], 0, WIDTH - 1);
        assert(cells[mate] % (WIDTH as int) == WIDTH - 1);
        assert(touches_right(cells));
    }
}

/// A piece that stands against the right wall is not let through it: on no
/// board is the step to the right legal.
pub proof fn lemma_right_wall_blocks(board: Seq<Cell>, piece: Piece)
    requires
        piece.placed(),
        touches_right(piece.cells),
    ensures
        !legal(board, piece.moved(Move::Right).cells, Move::Right, piece.name),
{
    let cells = piece.cells;
    let target = piece.moved(Move::Right).cells;
    let at = choose|i: int|
        0 <= i < cells.len() && #[trigger] cells[i] % (WIDTH as int) == WIDTH - 1;
    lemma_piece_columns(piece, at);
    assert(forall|i: int| 0 <= i < 4 ==> #[trigger] target[i] == cells[i] + 1);
    if piece.name == Name::I && piece.spin == 0 {
        lemma_columns_apart(cells[at], cells[0], WIDTH - 1, 0);
        assert(slips_through(target, Move::Right, piece.name));
    } else if column_mate(cells, at, WIDTH - 1) < 4 {
        lemma_step_right_over_seam(cells, target, at, column_mate(cells, at, WIDTH - 1));
    } else {
        let mate = column_mate(cells, at, 1);
        lemma_columns_apart(cells[at], cells[mate], WIDTH - 1, 1);
        assert(cells[mate] % (WIDTH as int) == 0);
        assert(touches_left(cells));
    }
}

} // verus!
