//! The game state machine: commands, gravity ticks, freezing and game over.

use vstd::prelude::*;
use crate::board::{
    blank, cleared, collapsed, free, full_rows, legal, lemma_clear_single_row,
    lemma_clear_two_rows, lemma_full_rows_bounds, lemma_left_wall_blocks,
    lemma_right_wall_blocks, lemma_surviving_len,
    sole_full_pair, sole_full_row, stamped, zone_occupied, Board,
};
use crate::cell::{Cell, Name};
use crate::tetromino::{
    lemma_left_right_inverse, lemma_move_keeps_shape, lemma_spawn_is_placed, on_grid,
    touches_left, touches_right, Piece, Tetromino, CELLS, HEIGHT,
};

verus! {

/// One step a piece can be asked to take.
#[derive(Debug, Clone, Copy, PartialEq, Eq, Structural)]
pub enum Move {
    Left,
    Right,
    Down,
    Turn,
    Stay,
}

/// What the player asked for, as the keyboard reader hands it over.
#[derive(Debug, Clone, Copy, PartialEq, Eq, Structural)]
pub enum Command {
    MoveLeft,
    MoveRight,
    MoveDown,
    Rotate,
    Quit,
    Idle,
}

/// A key as the terminal reports it: an arrow, a character, or anything
/// else.
#[derive(Debug, Clone, Copy, PartialEq, Eq, Structural)]
pub enum Key {
    Left,
    Right,
    Up,
    Down,
    Char(char),
    Other,
}

/// What the loop round a game has to report: a key it read, or, with no key
/// waiting, the milliseconds that went by since the last gravity tick.
#[derive(Debug, Clone, Copy, PartialEq, Eq, Structural)]
pub enum Event {
    Pressed(Key),
    Waited(u32),
}

/// What a game answers to an event: how it stands now, and whether a
/// gravity tick took place, after which the time since the last tick counts
/// from zero again.
#[derive(Debug, Clone, Copy, PartialEq, Eq, Structural)]
pub struct Reaction {
    pub outcome: Outcome,
    pub ticked: bool,
}

/// Where a game stands.
#[derive(Debug, Clone, Copy, PartialEq, Eq, Structural)]
pub enum Phase {
    Falling,
    GameOver,
    Quit,
}

/// What a step of the game reports to its caller.
#[derive(Debug, Clone, Copy, PartialEq, Eq, Structural)]
pub enum Outcome {
    Running,
    GameOver { score: u32 },
    Quit { score: u32 },
}

/// Milliseconds between two gravity ticks when a game begins, unless the
/// caller says otherwise.
pub const DEFAULT_SPEED: u32 = 800;

/// Milliseconds by which a cleared row shortens the time between ticks.
pub const DEFAULT_STEP: u32 = 10;

/// Milliseconds below which clearing rows does not shorten that time.
pub const DEFAULT_FLOOR: u32 = 10;

/// The time between ticks after `rows` rows were cleared: `step` less for
/// each row, but never brought below `floor`. A time that is at `floor` or
/// below it already stays as it is.
pub open spec fn faster(interval: int, step: int, floor: int, rows: int) -> int {
    if interval <= floor {
        interval
    } else if interval - rows * step >= floor {
        interval - rows * step
    } else {
        floor
    }
}

impl Command {
    /// The command a key stands for: `i` turns, `j`, `k` and `l` move left,
    /// down and right, `q` quits, any other key asks for nothing.
    pub open spec fn of_byte(key: u8) -> Command {
        if key == 105 {
            Command::Rotate
        } else if key == 106 {
            Command::MoveLeft
        } else if key == 107 {
            Command::MoveDown
        } else if key == 108 {
            Command::MoveRight
        } else if key == 113 {
            Command::Quit
        } else {
            Command::Idle
        }
    }

    /// The command a character stands for, which is that of its key.
    pub open spec fn of_char(key: char) -> Command {
        if key == 'i' {
            Command::Rotate
        } else if key == 'j' {
            Command::MoveLeft
        } else if key == 'k' {
            Command::MoveDown
        } else if key == 'l' {
            Command::MoveRight
        } else if key == 'q' {
            Command::Quit
        } else {
            Command::Idle
        }
    }

    /// The command a key of the terminal stands for: the arrows move left,
    /// right and down, the arrow up turns, a character does what its key
    /// does, and anything else asks for nothing.
    pub open spec fn of_key(key: Key) -> Command {
        match key {
            Key::Left => Command::MoveLeft,
            Key::Right => Command::MoveRight,
            Key::Up => Command::Rotate,
            Key::Down => Command::MoveDown,
            Key::Char(c) => Command::of_char(c),
            Key::Other => Command::Idle,
        }
    }

    /// The step a command asks of the piece, if it asks one.
    pub open spec fn step(self) -> Move {
        match self {
            Command::MoveLeft => Move::Left,
            Command::MoveRight => Move::Right,
            Command::MoveDown => Move::Down,
            Command::Rotate => Move::Turn,
            Command::Quit => Move::Stay,
            Command::Idle => Move::Stay,
        }
    }

    pub fn from_byte(key: u8) -> (command: Command)
        ensures
            command == Command::of_byte(key),
    {
        match key {
            105 => Command::Rotate,
            106 => Command::MoveLeft,
            107 => Command::MoveDown,
            108 => Command::MoveRight,
            113 => Command::Quit,
            _ => Command::Idle,
        }
    }

    pub fn from_key(key: Key) -> (command: Command)
        ensures
            command == Command::of_key(key),
    {
        match key {
            Key::Left => Command::MoveLeft,
            Key::Right => Command::MoveRight,
            Key::Up => Command::Rotate,
            Key::Down => Command::MoveDown,
            Key::Char(c) => {
                if c == 'i' {
                    Command::Rotate
                } else if c == 'j' {
                    Command::MoveLeft
                } else if c == 'k' {
                    Command::MoveDown
                } else if c == 'l' {
                    Command::MoveRight
                } else if c == 'q' {
                    Command::Quit
                } else {
                    Command::Idle
                }
            },
            Key::Other => Command::Idle,
        }
    }

    pub fn direction(&self) -> (direction: Move)
        ensures
            direction == self.step(),
    {
        match self {
            Command::MoveLeft => Move::Left,
            Command::MoveRight => Move::Right,
            Command::MoveDown => Move::Down,
            Command::Rotate => Move::Turn,
            Command::Quit => Move::Stay,
            Command::Idle => Move::Stay,
        }
    }
}

/// A game as mathematics sees it.
pub struct GameState {
    pub board: Seq<Cell>,
    pub piece: Piece,
    pub score: int,
    pub interval: int,
    pub step: int,
    pub floor: int,
    pub phase: Phase,
}

impl GameState {
    /// The board has its size, the piece is whole and stands on the grid,
    /// the score fits its counter, and the time between ticks is positive
    /// and stays so.
    pub open spec fn wf(self) -> bool {
        &&& self.board.len() == CELLS
        &&& self.piece.placed()
        &&& 0 <= self.score <= u32::MAX
        &&& 1 <= self.interval <= u32::MAX
        &&& 0 <= self.step <= u32::MAX
        &&& 1 <= self.floor <= u32::MAX
    }

    /// A game that begins with a piece of kind `first`.
    pub open spec fn begin(first: Name, interval: int, step: int, floor: int) -> GameState {
        GameState {
            board: blank(CELLS as int),
            piece: Piece::spawn(first),
            score: 0,
            interval,
            step,
            floor,
            phase: Phase::Falling,
        }
    }

    /// Whether the piece may take `direction`.
    pub open spec fn allows(self, direction: Move) -> bool {
        legal(self.board, self.piece.moved(direction).cells, direction, self.piece.name)
    }

    /// The game after the piece was asked to take `direction`: it has, if
    /// that was legal, and nothing has changed if it was not.
    pub open spec fn attempt(self, direction: Move) -> GameState {
        if self.allows(direction) {
            GameState { piece: self.piece.moved(direction), ..self }
        } else {
            self
        }
    }

    /// The game after a command. A game that is over takes none.
    pub open spec fn after_command(self, command: Command) -> GameState {
        if self.phase != Phase::Falling {
            self
        } else {
            match command {
                Command::Quit => GameState { phase: Phase::Quit, ..self },
                Command::Idle => self,
                _ => self.attempt(command.step()),
            }
        }
    }

    /// The game after the piece came to rest: its cells are written on the
    /// board, full rows are cleared and counted, each cleared row adds one
    /// to the score and shortens the time between ticks; then, if the band
    /// that ends the game is taken, the game is over and no piece appears,
    /// else a piece of kind `next` appears.
    pub open spec fn settled(self, next: Name) -> GameState {
        let filled = stamped(self.board, self.piece.cells, self.piece.name.tag());
        let rows = full_rows(filled, HEIGHT as int);
        let board = cleared(filled);
        GameState {
            board,
            piece: if zone_occupied(board) {
                self.piece
            } else {
                Piece::spawn(next)
            },
            score: self.score + rows,
            interval: faster(self.interval, self.step, self.floor, rows),
            step: self.step,
            floor: self.floor,
            phase: if zone_occupied(board) {
                Phase::GameOver
            } else {
                self.phase
            },
        }
    }

    /// A gravity tick would bring the piece to rest: the game runs, the band
    /// that ends it is free, and the piece may not fall.
    pub open spec fn comes_to_rest(self) -> bool {
        &&& self.phase == Phase::Falling
        &&& !zone_occupied(self.board)
        &&& !self.allows(Move::Down)
    }

    /// The score has room for the rows that the next gravity tick clears.
    pub open spec fn has_room(self) -> bool {
        self.comes_to_rest() ==> self.score + full_rows(
            stamped(self.board, self.piece.cells, self.piece.name.tag()),
            HEIGHT as int,
        ) <= u32::MAX
    }

    /// The game after a gravity tick, `next` being the kind of the piece
    /// that appears if one is needed. A game that is over stays as it is. A
    /// game whose board has the band that ends it taken is over, with
    /// nothing else changed. Else the piece falls by one row if it may, and
    /// comes to rest if it may not.
    pub open spec fn after_tick(self, next: Name) -> GameState {
        if self.phase != Phase::Falling {
            self
        } else if zone_occupied(self.board) {
            GameState { phase: Phase::GameOver, ..self }
        } else if self.allows(Move::Down) {
            GameState { piece: self.piece.moved(Move::Down), ..self }
        } else {
            self.settled(next)
        }
    }

    /// Whether `event` calls for a gravity tick: no key was waiting, and the
    /// time between ticks has gone by.
    pub open spec fn tick_due(self, event: Event) -> bool {
        event matches Event::Waited(elapsed) && elapsed >= self.interval
    }

    /// The game after an event: after the command of the key that was
    /// pressed, or after a gravity tick if one is due, and as it was if none
    /// is.
    pub open spec fn after_event(self, event: Event, next: Name) -> GameState {
        match event {
            Event::Pressed(key) => self.after_command(Command::of_key(key)),
            Event::Waited(elapsed) => if elapsed >= self.interval {
                self.after_tick(next)
            } else {
                self
            },
        }
    }

    /// What the game reports: that it runs, or how it ended and with what
    /// score.
    pub open spec fn outcome(self) -> Outcome {
        match self.phase {
            Phase::Falling => Outcome::Running,
            Phase::GameOver => Outcome::GameOver { score: self.score as u32 },
            Phase::Quit => Outcome::Quit { score: self.score as u32 },
        }
    }
}

/// A game: the board, the falling piece, the score and the pace.
#[derive(Debug, Clone, Copy)]
pub struct Game {
    tick_interval: u32,
    step: u32,
    floor: u32,
    tetromino: Tetromino,
    stack: Board,
    score: u32,
    phase: Phase,
}

impl View for Game {
    type V = GameState;

    closed spec fn view(&self) -> GameState {
        GameState {
            board: self.stack@,
            piece: self.tetromino@,
            score: self.score as int,
            interval: self.tick_interval as int,
            step: self.step as int,
            floor: self.floor as int,
            phase: self.phase,
        }
    }
}

/// The time between ticks after `rows` rows were cleared.
pub fn speed_up(interval: u32, step: u32, floor: u32, rows: u8) -> (next: u32)
    ensures
        next == faster(interval as int, step as int, floor as int, rows as int),
{
    if interval <= floor {
        return interval;
    }
    assert(0 <= rows * step <= 255 * 0xffff_ffff) by (nonlinear_arith)
        requires
            0 <= rows <= 255,
            0 <= step <= 0xffff_ffff,
    ;
    let drop: u64 = rows as u64 * step as u64;
    if interval as u64 >= floor as u64 + drop {
        (interval as u64 - drop) as u32
    } else {
        floor
    }
}

impl Game {
    /// A game that begins with a piece of a kind drawn at random, an empty
    /// board, no score, and `tick_interval` milliseconds between ticks.
    pub fn new(tick_interval: u32) -> (game: Game)
        requires
            tick_interval >= 1,
        ensures
            game@.wf(),
            game@ == GameState::begin(
                game@.piece.name,
                tick_interval as int,
                DEFAULT_STEP as int,
                DEFAULT_FLOOR as int,
            ),
    {
        Game::assemble(Tetromino::randow_new(), tick_interval, DEFAULT_STEP, DEFAULT_FLOOR)
    }

    /// A game that begins with the piece `first`.
    pub(crate) fn assemble(first: Tetromino, tick_interval: u32, step: u32, floor: u32) -> (game:
        Game)
        requires
            first@ == Piece::spawn(first.name),
            first@.placed(),
            tick_interval >= 1,
            floor >= 1,
        ensures
            game@.wf(),
            game@ == GameState::begin(first.name, tick_interval as int, step as int, floor as int),
    {
        Game {
            tick_interval,
            step,
            floor,
            tetromino: first,
            stack: Board::new(),
            score: 0,
            phase: Phase::Falling,
        }
    }

    pub fn score(&self) -> (score: u32)
        ensures
            score == self@.score,
    {
        self.score
    }

    /// Milliseconds between two gravity ticks.
    pub fn tick_interval(&self) -> (interval: u32)
        ensures
            interval == self@.interval,
    {
        self.tick_interval
    }

    pub fn tetromino(&self) -> (piece: Tetromino)
        ensures
            piece@ == self@.piece,
    {
        self.tetromino
    }

    pub fn stack(&self) -> (board: &Board)
        ensures
            board@ == self@.board,
    {
        &self.stack
    }

    pub fn phase(&self) -> (phase: Phase)
        ensures
            phase == self@.phase,
    {
        self.phase
    }

    /// What the game reports: that it runs, or how it ended and with what
    /// score.
    pub fn outcome(&self) -> (outcome: Outcome)
        ensures
            outcome == self@.outcome(),
    {
        match self.phase {
            Phase::Falling => Outcome::Running,
            Phase::GameOver => Outcome::GameOver { score: self.score },
            Phase::Quit => Outcome::Quit { score: self.score },
        }
    }

    /// Whether `elapsed` milliseconds since the last tick call for the next.
    pub fn is_tick_due(&self, elapsed: u32) -> (due: bool)
        ensures
            due == (elapsed >= self@.interval),
    {
        elapsed >= self.tick_interval
    }

    /// Where `direction` would take the piece, if bytes can hold that.
    pub fn compute_the_next_move(&self, direction: &Move) -> (next: Option<Tetromino>)
        ensures
            next is Some <==> self@.piece.moved(*direction).fits(),
            next is Some ==> next.unwrap()@ == self@.piece.moved(*direction),
    {
        self.tetromino.candidate(direction)
    }

    /// Whether the piece may stand where `candidate` stands, having taken
    /// `direction`.
    pub fn check_for_collisions(&self, candidate: &Tetromino, direction: &Move) -> (ok: bool)
        ensures
            ok == legal(self@.board, candidate@.cells, *direction, self@.piece.name),
    {
        self.stack.validate(&candidate.coordinates, direction, self.tetromino.name)
    }

    /// Puts the piece where `candidate` stands.
    fn settle_the_move(&mut self, candidate: Tetromino)
        ensures
            final(self)@ == (GameState { piece: candidate@, ..old(self)@ }),
    {
        self.tetromino = candidate;
    }

    /// Asks the piece to take `direction`. It does if that is legal; if not,
    /// nothing changes. Says whether it did.
    pub fn attempt(&mut self, direction: &Move) -> (moved: bool)
        requires
            old(self)@.wf(),
        ensures
            moved == old(self)@.allows(*direction),
            final(self)@ == old(self)@.attempt(*direction),
            final(self)@.wf(),
            moved ==> free(final(self)@.board, final(self)@.piece.cells),
    {
        proof {
            lemma_move_keeps_shape(self@.piece, *direction);
        }
        match self.compute_the_next_move(direction) {
            Some(candidate) => {
                if self.check_for_collisions(&candidate, direction) {
                    self.settle_the_move(candidate);
                    true
                } else {
                    false
                }
            },
            None => false,
        }
    }

    /// Takes one command. A game that is over takes none.
    pub fn take_one_direction(&mut self, command: Command) -> (outcome: Outcome)
        requires
            old(self)@.wf(),
        ensures
            final(self)@ == old(self)@.after_command(command),
            final(self)@.wf(),
            outcome == final(self)@.outcome(),
    {
        match self.phase {
            Phase::Falling => {
                match command {
                    Command::Quit => {
                        self.phase = Phase::Quit;
                    },
                    Command::Idle => {},
                    _ => {
                        let direction = command.direction();
                        self.attempt(&direction);
                    },
                }
            },
            _ => {},
        }
        self.outcome()
    }

    /// Takes the command that the key `key` stands for.
    pub fn take_directions(&mut self, key: u8) -> (outcome: Outcome)
        requires
            old(self)@.wf(),
        ensures
            final(self)@ == old(self)@.after_command(Command::of_byte(key)),
            final(self)@.wf(),
            outcome == final(self)@.outcome(),
    {
        self.take_one_direction(Command::from_byte(key))
    }

    /// Whether the band that ends the game is taken.
    pub fn check_for_game_over(&self) -> (over: bool)
        ensures
            over == zone_occupied(self@.board),
    {
        self.stack.is_game_over_zone_occupied()
    }

    /// Clears the full rows of the board. Each adds one to the score and
    /// shortens the time between ticks. Returns how many there were. Where
    /// one row alone is full, that row alone goes, the rows above it come
    /// down by one, and the score grows by one; where two rows on top of
    /// each other are full and no other, both go at once and the score grows
    /// by two.
    pub fn clear_full_rows(&mut self) -> (rows: u8)
        requires
            old(self)@.wf(),
            old(self)@.score + full_rows(old(self)@.board, HEIGHT as int) <= u32::MAX,
        ensures
            rows == full_rows(old(self)@.board, HEIGHT as int),
            final(self)@ == (GameState {
                board: cleared(old(self)@.board),
                score: old(self)@.score + rows,
                interval: faster(
                    old(self)@.interval,
                    old(self)@.step,
                    old(self)@.floor,
                    rows as int,
                ),
                ..old(self)@
            }),
            final(self)@.wf(),
            forall|row: int| #[trigger]
                sole_full_row(old(self)@.board, row) ==> rows == 1 && final(self)@.board
                    == collapsed(old(self)@.board, row) && final(self)@.score == old(self)@.score
                    + 1 && (old(self)@.interval >= old(self)@.floor + old(self)@.step
                    ==> final(self)@.interval == old(self)@.interval - old(self)@.step),
            forall|row: int| #[trigger]
                sole_full_pair(old(self)@.board, row) ==> rows == 2 && final(self)@.board
                    == collapsed(collapsed(old(self)@.board, row), row) && final(self)@.score
                    == old(self)@.score + 2 && (old(self)@.interval >= old(self)@.floor + 2 * old(
                    self,
                )@.step ==> final(self)@.interval == old(self)@.interval - 2 * old(self)@.step),
    {
        proof {
            lemma_surviving_len(self@.board, HEIGHT as int);
        }
        let rows = self.stack.clear_full_rows();
        self.score = self.score + rows as u32;
        self.tick_interval = speed_up(self.tick_interval, self.step, self.floor, rows);
        rows
    }

    /// Brings the piece to rest and lets a piece of kind `next` appear,
    /// unless that ends the game.
    pub fn freeze_and_next(&mut self, next: Name)
        requires
            old(self)@.wf(),
            old(self)@.settled(next).score <= u32::MAX,
        ensures
            final(self)@ == old(self)@.settled(next),
            final(self)@.wf(),
    {
        self.stack.freeze(&self.tetromino);
        self.clear_full_rows();
        if self.check_for_game_over() {
            self.phase = Phase::GameOver;
        } else {
            self.tetromino = Tetromino::create(next);
        }
    }

    /// One gravity tick, `next` being the kind of the piece that appears if
    /// one is needed. Where the tick ends the game, no piece appears: the
    /// piece is the one that was there.
    pub fn tick_with(&mut self, next: Name) -> (outcome: Outcome)
        requires
            old(self)@.wf(),
            old(self)@.has_room(),
        ensures
            final(self)@ == old(self)@.after_tick(next),
            final(self)@.wf(),
            outcome == final(self)@.outcome(),
            final(self)@.phase == Phase::GameOver ==> final(self)@.piece == old(self)@.piece,
            old(self)@.phase == Phase::Falling && zone_occupied(old(self)@.board) ==> final(self)@
                == (GameState { phase: Phase::GameOver, ..old(self)@ }),
            old(self)@.comes_to_rest() ==> final(self)@.board == cleared(
                stamped(old(self)@.board, old(self)@.piece.cells, old(self)@.piece.name.tag()),
            ) && final(self)@.score == old(self)@.score + full_rows(
                stamped(old(self)@.board, old(self)@.piece.cells, old(self)@.piece.name.tag()),
                HEIGHT as int,
            ) && (final(self)@.phase == Phase::GameOver <==> zone_occupied(final(self)@.board)),
    {
        match self.phase {
            Phase::Falling => {
                if self.check_for_game_over() {
                    self.phase = Phase::GameOver;
                } else if !self.attempt(&Move::Down) {
                    self.freeze_and_next(next);
                }
            },
            _ => {},
        }
        self.outcome()
    }

    /// One gravity tick. The piece that appears, if one is needed, is of a
    /// kind drawn at random. Where the tick ends the game, no piece appears:
    /// the piece is the one that was there.
    pub fn tick(&mut self) -> (outcome: Outcome)
        requires
            old(self)@.wf(),
            old(self)@.has_room(),
        ensures
            exists|next: Name| final(self)@ == #[trigger] old(self)@.after_tick(next),
            final(self)@.wf(),
            outcome == final(self)@.outcome(),
            final(self)@.phase == Phase::GameOver ==> final(self)@.piece == old(self)@.piece,
            old(self)@.phase == Phase::Falling && zone_occupied(old(self)@.board) ==> final(self)@
                == (GameState { phase: Phase::GameOver, ..old(self)@ }),
            old(self)@.comes_to_rest() ==> final(self)@.board == cleared(
                stamped(old(self)@.board, old(self)@.piece.cells, old(self)@.piece.name.tag()),
            ) && final(self)@.score == old(self)@.score + full_rows(
                stamped(old(self)@.board, old(self)@.piece.cells, old(self)@.piece.name.tag()),
                HEIGHT as int,
            ) && (final(self)@.phase == Phase::GameOver <==> zone_occupied(final(self)@.board)),
    {
        let next = Tetromino::randow_new().name;
        self.tick_with(next)
    }

    /// Answers one event, `next` being the kind of the piece that appears
    /// if one is needed: a key is taken as its command, and time gone by
    /// brings a gravity tick once it is due. Never both.
    pub fn react_with(&mut self, event: Event, next: Name) -> (reaction: Reaction)
        requires
            old(self)@.wf(),
            old(self)@.tick_due(event) ==> old(self)@.has_room(),
        ensures
            final(self)@ == old(self)@.after_event(event, next),
            final(self)@.wf(),
            reaction.outcome == final(self)@.outcome(),
            reaction.ticked == old(self)@.tick_due(event),
    {
        match event {
            Event::Pressed(key) => {
                let outcome = self.take_one_direction(Command::from_key(key));
                Reaction { outcome, ticked: false }
            },
            Event::Waited(elapsed) => {
                if self.is_tick_due(elapsed) {
                    let outcome = self.tick_with(next);
                    Reaction { outcome, ticked: true }
                } else {
                    Reaction { outcome: self.outcome(), ticked: false }
                }
            },
        }
    }

    /// Answers one event. The piece that appears, if one is needed, is of a
    /// kind drawn at random.
    pub fn react(&mut self, event: Event) -> (reaction: Reaction)
        requires
            old(self)@.wf(),
            old(self)@.tick_due(event) ==> old(self)@.has_room(),
        ensures
            exists|next: Name| final(self)@ == #[trigger] old(self)@.after_event(event, next),
            final(self)@.wf(),
            reaction.outcome == final(self)@.outcome(),
            reaction.ticked == old(self)@.tick_due(event),
    {
        let next = Tetromino::randow_new().name;
        self.react_with(event, next)
    }

    /// The board as it is to be drawn: the settled cells, and on them the
    /// falling piece.
    pub fn display_the_board(&self) -> (picture: Board)
        requires
            self@.wf(),
        ensures
            picture@ == stamped(self@.board, self@.piece.cells, self@.piece.name.tag()),
    {
        let mut picture = self.stack;
        picture.freeze(&self.tetromino);
        picture
    }
}

/// A step that is let through takes the piece to squares of the grid that
/// are empty on the board, and to no others.
pub proof fn lemma_allowed_step_is_free(game: GameState, direction: Move)
    requires
        game.allows(direction),
    ensures
        on_grid(game.attempt(direction).piece.cells),
        free(game.board, game.attempt(direction).piece.cells),
{
}

/// A command leaves a sound game sound.
pub proof fn lemma_command_keeps_wf(game: GameState, command: Command)
    requires
        game.wf(),
    ensures
        game.after_command(command).wf(),
{
    lemma_move_keeps_shape(game.piece, command.step());
}

/// A score that leaves room for as many rows as the board has leaves room
/// for whatever the next gravity tick clears.
pub proof fn lemma_room_for_a_board(game: GameState)
    requires
        game.score + HEIGHT <= u32::MAX,
    ensures
        game.has_room(),
{
    lemma_full_rows_bounds(
        stamped(game.board, game.piece.cells, game.piece.name.tag()),
        HEIGHT as int,
    );
}

/// A tick leaves a sound game sound, as long as the score has room for the
/// rows it clears.
pub proof fn lemma_tick_keeps_wf(game: GameState, next: Name)
    requires
        game.wf(),
        game.has_room(),
    ensures
        game.after_tick(next).wf(),
{
    let filled = stamped(game.board, game.piece.cells, game.piece.name.tag());
    lemma_move_keeps_shape(game.piece, Move::Down);
    lemma_surviving_len(filled, HEIGHT as int);
    lemma_spawn_is_placed(next);
    let rows = full_rows(filled, HEIGHT as int);
    assert(rows * game.step >= 0) by (nonlinear_arith)
        requires
            rows >= 0,
            game.step >= 0,
    ;
}

/// An event leaves a sound game sound, as long as the score has room for
/// the rows that a tick it brings clears.
pub proof fn lemma_event_keeps_wf(game: GameState, event: Event, next: Name)
    requires
        game.wf(),
        game.tick_due(event) ==> game.has_room(),
    ensures
        game.after_event(event, next).wf(),
{
    match event {
        Event::Pressed(key) => lemma_command_keeps_wf(game, Command::of_key(key)),
        Event::Waited(elapsed) => {
            if elapsed >= game.interval {
                lemma_tick_keeps_wf(game, next);
            }
        },
    }
}

/// A step to the left and then one to the right, both let through, leave
/// the game as it was; and so do a step to the right and then one to the
/// left.
pub proof fn lemma_left_right_restores(game: GameState)
    ensures
        game.allows(Move::Left) && game.attempt(Move::Left).allows(Move::Right) ==> game.attempt(
            Move::Left,
        ).attempt(Move::Right) == game,
        game.allows(Move::Right) && game.attempt(Move::Right).allows(Move::Left) ==> game.attempt(
            Move::Right,
        ).attempt(Move::Left) == game,
{
    lemma_left_right_inverse(game.piece);
}

/// Against the left wall the command to move left changes nothing, however
/// often it is given; against the right wall the command to move right
/// changes nothing.
pub proof fn lemma_wall_holds(game: GameState)
    requires
        game.wf(),
    ensures
        touches_left(game.piece.cells) ==> game.after_command(Command::MoveLeft) == game,
        touches_right(game.piece.cells) ==> game.after_command(Command::MoveRight) == game,
{
    if touches_left(game.piece.cells) {
        lemma_left_wall_blocks(game.board, game.piece);
    }
    if touches_right(game.piece.cells) {
        lemma_right_wall_blocks(game.board, game.piece);
    }
}

/// When the piece comes to rest and fills exactly one row, that row alone
/// is cleared: the rows above it come down by one, the top row is empty,
/// the score grows by one, and the time between ticks is shortened by one
/// step, which is the whole step wherever that does not reach below the
/// floor.
pub proof fn lemma_settle_single_row(game: GameState, next: Name, row: int)
    requires
        game.wf(),
        sole_full_row(stamped(game.board, game.piece.cells, game.piece.name.tag()), row),
    ensures
        game.settled(next).board == collapsed(
            stamped(game.board, game.piece.cells, game.piece.name.tag()),
            row,
        ),
        game.settled(next).score == game.score + 1,
        game.settled(next).interval == faster(game.interval, game.step, game.floor, 1),
        game.interval >= game.floor + game.step ==> game.settled(next).interval == game.interval
            - game.step,
{
    lemma_clear_single_row(stamped(game.board, game.piece.cells, game.piece.name.tag()), row);
}

/// When the piece comes to rest and fills exactly two rows, one on top of
/// the other, both are cleared at once: the rows above them come down by
/// two and the score grows by two.
pub proof fn lemma_settle_two_rows(game: GameState, next: Name, row: int)
    requires
        game.wf(),
        sole_full_pair(stamped(game.board, game.piece.cells, game.piece.name.tag()), row),
    ensures
        game.settled(next).board == collapsed(
            collapsed(stamped(game.board, game.piece.cells, game.piece.name.tag()), row),
            row,
        ),
        game.settled(next).score == game.score + 2,
        game.settled(next).interval == faster(game.interval, game.step, game.floor, 2),
        game.interval >= game.floor + 2 * game.step ==> game.settled(next).interval
            == game.interval - 2 * game.step,
{
    lemma_clear_two_rows(stamped(game.board, game.piece.cells, game.piece.name.tag()), row);
}

/// A tick on a running game whose board has the band that ends the game
/// taken ends the game with the score as it stands: nothing is frozen,
/// nothing is cleared, and no piece appears. The same holds when the piece
/// comes to rest and the band is taken after the rows were cleared.
pub proof fn lemma_taken_zone_ends_game(game: GameState, next: Name)
    requires
        game.wf(),
        game.phase == Phase::Falling,
    ensures
        zone_occupied(game.board) ==> game.after_tick(next) == (GameState {
            phase: Phase::GameOver,
            ..game
        }) && game.after_tick(next).outcome() == (Outcome::GameOver { score: game.score as u32 }),
        zone_occupied(game.settled(next).board) ==> game.settled(next).piece == game.piece
            && game.settled(next).outcome() == (Outcome::GameOver {
            score: game.settled(next).score as u32,
        }),
        game.after_tick(next).phase == Phase::GameOver ==> game.after_tick(next).piece
            == game.piece,
{
}

/// A game that is over changes no more, whatever is asked of it.
pub proof fn lemma_over_is_final(game: GameState, command: Command, next: Name)
    requires
        game.phase != Phase::Falling,
    ensures
        game.after_command(command) == game,
        game.after_tick(next) == game,
{
}

} // verus!
