//! Setting up a game step by step.

use vstd::prelude::*;
use crate::cell::Name;
use crate::game::{Game, GameState, DEFAULT_FLOOR, DEFAULT_SPEED, DEFAULT_STEP};
use crate::tetromino::{lemma_spawn_is_placed, Tetromino};

verus! {

/// The settings of a game that has not begun.
#[derive(Debug, Clone, Copy)]
pub struct GameBuilder {
    speed: u32,
    step: u32,
    floor: u32,
    first: Name,
}

impl View for GameBuilder {
    type V = GameState;

    /// The game these settings stand for.
    closed spec fn view(&self) -> GameState {
        GameState::begin(self.first, self.speed as int, self.step as int, self.floor as int)
    }
}

impl GameBuilder {
    /// The usual settings, with a first piece of a kind drawn at random.
    pub fn new_default_game() -> (builder: GameBuilder)
        ensures
            builder@.wf(),
            builder@ == GameState::begin(
                builder@.piece.name,
                DEFAULT_SPEED as int,
                DEFAULT_STEP as int,
                DEFAULT_FLOOR as int,
            ),
    {
        let first = Tetromino::randow_new().name;
        proof {
            lemma_spawn_is_placed(first);
        }
        GameBuilder { speed: DEFAULT_SPEED, step: DEFAULT_STEP, floor: DEFAULT_FLOOR, first }
    }

    /// Sets the milliseconds between two gravity ticks at the start.
    pub fn with_initial_speed(self, tick: u32) -> (builder: GameBuilder)
        requires
            self@.wf(),
            tick >= 1,
        ensures
            builder@ == (GameState { interval: tick as int, ..self@ }),
            builder@.wf(),
    {
        GameBuilder { speed: tick, step: self.step, floor: self.floor, first: self.first }
    }

    /// Sets the milliseconds by which a cleared row shortens the time
    /// between ticks.
    pub fn with_speed_step(self, step: u32) -> (builder: GameBuilder)
        requires
            self@.wf(),
        ensures
            builder@ == (GameState { step: step as int, ..self@ }),
            builder@.wf(),
    {
        GameBuilder { speed: self.speed, step, floor: self.floor, first: self.first }
    }

    /// Sets the milliseconds below which clearing rows does not shorten the
    /// time between ticks.
    pub fn with_speed_floor(self, floor: u32) -> (builder: GameBuilder)
        requires
            self@.wf(),
            floor >= 1,
        ensures
            builder@ == (GameState { floor: floor as int, ..self@ }),
            builder@.wf(),
    {
        GameBuilder { speed: self.speed, step: self.step, floor, first: self.first }
    }

    /// Sets the kind of the first piece.
    pub fn with_first_piece(self, first: Name) -> (builder: GameBuilder)
        requires
            self@.wf(),
        ensures
            builder@ == GameState::begin(first, self@.interval, self@.step, self@.floor),
            builder@.wf(),
    {
        proof {
            lemma_spawn_is_placed(first);
        }
        GameBuilder { speed: self.speed, step: self.step, floor: self.floor, first }
    }

    /// The game that these settings stand for.
    pub fn finish(self) -> (game: Game)
        requires
            self@.wf(),
        ensures
            game@ == self@,
            game@.wf(),
    {
        Game::assemble(Tetromino::create(self.first), self.speed, self.step, self.floor)
    }
}

} // verus!
