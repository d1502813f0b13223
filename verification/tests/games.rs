use tetris::board::Board;
use tetris::builder::GameBuilder;
use tetris::cell::{Cell, Name};
use tetris::game::{
    speed_up, Command, Event, Game, Key, Move, Outcome, Phase, Reaction, DEFAULT_FLOOR,
    DEFAULT_SPEED, DEFAULT_STEP,
};
use tetris::tetromino::Tetromino;

const KINDS: [Name; 7] = [Name::T, Name::I, Name::S, Name::Z, Name::O, Name::L, Name::J];

fn game_with(first: Name) -> Game {
    GameBuilder::new_default_game().with_first_piece(first).finish()
}

fn occupied(board: &Board) -> Vec<u8> {
    let mut taken = Vec::new();
    for pos in 0..210u8 {
        if board.get(pos) != Cell::Empty {
            taken.push(pos);
        }
    }
    taken
}

fn send(game: &mut Game, command: Command, times: usize) {
    for _ in 0..times {
        assert_eq!(game.take_one_direction(command), Outcome::Running);
    }
}

/// Ticks until the piece has come to rest.
fn land(game: &mut Game, next: Name) -> Outcome {
    loop {
        let before = game.tetromino().coordinates;
        let outcome = game.tick_with(next);
        if outcome != Outcome::Running {
            return outcome;
        }
        if game.tetromino().coordinates[0] != before[0].wrapping_sub(10) {
            return outcome;
        }
    }
}

fn rows(piece: &Tetromino) -> [u8; 4] {
    let c = piece.coordinates;
    [c[0] / 10, c[1] / 10, c[2] / 10, c[3] / 10]
}

fn columns(piece: &Tetromino) -> [u8; 4] {
    let c = piece.coordinates;
    [c[0] % 10, c[1] % 10, c[2] % 10, c[3] % 10]
}

#[test]
fn the_usual_pace_is_eight_hundred_less_ten_a_row_down_to_ten() {
    assert_eq!(DEFAULT_SPEED, 800);
    assert_eq!(DEFAULT_STEP, 10);
    assert_eq!(DEFAULT_FLOOR, 10);
}

#[test]
fn a_new_game_is_empty_and_running() {
    let game = Game::new(650);
    assert_eq!(game.score(), 0);
    assert_eq!(game.tick_interval(), 650);
    assert_eq!(game.phase(), Phase::Falling);
    assert_eq!(game.outcome(), Outcome::Running);
    assert!(occupied(game.stack()).is_empty());
    assert!(!game.check_for_game_over());
    let piece = game.tetromino();
    assert_eq!(piece.coordinates, Tetromino::create(piece.name).coordinates);
    assert_eq!(piece.spin, 0);
}

#[test]
fn the_builder_starts_with_the_usual_settings() {
    let game = GameBuilder::new_default_game().finish();
    assert_eq!(game.tick_interval(), 800);
    assert_eq!(game.score(), 0);
    assert_eq!(game.outcome(), Outcome::Running);
    assert!(occupied(game.stack()).is_empty());
    let piece = game.tetromino();
    assert_eq!(piece.coordinates, Tetromino::create(piece.name).coordinates);
}

#[test]
fn the_builder_takes_a_speed_and_a_first_piece() {
    let game = GameBuilder::new_default_game()
        .with_initial_speed(1200)
        .with_first_piece(Name::Z)
        .finish();
    assert_eq!(game.tick_interval(), 1200);
    assert_eq!(game.tetromino().name, Name::Z);
    assert_eq!(game.tetromino().coordinates, [175, 176, 184, 185]);
    let other = GameBuilder::new_default_game()
        .with_first_piece(Name::J)
        .with_initial_speed(1)
        .finish();
    assert_eq!(other.tick_interval(), 1);
    assert_eq!(other.tetromino().name, Name::J);
}

#[test]
fn a_tick_is_due_once_the_interval_has_passed() {
    let game = GameBuilder::new_default_game().with_initial_speed(500).finish();
    assert!(!game.is_tick_due(0));
    assert!(!game.is_tick_due(499));
    assert!(game.is_tick_due(500));
    assert!(game.is_tick_due(u32::MAX));
}

#[test]
fn keys_stand_for_commands() {
    assert_eq!(Command::from_byte(b'i'), Command::Rotate);
    assert_eq!(Command::from_byte(b'j'), Command::MoveLeft);
    assert_eq!(Command::from_byte(b'k'), Command::MoveDown);
    assert_eq!(Command::from_byte(b'l'), Command::MoveRight);
    assert_eq!(Command::from_byte(b'q'), Command::Quit);
    assert_eq!(Command::from_byte(b'x'), Command::Idle);
    assert_eq!(Command::from_byte(b'I'), Command::Idle);
    assert_eq!(Command::from_byte(0), Command::Idle);
    assert_eq!(Command::from_byte(255), Command::Idle);
}

#[test]
fn terminal_keys_stand_for_commands() {
    assert_eq!(Command::from_key(Key::Left), Command::MoveLeft);
    assert_eq!(Command::from_key(Key::Right), Command::MoveRight);
    assert_eq!(Command::from_key(Key::Up), Command::Rotate);
    assert_eq!(Command::from_key(Key::Down), Command::MoveDown);
    assert_eq!(Command::from_key(Key::Char('i')), Command::Rotate);
    assert_eq!(Command::from_key(Key::Char('j')), Command::MoveLeft);
    assert_eq!(Command::from_key(Key::Char('k')), Command::MoveDown);
    assert_eq!(Command::from_key(Key::Char('l')), Command::MoveRight);
    assert_eq!(Command::from_key(Key::Char('q')), Command::Quit);
    assert_eq!(Command::from_key(Key::Char('Q')), Command::Idle);
    assert_eq!(Command::from_key(Key::Char(' ')), Command::Idle);
    assert_eq!(Command::from_key(Key::Other), Command::Idle);
    for byte in 0..=127u8 {
        assert_eq!(Command::from_key(Key::Char(byte as char)), Command::from_byte(byte));
    }
}

#[test]
fn commands_ask_steps_of_the_piece() {
    assert_eq!(Command::MoveLeft.direction(), Move::Left);
    assert_eq!(Command::MoveRight.direction(), Move::Right);
    assert_eq!(Command::MoveDown.direction(), Move::Down);
    assert_eq!(Command::Rotate.direction(), Move::Turn);
    assert_eq!(Command::Quit.direction(), Move::Stay);
    assert_eq!(Command::Idle.direction(), Move::Stay);
}

#[test]
fn commands_move_the_piece() {
    let mut game = game_with(Name::T);
    send(&mut game, Command::MoveLeft, 1);
    assert_eq!(game.tetromino().coordinates, [173, 174, 175, 184]);
    send(&mut game, Command::MoveRight, 2);
    assert_eq!(game.tetromino().coordinates, [175, 176, 177, 186]);
    send(&mut game, Command::MoveDown, 1);
    assert_eq!(game.tetromino().coordinates, [165, 166, 167, 176]);
    send(&mut game, Command::Rotate, 1);
    assert_eq!(game.tetromino().coordinates, [156, 166, 167, 176]);
    assert_eq!(game.tetromino().spin, 1);
    send(&mut game, Command::Idle, 3);
    assert_eq!(game.tetromino().coordinates, [156, 166, 167, 176]);
    assert_eq!(game.score(), 0);
    assert!(occupied(game.stack()).is_empty());
}

#[test]
fn keys_move_the_piece() {
    let mut game = game_with(Name::O);
    assert_eq!(game.take_directions(b'j'), Outcome::Running);
    assert_eq!(game.tetromino().coordinates, [173, 174, 184, 183]);
    assert_eq!(game.take_directions(b'l'), Outcome::Running);
    assert_eq!(game.take_directions(b'l'), Outcome::Running);
    assert_eq!(game.tetromino().coordinates, [175, 176, 186, 185]);
    assert_eq!(game.take_directions(b'k'), Outcome::Running);
    assert_eq!(game.tetromino().coordinates, [165, 166, 176, 175]);
    assert_eq!(game.take_directions(b'i'), Outcome::Running);
    assert_eq!(game.tetromino().coordinates, [165, 166, 176, 175]);
    assert_eq!(game.take_directions(b'?'), Outcome::Running);
    assert_eq!(game.tetromino().coordinates, [165, 166, 176, 175]);
    assert_eq!(game.take_directions(b'q'), Outcome::Quit { score: 0 });
}

#[test]
fn attempt_says_whether_the_piece_moved() {
    let mut game = game_with(Name::O);
    assert!(game.attempt(&Move::Left));
    assert!(game.attempt(&Move::Left));
    assert!(game.attempt(&Move::Left));
    assert!(game.attempt(&Move::Left));
    assert_eq!(game.tetromino().coordinates, [170, 171, 181, 180]);
    assert!(!game.attempt(&Move::Left));
    assert_eq!(game.tetromino().coordinates, [170, 171, 181, 180]);
    assert!(game.attempt(&Move::Stay));
    assert!(game.attempt(&Move::Turn));
    assert_eq!(game.tetromino().coordinates, [170, 171, 181, 180]);
}

#[test]
fn the_left_wall_holds_however_often_one_pushes() {
    let mut game = game_with(Name::O);
    send(&mut game, Command::MoveLeft, 4);
    assert_eq!(game.tetromino().coordinates, [170, 171, 181, 180]);
    for _ in 0..50 {
        assert_eq!(game.take_one_direction(Command::MoveLeft), Outcome::Running);
        assert_eq!(game.tetromino().coordinates, [170, 171, 181, 180]);
    }
    assert_eq!(game.score(), 0);
    assert!(occupied(game.stack()).is_empty());
}

#[test]
fn the_right_wall_holds_however_often_one_pushes() {
    let mut game = game_with(Name::O);
    send(&mut game, Command::MoveRight, 4);
    assert_eq!(game.tetromino().coordinates, [178, 179, 189, 188]);
    for _ in 0..50 {
        assert_eq!(game.take_one_direction(Command::MoveRight), Outcome::Running);
        assert_eq!(game.tetromino().coordinates, [178, 179, 189, 188]);
    }
}

#[test]
fn the_upright_i_stops_at_both_walls() {
    let mut game = game_with(Name::I);
    send(&mut game, Command::MoveLeft, 5);
    assert_eq!(game.tetromino().coordinates, [170, 180, 190, 200]);
    send(&mut game, Command::MoveLeft, 7);
    assert_eq!(game.tetromino().coordinates, [170, 180, 190, 200]);
    send(&mut game, Command::MoveRight, 9);
    assert_eq!(game.tetromino().coordinates, [179, 189, 199, 209]);
    send(&mut game, Command::MoveRight, 7);
    assert_eq!(game.tetromino().coordinates, [179, 189, 199, 209]);
}

#[test]
fn no_piece_in_any_state_goes_through_a_wall() {
    for name in KINDS {
        for turns in 0..name.cycle_length() {
            let mut game = game_with(name);
            send(&mut game, Command::MoveDown, 3);
            send(&mut game, Command::Rotate, turns as usize);
            let start = game.tetromino();
            for _ in 0..12 {
                let before = game.tetromino();
                game.take_one_direction(Command::MoveLeft);
                let after = game.tetromino();
                assert_eq!(rows(&after), rows(&start));
                if before.coordinates != after.coordinates {
                    for i in 0..4 {
                        assert_eq!(after.coordinates[i], before.coordinates[i] - 1);
                    }
                }
            }
            assert_eq!(*columns(&game.tetromino()).iter().min().unwrap(), 0);
            for _ in 0..12 {
                game.take_one_direction(Command::MoveRight);
                assert_eq!(rows(&game.tetromino()), rows(&start));
            }
            assert_eq!(*columns(&game.tetromino()).iter().max().unwrap(), 9);
            assert_eq!(game.tetromino().spin, start.spin);
        }
    }
}

#[test]
fn a_turn_that_would_reach_through_a_wall_is_not_made() {
    let mut game = game_with(Name::I);
    send(&mut game, Command::MoveLeft, 5);
    send(&mut game, Command::Rotate, 1);
    assert_eq!(game.tetromino().coordinates, [170, 180, 190, 200]);
    assert_eq!(game.tetromino().spin, 0);
    send(&mut game, Command::MoveRight, 1);
    send(&mut game, Command::Rotate, 1);
    assert_eq!(game.tetromino().coordinates, [180, 181, 182, 183]);
    assert_eq!(game.tetromino().spin, 1);
}

#[test]
fn a_turn_into_the_stack_is_not_made() {
    let mut game = game_with(Name::O);
    send(&mut game, Command::MoveRight, 1);
    assert_eq!(land(&mut game, Name::I), Outcome::Running);
    assert_eq!(occupied(game.stack()), vec![15, 16, 25, 26]);
    send(&mut game, Command::MoveDown, 14);
    assert_eq!(game.tetromino().coordinates, [35, 45, 55, 65]);
    send(&mut game, Command::MoveDown, 3);
    assert_eq!(game.tetromino().coordinates, [35, 45, 55, 65]);
    assert_eq!(occupied(game.stack()), vec![15, 16, 25, 26]);
    send(&mut game, Command::MoveLeft, 1);
    send(&mut game, Command::MoveDown, 2);
    assert_eq!(game.tetromino().coordinates, [14, 24, 34, 44]);
    send(&mut game, Command::Rotate, 1);
    assert_eq!(game.tetromino().coordinates, [14, 24, 34, 44]);
    assert_eq!(game.tetromino().spin, 0);
}

#[test]
fn left_then_right_leaves_the_game_as_it_was() {
    for name in KINDS {
        let mut game = game_with(name);
        send(&mut game, Command::MoveDown, 2);
        let before = game.tetromino();
        assert!(game.attempt(&Move::Left));
        assert!(game.attempt(&Move::Right));
        assert_eq!(game.tetromino().coordinates, before.coordinates);
        assert!(game.attempt(&Move::Right));
        assert!(game.attempt(&Move::Left));
        assert_eq!(game.tetromino().coordinates, before.coordinates);
        assert_eq!(game.tetromino().spin, before.spin);
    }
}

#[test]
fn quit_ends_the_game_with_the_score() {
    let mut game = game_with(Name::S);
    send(&mut game, Command::MoveLeft, 1);
    assert_eq!(game.take_one_direction(Command::Quit), Outcome::Quit { score: 0 });
    assert_eq!(game.phase(), Phase::Quit);
    assert_eq!(game.outcome(), Outcome::Quit { score: 0 });
    let piece = game.tetromino().coordinates;
    assert_eq!(game.take_one_direction(Command::MoveLeft), Outcome::Quit { score: 0 });
    assert_eq!(game.take_one_direction(Command::Rotate), Outcome::Quit { score: 0 });
    assert_eq!(game.tick_with(Name::T), Outcome::Quit { score: 0 });
    assert_eq!(game.tick(), Outcome::Quit { score: 0 });
    assert_eq!(game.tetromino().coordinates, piece);
    assert!(occupied(game.stack()).is_empty());
}

#[test]
fn a_tick_lets_the_piece_fall_one_row() {
    let mut game = game_with(Name::L);
    assert_eq!(game.tick_with(Name::T), Outcome::Running);
    assert_eq!(game.tetromino().coordinates, [174, 164, 184, 165]);
    assert_eq!(game.tick_with(Name::T), Outcome::Running);
    assert_eq!(game.tetromino().coordinates, [164, 154, 174, 155]);
    assert_eq!(game.tetromino().name, Name::L);
    assert!(occupied(game.stack()).is_empty());
}

#[test]
fn a_piece_on_the_floor_freezes_and_the_next_appears() {
    let mut game = game_with(Name::O);
    for _ in 0..16 {
        assert_eq!(game.tick_with(Name::T), Outcome::Running);
    }
    assert_eq!(game.tetromino().coordinates, [14, 15, 25, 24]);
    assert!(occupied(game.stack()).is_empty());
    assert_eq!(game.tick_with(Name::T), Outcome::Running);
    assert_eq!(occupied(game.stack()), vec![14, 15, 24, 25]);
    for pos in [14u8, 15, 24, 25] {
        assert_eq!(game.stack().get(pos), Cell::O);
    }
    assert_eq!(game.tetromino().name, Name::T);
    assert_eq!(game.tetromino().coordinates, [174, 175, 176, 185]);
    assert_eq!(game.tetromino().spin, 0);
    assert_eq!(game.score(), 0);
    assert_eq!(game.tick_interval(), 800);
}

#[test]
fn a_piece_comes_to_rest_on_the_stack() {
    let mut game = game_with(Name::O);
    assert_eq!(land(&mut game, Name::T), Outcome::Running);
    assert_eq!(land(&mut game, Name::I), Outcome::Running);
    assert_eq!(occupied(game.stack()), vec![14, 15, 24, 25, 34, 35, 36, 45]);
    assert_eq!(game.stack().get(34), Cell::T);
    assert_eq!(game.stack().get(45), Cell::T);
    assert_eq!(game.tetromino().name, Name::I);
}

#[test]
fn the_last_cell_of_one_row_clears_that_row_alone() {
    let mut game = game_with(Name::I);
    send(&mut game, Command::Rotate, 1);
    send(&mut game, Command::MoveLeft, 4);
    assert_eq!(game.tetromino().coordinates, [180, 181, 182, 183]);
    assert_eq!(land(&mut game, Name::I), Outcome::Running);
    send(&mut game, Command::Rotate, 1);
    assert_eq!(land(&mut game, Name::O), Outcome::Running);
    assert_eq!(occupied(game.stack()), vec![10, 11, 12, 13, 14, 15, 16, 17]);
    send(&mut game, Command::MoveRight, 4);
    assert_eq!(game.score(), 0);
    assert_eq!(game.tick_interval(), 800);
    assert_eq!(land(&mut game, Name::Z), Outcome::Running);
    assert_eq!(game.score(), 1);
    assert_eq!(game.tick_interval(), 790);
    assert_eq!(occupied(game.stack()), vec![18, 19]);
    assert_eq!(game.stack().get(18), Cell::O);
    assert_eq!(game.stack().get(19), Cell::O);
    assert_eq!(game.tetromino().name, Name::Z);
    assert_eq!(game.tetromino().coordinates, [175, 176, 184, 185]);
}

#[test]
fn two_full_rows_after_one_freeze_add_two_to_the_score() {
    let mut game = game_with(Name::O);
    send(&mut game, Command::MoveLeft, 4);
    assert_eq!(land(&mut game, Name::O), Outcome::Running);
    send(&mut game, Command::MoveLeft, 2);
    assert_eq!(land(&mut game, Name::O), Outcome::Running);
    assert_eq!(land(&mut game, Name::O), Outcome::Running);
    send(&mut game, Command::MoveRight, 2);
    assert_eq!(land(&mut game, Name::O), Outcome::Running);
    assert_eq!(game.score(), 0);
    assert_eq!(occupied(game.stack()).len(), 16);
    send(&mut game, Command::MoveRight, 4);
    assert_eq!(land(&mut game, Name::J), Outcome::Running);
    assert_eq!(game.score(), 2);
    assert_eq!(game.tick_interval(), 780);
    assert!(occupied(game.stack()).is_empty());
    assert_eq!(game.tetromino().name, Name::J);
}

#[test]
fn rows_above_the_cleared_ones_come_down() {
    let mut game = game_with(Name::O);
    send(&mut game, Command::MoveLeft, 4);
    assert_eq!(land(&mut game, Name::O), Outcome::Running);
    send(&mut game, Command::MoveLeft, 2);
    assert_eq!(land(&mut game, Name::O), Outcome::Running);
    assert_eq!(land(&mut game, Name::O), Outcome::Running);
    send(&mut game, Command::MoveRight, 2);
    assert_eq!(land(&mut game, Name::T), Outcome::Running);
    assert_eq!(land(&mut game, Name::O), Outcome::Running);
    assert_eq!(
        occupied(game.stack()),
        vec![10, 11, 12, 13, 14, 15, 16, 17, 20, 21, 22, 23, 24, 25, 26, 27, 34, 35, 36, 45]
    );
    assert_eq!(game.score(), 0);
    send(&mut game, Command::MoveRight, 4);
    assert_eq!(land(&mut game, Name::S), Outcome::Running);
    assert_eq!(game.score(), 2);
    assert_eq!(occupied(game.stack()), vec![14, 15, 16, 25]);
    assert_eq!(game.stack().get(14), Cell::T);
    assert_eq!(game.stack().get(25), Cell::T);
}

#[test]
fn the_pace_does_not_drop_below_the_floor() {
    let mut game = GameBuilder::new_default_game()
        .with_initial_speed(800)
        .with_speed_step(390)
        .with_speed_floor(100)
        .with_first_piece(Name::O)
        .finish();
    for shift in [(Command::MoveLeft, 4), (Command::MoveLeft, 2), (Command::Idle, 0)] {
        send(&mut game, shift.0, shift.1);
        assert_eq!(land(&mut game, Name::O), Outcome::Running);
    }
    send(&mut game, Command::MoveRight, 2);
    assert_eq!(land(&mut game, Name::O), Outcome::Running);
    send(&mut game, Command::MoveRight, 4);
    assert_eq!(land(&mut game, Name::O), Outcome::Running);
    assert_eq!(game.score(), 2);
    assert_eq!(game.tick_interval(), 100);
}

#[test]
fn the_pace_after_cleared_rows() {
    assert_eq!(speed_up(800, 10, 10, 0), 800);
    assert_eq!(speed_up(800, 10, 10, 1), 790);
    assert_eq!(speed_up(800, 10, 10, 2), 780);
    assert_eq!(speed_up(800, 10, 10, 4), 760);
    assert_eq!(speed_up(20, 10, 10, 1), 10);
    assert_eq!(speed_up(15, 10, 10, 1), 10);
    assert_eq!(speed_up(11, 10, 10, 1), 10);
    assert_eq!(speed_up(10, 10, 10, 1), 10);
    assert_eq!(speed_up(5, 10, 10, 3), 5);
    assert_eq!(speed_up(30, 10, 10, 21), 10);
    assert_eq!(speed_up(800, 0, 10, 4), 800);
    assert_eq!(speed_up(800, 100, 1, 7), 100);
    assert_eq!(speed_up(800, 100, 1, 8), 1);
    assert_eq!(speed_up(u32::MAX, u32::MAX, 1, 21), 1);
    assert_eq!(speed_up(u32::MAX, 1, 1, 21), u32::MAX - 21);
}

#[test]
fn clearing_a_board_without_full_rows_changes_nothing() {
    let mut game = game_with(Name::O);
    assert_eq!(land(&mut game, Name::O), Outcome::Running);
    assert_eq!(game.clear_full_rows(), 0);
    assert_eq!(game.score(), 0);
    assert_eq!(game.tick_interval(), 800);
    assert_eq!(occupied(game.stack()), vec![14, 15, 24, 25]);
}

#[test]
fn a_stack_that_reaches_the_zone_ends_the_game() {
    let mut game = game_with(Name::O);
    for _ in 0..8 {
        assert_eq!(land(&mut game, Name::O), Outcome::Running);
    }
    assert_eq!(occupied(game.stack()).len(), 32);
    assert!(!game.check_for_game_over());
    assert_eq!(game.tetromino().coordinates, [174, 175, 185, 184]);
    assert_eq!(game.tick_with(Name::T), Outcome::GameOver { score: 0 });
    assert_eq!(game.phase(), Phase::GameOver);
    assert!(game.check_for_game_over());
    assert_eq!(occupied(game.stack()).len(), 36);
    assert_eq!(game.stack().get(174), Cell::O);
    assert_eq!(game.tetromino().name, Name::O);
    assert_eq!(game.tetromino().coordinates, [174, 175, 185, 184]);
}

#[test]
fn a_game_that_is_over_stays_as_it_is() {
    let mut game = game_with(Name::O);
    for _ in 0..8 {
        land(&mut game, Name::O);
    }
    assert_eq!(game.tick_with(Name::T), Outcome::GameOver { score: 0 });
    let board = game.stack().cells;
    for _ in 0..5 {
        assert_eq!(game.tick_with(Name::I), Outcome::GameOver { score: 0 });
        assert_eq!(game.tick(), Outcome::GameOver { score: 0 });
        assert_eq!(game.take_one_direction(Command::MoveLeft), Outcome::GameOver { score: 0 });
        assert_eq!(game.take_one_direction(Command::Quit), Outcome::GameOver { score: 0 });
    }
    assert_eq!(game.stack().cells, board);
    assert_eq!(game.tetromino().coordinates, [174, 175, 185, 184]);
    assert_eq!(game.outcome(), Outcome::GameOver { score: 0 });
}

#[test]
fn the_game_ends_with_the_score_it_has() {
    let mut game = game_with(Name::O);
    for shift in [(Command::MoveLeft, 4), (Command::MoveLeft, 2), (Command::Idle, 0)] {
        send(&mut game, shift.0, shift.1);
        land(&mut game, Name::O);
    }
    send(&mut game, Command::MoveRight, 2);
    land(&mut game, Name::O);
    send(&mut game, Command::MoveRight, 4);
    land(&mut game, Name::O);
    assert_eq!(game.score(), 2);
    let mut outcome = Outcome::Running;
    let mut landed = 0;
    while outcome == Outcome::Running {
        outcome = land(&mut game, Name::O);
        landed += 1;
    }
    assert_eq!(landed, 9);
    assert_eq!(outcome, Outcome::GameOver { score: 2 });
    assert_eq!(game.score(), 2);
    assert_eq!(game.tick_interval(), 780);
}

#[test]
fn freezing_in_the_zone_ends_the_game_and_no_piece_appears() {
    for name in KINDS {
        let mut game = game_with(name);
        let fresh = game.tetromino().coordinates;
        game.freeze_and_next(Name::T);
        assert_eq!(game.phase(), Phase::GameOver);
        assert_eq!(game.outcome(), Outcome::GameOver { score: 0 });
        assert_eq!(game.tetromino().name, name);
        assert_eq!(game.tetromino().coordinates, fresh);
        let mut cells = fresh.to_vec();
        cells.sort();
        assert_eq!(occupied(game.stack()), cells);
        assert_eq!(game.tick_with(Name::I), Outcome::GameOver { score: 0 });
        assert_eq!(game.tetromino().coordinates, fresh);
    }
}

#[test]
fn freezing_below_the_zone_brings_the_next_piece() {
    let mut game = game_with(Name::S);
    send(&mut game, Command::MoveDown, 4);
    game.freeze_and_next(Name::L);
    assert_eq!(game.phase(), Phase::Falling);
    assert_eq!(occupied(game.stack()), vec![134, 135, 145, 146]);
    assert_eq!(game.stack().get(134), Cell::S);
    assert_eq!(game.tetromino().name, Name::L);
    assert_eq!(game.tetromino().coordinates, [184, 174, 194, 175]);
}

#[test]
fn the_next_move_is_worked_out_without_making_it() {
    let game = game_with(Name::T);
    let next = game.compute_the_next_move(&Move::Down).unwrap();
    assert_eq!(next.coordinates, [164, 165, 166, 175]);
    assert!(game.check_for_collisions(&next, &Move::Down));
    assert_eq!(game.tetromino().coordinates, [174, 175, 176, 185]);
    let turned = game.compute_the_next_move(&Move::Turn).unwrap();
    assert_eq!(turned.coordinates, [165, 175, 176, 185]);
    assert_eq!(turned.spin, 1);
    let off = Tetromino { coordinates: [4, 5, 6, 15], name: Name::T, spin: 0 };
    assert!(!game.check_for_collisions(&off, &Move::Down));
}

#[test]
fn the_picture_shows_the_stack_and_the_piece() {
    let mut game = game_with(Name::O);
    assert_eq!(land(&mut game, Name::T), Outcome::Running);
    send(&mut game, Command::MoveDown, 2);
    let picture = game.display_the_board();
    assert_eq!(occupied(&picture), vec![14, 15, 24, 25, 154, 155, 156, 165]);
    assert_eq!(picture.get(14), Cell::O);
    assert_eq!(picture.get(154), Cell::T);
    assert_eq!(picture.get(165), Cell::T);
    assert_eq!(occupied(game.stack()), vec![14, 15, 24, 25]);
    assert_eq!(game.tetromino().coordinates, [154, 155, 156, 165]);
}

#[test]
fn a_game_of_random_pieces_left_alone_ends() {
    let mut game = Game::new(800);
    let mut ticks = 0;
    let mut outcome = Outcome::Running;
    while outcome == Outcome::Running {
        let before = game.tetromino();
        outcome = game.tick();
        let after = game.tetromino();
        if after.coordinates != [
            before.coordinates[0].wrapping_sub(10),
            before.coordinates[1].wrapping_sub(10),
            before.coordinates[2].wrapping_sub(10),
            before.coordinates[3].wrapping_sub(10),
        ] && outcome == Outcome::Running {
            assert_eq!(after.coordinates, Tetromino::create(after.name).coordinates);
            assert_eq!(after.spin, 0);
        }
        ticks += 1;
        assert!(ticks < 10_000);
    }
    assert_eq!(outcome, Outcome::GameOver { score: 0 });
    assert!(game.check_for_game_over());
}

#[test]
fn an_event_brings_a_command_or_a_tick_never_both() {
    let mut game = game_with(Name::T);
    let running = Reaction { outcome: Outcome::Running, ticked: false };
    assert_eq!(game.react_with(Event::Waited(0), Name::O), running);
    assert_eq!(game.react_with(Event::Waited(799), Name::O), running);
    assert_eq!(game.tetromino().coordinates, [174, 175, 176, 185]);
    assert_eq!(
        game.react_with(Event::Waited(800), Name::O),
        Reaction { outcome: Outcome::Running, ticked: true }
    );
    assert_eq!(game.tetromino().coordinates, [164, 165, 166, 175]);
    assert_eq!(game.react_with(Event::Pressed(Key::Left), Name::O), running);
    assert_eq!(game.tetromino().coordinates, [163, 164, 165, 174]);
    assert_eq!(game.react_with(Event::Pressed(Key::Up), Name::O), running);
    assert_eq!(game.tetromino().coordinates, [154, 164, 165, 174]);
    assert_eq!(game.react_with(Event::Pressed(Key::Char('l')), Name::O), running);
    assert_eq!(game.tetromino().coordinates, [155, 165, 166, 175]);
    assert_eq!(game.react_with(Event::Pressed(Key::Other), Name::O), running);
    assert_eq!(game.tetromino().coordinates, [155, 165, 166, 175]);
    assert_eq!(
        game.react_with(Event::Waited(u32::MAX), Name::O),
        Reaction { outcome: Outcome::Running, ticked: true }
    );
    assert_eq!(game.tetromino().coordinates, [145, 155, 156, 165]);
    assert_eq!(
        game.react_with(Event::Pressed(Key::Char('q')), Name::O),
        Reaction { outcome: Outcome::Quit { score: 0 }, ticked: false }
    );
    assert_eq!(
        game.react_with(Event::Waited(5000), Name::O),
        Reaction { outcome: Outcome::Quit { score: 0 }, ticked: true }
    );
    assert_eq!(game.tetromino().coordinates, [145, 155, 156, 165]);
}

#[test]
fn events_with_random_pieces_play_to_the_end() {
    let mut game = GameBuilder::new_default_game().with_initial_speed(40).finish();
    let mut events = 0;
    loop {
        let event = if events % 3 == 0 { Event::Waited(39) } else { Event::Waited(40) };
        let reaction = game.react(event);
        assert_eq!(reaction.ticked, events % 3 != 0);
        assert_eq!(reaction.outcome, game.outcome());
        events += 1;
        assert!(events < 30_000);
        if reaction.outcome != Outcome::Running {
            assert_eq!(reaction.outcome, Outcome::GameOver { score: 0 });
            break;
        }
    }
    assert_eq!(game.tick_interval(), 40);
}
