use std::collections::HashSet;

use tet_rs::engine::{DropResult, Engine};
use tet_rs::engine::generator::{BagGenerator, TetrominoGenerator};
use tet_rs::engine::CurrentPiece;
use tet_rs::piece::{Rotation, Tetromino};
use tet_rs::playfield::{Playfield, Space};

enum SingleTetrominoGenerator {
    I,
    S,
    T,
}

/// Always generate the same tetromino.
impl TetrominoGenerator for SingleTetrominoGenerator {
    fn next(&mut self) -> Tetromino {
        match self {
            SingleTetrominoGenerator::I => Tetromino::I,
            SingleTetrominoGenerator::S => Tetromino::S,
            SingleTetrominoGenerator::T => Tetromino::T,
        }
    }
}

fn set(engine: &mut Engine, row: u8, col: u8) {
    let mut playfield = engine.get_playfield();
    playfield.set(row, col);
    engine.set_playfield(playfield);
}

#[test]
fn engine_test_engine_new() {
    let engine = Engine::new();

    // Playfield should start empty.
    for row in 1..=Playfield::TOTAL_HEIGHT {
        for col in 1..=Playfield::WIDTH {
            assert_eq!(engine.get_playfield().get(row, col), Space::Empty);
        }
    }

    // Current piece should be in spawn rotation.
    assert_eq!(engine.get_current_piece().piece.get_rotation(), &Rotation::Spawn);
}

#[test]
fn engine_test_current_piece_new() {
    assert_current_piece_new(CurrentPiece::new(Tetromino::I), Tetromino::I);
    assert_current_piece_new(CurrentPiece::new(Tetromino::O), Tetromino::O);
    assert_current_piece_new(CurrentPiece::new(Tetromino::T), Tetromino::T);
    assert_current_piece_new(CurrentPiece::new(Tetromino::S), Tetromino::S);
    assert_current_piece_new(CurrentPiece::new(Tetromino::Z), Tetromino::Z);
    assert_current_piece_new(CurrentPiece::new(Tetromino::J), Tetromino::J);
    assert_current_piece_new(CurrentPiece::new(Tetromino::L), Tetromino::L);
}

fn assert_current_piece_new(piece: CurrentPiece, expected_shape: Tetromino) {
    assert_eq!(piece.piece.get_rotation(), &Rotation::Spawn);
    assert_eq!(piece.piece.get_shape(), &expected_shape);
    assert_eq!(piece.row, 19);
    assert_eq!(piece.col, 4);
}

#[test]
fn engine_test_engine_next_piece() {
    let mut engine = Engine::new();

    for _ in 0..10 {
        let mut piece = engine.get_current_piece().piece;
        assert_eq!(piece.get_rotation(), &Rotation::Spawn);
        // Rotate the piece and verify that next piece is in spawn rotation on next iteration.
        piece.rotate_cw();

        engine.next_piece()
    }
}

#[test]
fn engine_test_engine_has_collision() {
    let mut engine = Engine::new();
    assert!(!engine.has_collision());

    // The spawn location should always overlap with this space.
    set(&mut engine, 21, 5);
    assert!(engine.has_collision());
}

#[test]
fn engine_test_engine_drop() {
    let mut engine = Engine::new();
    let start_row = engine.get_current_piece().row;

    engine.drop_one();
    assert_eq!(engine.get_current_piece().row, start_row - 1);
    engine.drop_one();
    assert_eq!(engine.get_current_piece().row, start_row - 2);
    engine.drop_one();
    assert_eq!(engine.get_current_piece().row, start_row - 3);
    engine.drop_one();
    assert_eq!(engine.get_current_piece().row, start_row - 4);
    engine.drop_one();
    assert_eq!(engine.get_current_piece().row, start_row - 5);
    engine.drop(2);
    assert_eq!(engine.get_current_piece().row, start_row - 7);
    engine.drop(4);
    assert_eq!(engine.get_current_piece().row, start_row - 11);
}

#[test]
fn engine_test_engine_drop_collision() {
    let mut engine = Engine::new();
    let start_row = engine.get_current_piece().row;

    // Bottom of tetromino should start just above visible playfield, so we should be able to
    // drop the entire height of the playfield.
    for drop in 1..=Playfield::VISIBLE_HEIGHT as i8 {
        engine.drop_one();
        assert_eq!(engine.get_current_piece().row, start_row - drop);
    }

    // The tetromino should be at the bottom of the playfield
    // so dropping again should have no effect.
    engine.drop_one();
    assert_eq!(
        engine.get_current_piece().row,
        start_row - Playfield::VISIBLE_HEIGHT as i8
    );
    engine.drop_one();
    assert_eq!(
        engine.get_current_piece().row,
        start_row - Playfield::VISIBLE_HEIGHT as i8
    );

    // Perform same test with drop().
    engine.next_piece();
    engine.drop(25);
    assert_eq!(
        engine.get_current_piece().row,
        start_row - Playfield::VISIBLE_HEIGHT as i8
    );

    // Add an obstacle, then test that piece cannot drop past it.
    engine.next_piece();
    set(&mut engine, 15, 5);

    // We should be able to drop 5 rows before hitting the obstacle.
    for drop in 1..=5 {
        engine.drop_one();
        assert_eq!(engine.get_current_piece().row, start_row - drop);
    }
    // Futher attempts to drop will fail since it would collide with the obstacle.
    engine.drop_one();
    assert_eq!(engine.get_current_piece().row, start_row - 5);
    engine.drop(4);
    assert_eq!(engine.get_current_piece().row, start_row - 5);

    // Perform same test with drop().
    engine.next_piece();
    engine.drop(10);
    assert_eq!(engine.get_current_piece().row, start_row - 5);
}

#[test]
fn engine_test_engine_lock() {
    let mut engine = Engine::with_tetromino_generator(Box::new(SingleTetrominoGenerator::S));

    // Drop and lock three S tetrominos in spawn position, far left, and far right.
    // Check before and after locking that expected pieces are empty/occupied.
    // -##-##--##
    // ##-##--##-
    // 1234567890

    // Spawn position.
    engine.next_piece();
    engine.drop(Playfield::VISIBLE_HEIGHT);
    assert_eq!(engine.get_playfield().get(1, 4), Space::Empty);
    assert_eq!(engine.get_playfield().get(1, 5), Space::Empty);
    engine.lock();
    assert_eq!(engine.get_playfield().get(1, 4), Space::Block);
    assert_eq!(engine.get_playfield().get(1, 5), Space::Block);

    // Far left.
    engine.next_piece();
    engine.move_piece(-10);
    engine.drop(Playfield::VISIBLE_HEIGHT);
    assert_eq!(engine.get_playfield().get(1, 1), Space::Empty);
    assert_eq!(engine.get_playfield().get(1, 2), Space::Empty);
    engine.lock();
    assert_eq!(engine.get_playfield().get(1, 1), Space::Block);
    assert_eq!(engine.get_playfield().get(1, 2), Space::Block);

    // Far right.
    engine.next_piece();
    engine.move_piece(10);
    engine.drop(Playfield::VISIBLE_HEIGHT);
    assert_eq!(engine.get_playfield().get(1, 8), Space::Empty);
    assert_eq!(engine.get_playfield().get(1, 9), Space::Empty);
    engine.lock();
    assert_eq!(engine.get_playfield().get(1, 8), Space::Block);
    assert_eq!(engine.get_playfield().get(1, 9), Space::Block);
}

#[test]
fn engine_test_clear_rows() {
    let mut engine = Engine::new();

    // Fill first, second, and fourth row.
    for col in 1..=Playfield::WIDTH {
        set(&mut engine, 1, col);
        set(&mut engine, 2, col);
        set(&mut engine, 4, col);
    }
    // Fill miscellaneous spaces in other rows.
    set(&mut engine, 3, 3);
    set(&mut engine, 3, 6);
    set(&mut engine, 5, 1);
    set(&mut engine, 6, 4);
    set(&mut engine, 6, 10);
    set(&mut engine, 7, 2);
    set(&mut engine, 7, 5);
    set(&mut engine, 7, 7);
    set(&mut engine, 8, 9);

    // Playfield should now look like this (ignoring empty rows).
    // 8 --------#-
    // 7 -#--#-#---
    // 6 ---#-----#
    // 5 #---------
    // 4 ##########
    // 3 --#--#----
    // 2 ##########
    // 1 ##########
    //   1234567890

    engine.clear_rows();
    // Playfield should now look like this (ignoring empty rows).
    // 5 --------#-
    // 4 -#--#-#---
    // 3 ---#-----#
    // 2 #---------
    // 1 --#--#----
    //   1234567890
    assert_eq!(engine.get_playfield().get(1, 3), Space::Block);
    assert_eq!(engine.get_playfield().get(1, 6), Space::Block);
    assert_eq!(engine.get_playfield().get(2, 1), Space::Block);
    assert_eq!(engine.get_playfield().get(3, 4), Space::Block);
    assert_eq!(engine.get_playfield().get(3, 10), Space::Block);
    assert_eq!(engine.get_playfield().get(4, 2), Space::Block);
    assert_eq!(engine.get_playfield().get(4, 5), Space::Block);
    assert_eq!(engine.get_playfield().get(4, 7), Space::Block);
    assert_eq!(engine.get_playfield().get(5, 9), Space::Block);

    // Rows above should be empty.
    for row in 6..=8 {
        for col in 1..Playfield::WIDTH {
            assert_eq!(engine.get_playfield().get(row, col), Space::Empty);
        }
    }
}

#[test]
fn engine_test_engine_rotate_piece() {
    let mut engine = Engine::new();

    // Rotate clockwise.
    assert_eq!(engine.get_current_piece().piece.get_rotation(), &Rotation::Spawn);
    engine.rotate_piece_cw();
    assert_eq!(
        engine.get_current_piece().piece.get_rotation(),
        &Rotation::Clockwise
    );
    engine.rotate_piece_cw();
    assert_eq!(
        engine.get_current_piece().piece.get_rotation(),
        &Rotation::OneEighty
    );
    engine.rotate_piece_cw();
    assert_eq!(
        engine.get_current_piece().piece.get_rotation(),
        &Rotation::CounterClockwise
    );
    engine.rotate_piece_cw();
    assert_eq!(engine.get_current_piece().piece.get_rotation(), &Rotation::Spawn);

    // Rotate counter-clockwise.
    assert_eq!(engine.get_current_piece().piece.get_rotation(), &Rotation::Spawn);
    engine.rotate_piece_ccw();
    assert_eq!(
        engine.get_current_piece().piece.get_rotation(),
        &Rotation::CounterClockwise
    );
    engine.rotate_piece_ccw();
    assert_eq!(
        engine.get_current_piece().piece.get_rotation(),
        &Rotation::OneEighty
    );
    engine.rotate_piece_ccw();
    assert_eq!(
        engine.get_current_piece().piece.get_rotation(),
        &Rotation::Clockwise
    );
    engine.rotate_piece_ccw();
    assert_eq!(engine.get_current_piece().piece.get_rotation(), &Rotation::Spawn);
}

#[test]
fn engine_test_engine_rotate_piece_collision() {
    let mut engine = Engine::with_tetromino_generator(Box::new(SingleTetrominoGenerator::I));
    engine.next_piece();

    // Surround above and below to prevent rotation.
    for col in 4..=7 {
        set(&mut engine, 20, col);
        set(&mut engine, 22, col);
    }

    // attempt rotate
    engine.rotate_piece_cw();
    assert_eq!(engine.get_current_piece().piece.get_rotation(), &Rotation::Spawn);

    engine.rotate_piece_ccw();
    assert_eq!(engine.get_current_piece().piece.get_rotation(), &Rotation::Spawn);
}

#[test]
fn engine_test_engine_rotate_piece_wall_kick() {
    let mut engine = Engine::with_tetromino_generator(Box::new(SingleTetrominoGenerator::T));
    engine.next_piece();

    // Setup wall kick
    // T---------
    // TT#-------
    // T--#------
    set(&mut engine, 1, 4);
    set(&mut engine, 2, 3);
    engine.rotate_piece_cw();
    engine.move_piece(-10);
    engine.drop(Playfield::VISIBLE_HEIGHT);

    // Perform wall kick and lock into place.
    // ----------
    // -T#-------
    // TTT#------
    engine.rotate_piece_ccw();
    engine.lock();

    // Check that piece in expected position.
    assert_eq!(engine.get_playfield().get(1, 1), Space::Block);
    assert_eq!(engine.get_playfield().get(1, 2), Space::Block);
    assert_eq!(engine.get_playfield().get(1, 3), Space::Block);
    assert_eq!(engine.get_playfield().get(2, 2), Space::Block);
}

#[test]
fn engine_test_engine_move_piece() {
    let mut engine = Engine::new();

    // Test move left.
    let start_col = engine.get_current_piece().col;
    engine.move_piece(-1);
    assert_eq!(engine.get_current_piece().col, start_col - 1);
    engine.move_piece(-1);
    assert_eq!(engine.get_current_piece().col, start_col - 2);
    engine.move_piece(-1);
    assert_eq!(engine.get_current_piece().col, start_col - 3);

    // Spawn a new piece then test move right.
    let start_col = engine.get_current_piece().col;
    engine.move_piece(1);
    assert_eq!(engine.get_current_piece().col, start_col + 1);
    engine.move_piece(1);
    assert_eq!(engine.get_current_piece().col, start_col + 2);
    engine.move_piece(1);
    assert_eq!(engine.get_current_piece().col, start_col + 3);
}

#[test]
fn engine_test_engine_move_piece_collision() {
    let mut engine = Engine::new();

    // Spawn new piece then move to far left.
    engine.move_piece(-10);
    // Moving further left should have no effect.
    let far_left_col = engine.get_current_piece().col;
    engine.move_piece(-1);
    assert_eq!(engine.get_current_piece().col, far_left_col);
    engine.move_piece(-1);
    assert_eq!(engine.get_current_piece().col, far_left_col);

    // Spawn new piece then do same as above, but move right.
    engine.next_piece();
    engine.move_piece(10);
    let far_right_col = engine.get_current_piece().col;
    engine.move_piece(1);
    assert_eq!(engine.get_current_piece().col, far_right_col);
    engine.move_piece(1);
    assert_eq!(engine.get_current_piece().col, far_right_col);
}

#[test]
fn engine_test_engine_hold_piece() {
    let mut engine = Engine::new();

    assert!(engine.get_hold_piece().is_none());

    let current_piece = engine.get_current_piece().piece.get_shape().clone();
    engine.hold_piece();

    let hold_piece = engine.get_hold_piece().unwrap();
    assert_eq!(hold_piece, current_piece);
}

#[test]
fn engine_test_engine_next_pieces() {
    let mut engine = Engine::new();

    for _ in 0..10 {
        let next_piece = engine.get_next_pieces()[0];
        engine.next_piece();
        assert_eq!(engine.get_current_piece().piece.get_shape(), &next_piece);
    }
}

#[test]
fn engine_test_bag_generator() {
    let mut bag_generator = BagGenerator::new();

    // The bag generator should always generate tetrominos in sets containing one of each.
    for _ in 0..5 {
        let mut tetrominos = HashSet::new();
        for _ in 0..7 {
            tetrominos.insert(bag_generator.next());
        }
        assert_eq!(tetrominos.len(), 7);
    }
}

/// Hands out the given shapes over and over.
struct Cycle {
    shapes: Vec<Tetromino>,
    next: usize,
}

impl TetrominoGenerator for Cycle {
    fn next(&mut self) -> Tetromino {
        let shape = self.shapes[self.next % self.shapes.len()];
        self.next += 1;
        shape
    }
}

fn engine_of(shapes: &[Tetromino]) -> Engine {
    Engine::with_tetromino_generator(Box::new(Cycle { shapes: shapes.to_vec(), next: 0 }))
}

fn tick(engine: &mut Engine) {
    assert!(engine.is_ready());
    engine.tick();
}

fn blocks(playfield: &Playfield) -> Vec<(u8, u8)> {
    let mut blocks = Vec::new();
    for row in 1..=40 {
        for col in 1..=10 {
            if playfield.get(row, col) == Space::Block {
                blocks.push((row, col));
            }
        }
    }
    blocks
}

#[test]
fn test_plain_gravity() {
    let mut engine = engine_of(&[Tetromino::T]);
    // Forty ticks pass, and on the next one the piece falls by a row.
    for _ in 0..40 {
        tick(&mut engine);
        assert_eq!(engine.get_current_piece().row, 19);
    }
    tick(&mut engine);
    assert_eq!(engine.get_current_piece().row, 18);
    for _ in 0..40 {
        tick(&mut engine);
    }
    assert_eq!(engine.get_current_piece().row, 18);
    tick(&mut engine);
    assert_eq!(engine.get_current_piece().row, 17);
}

#[test]
fn test_plain_soft_drop() {
    let mut engine = engine_of(&[Tetromino::T]);
    let mut rows = Vec::new();
    for _ in 0..7 {
        engine.input_soft_drop();
        tick(&mut engine);
        rows.push(engine.get_current_piece().row);
    }
    assert_eq!(rows, vec![19, 19, 18, 18, 18, 17, 17]);
}

#[test]
fn test_plain_tick_moves_and_turns() {
    let mut engine = engine_of(&[Tetromino::L]);
    engine.input_move_left();
    engine.input_rotate_cw();
    tick(&mut engine);
    assert_eq!(engine.get_current_piece().col, 3);
    assert_eq!(engine.get_current_piece().piece.get_rotation(), &Rotation::Clockwise);
    // Held keys do not act again at once.
    engine.input_move_left();
    engine.input_rotate_cw();
    tick(&mut engine);
    assert_eq!(engine.get_current_piece().col, 3);
    assert_eq!(engine.get_current_piece().piece.get_rotation(), &Rotation::Clockwise);
    tick(&mut engine);
    engine.input_move_right();
    engine.input_move_left();
    engine.input_rotate_ccw();
    engine.input_rotate_cw();
    tick(&mut engine);
    assert_eq!(engine.get_current_piece().col, 2);
    assert_eq!(engine.get_current_piece().piece.get_rotation(), &Rotation::OneEighty);
}

#[test]
fn test_plain_hard_drop_locks_and_clears() {
    let mut engine = engine_of(&[Tetromino::I, Tetromino::O]);
    for col in [1, 2, 3, 8, 9, 10] {
        set(&mut engine, 1, col);
    }
    set(&mut engine, 2, 10);
    engine.input_hard_drop();
    tick(&mut engine);
    // The I has filled row 1, the row is gone, and the next piece is in play.
    assert_eq!(blocks(&engine.get_playfield()), vec![(1, 10)]);
    assert_eq!(engine.get_current_piece(), CurrentPiece::new(Tetromino::O));
}

#[test]
fn test_plain_piece_locks_where_it_lands() {
    let mut engine = engine_of(&[Tetromino::O, Tetromino::T]);
    engine.drop(40);
    assert_eq!(engine.get_current_piece().row, -1);
    for _ in 0..40 {
        tick(&mut engine);
        assert!(blocks(&engine.get_playfield()).is_empty());
    }
    tick(&mut engine);
    assert_eq!(blocks(&engine.get_playfield()), vec![(1, 5), (1, 6), (2, 5), (2, 6)]);
    assert_eq!(engine.get_current_piece(), CurrentPiece::new(Tetromino::T));
}

#[test]
fn test_plain_hold() {
    let mut engine = engine_of(&[Tetromino::S, Tetromino::Z, Tetromino::J]);
    engine.input_hold();
    engine.input_move_left();
    tick(&mut engine);
    assert_eq!(engine.get_hold_piece(), Some(Tetromino::S));
    assert_eq!(engine.get_current_piece(), CurrentPiece::new(Tetromino::Z));
    assert_eq!(
        engine.get_next_pieces(),
        vec![Tetromino::J, Tetromino::S, Tetromino::Z, Tetromino::J, Tetromino::S]
    );
    tick(&mut engine);
    // The hold slot is closed: a hold does nothing, and a hard drop beside it does nothing
    // either.
    engine.input_hold();
    engine.input_hard_drop();
    tick(&mut engine);
    assert_eq!(engine.get_hold_piece(), Some(Tetromino::S));
    assert_eq!(engine.get_current_piece(), CurrentPiece::new(Tetromino::Z));
    assert!(blocks(&engine.get_playfield()).is_empty());
    tick(&mut engine);
    // A hard drop alone locks the piece and opens the hold slot again.
    engine.input_hard_drop();
    tick(&mut engine);
    assert_eq!(engine.get_current_piece(), CurrentPiece::new(Tetromino::J));
    engine.input_hold();
    tick(&mut engine);
    assert_eq!(engine.get_hold_piece(), Some(Tetromino::J));
    assert_eq!(engine.get_current_piece(), CurrentPiece::new(Tetromino::S));
}

#[test]
fn test_plain_drop_result() {
    let mut engine = engine_of(&[Tetromino::T]);
    assert_eq!(engine.drop(5), DropResult::Success);
    assert_eq!(engine.drop_one(), DropResult::Success);
    assert_eq!(engine.drop(0), DropResult::Success);
    assert_eq!(engine.drop(14), DropResult::Success);
    assert_eq!(engine.get_current_piece().row, -1);
    assert_eq!(engine.drop_one(), DropResult::Collision);
    assert_eq!(engine.drop(3), DropResult::Collision);
    engine.next_piece();
    assert_eq!(engine.drop(21), DropResult::Collision);
    assert_eq!(engine.get_current_piece().row, -1);
}
