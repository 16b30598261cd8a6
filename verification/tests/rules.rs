use tet_rs::engine::collision::{
    collides_with, drop_piece, fits_in_playfield, has_collision_with_piece, is_in_lock_position,
    lock_piece, move_piece,
};
use tet_rs::engine::generator::{tetromino_at, BagGenerator, TetrominoGenerator};
use tet_rs::engine::gravity::Gravity::{RowsPerTick, TicksPerRow};
use tet_rs::engine::input::{process_input, Action, ActionSet, InputDurations};
use tet_rs::engine::kick::{check_rotation, find_rotation, rotate_piece, wall_kick_offsets};
use tet_rs::engine::rows::{clear_rows, contains_full_rows};
use tet_rs::engine::t_spin::{corner_offsets, detect_t_spin, TSpin, TSpinInternal};
use tet_rs::engine::CurrentPiece;
use tet_rs::piece::Rotation::{Clockwise, CounterClockwise, OneEighty, Spawn};
use tet_rs::piece::{Piece, Rotation, Tetromino};
use tet_rs::playfield::{Playfield, Space};

const SHAPES: [Tetromino; 7] = [
    Tetromino::I,
    Tetromino::O,
    Tetromino::T,
    Tetromino::S,
    Tetromino::Z,
    Tetromino::J,
    Tetromino::L,
];

fn piece_at(shape: Tetromino, rotation: Rotation, row: i8, col: i8) -> CurrentPiece {
    CurrentPiece { piece: Piece { shape, rotation }, row, col }
}

fn full_playfield() -> Playfield {
    let mut playfield = Playfield::new();
    for row in 1..=40 {
        for col in 1..=10 {
            playfield.set(row, col);
        }
    }
    playfield
}

#[test]
fn test_collision_with_walls_and_floor() {
    let playfield = Playfield::new();
    // The T in its spawn state has its flat side in row 2 of the box, columns 0 to 2.
    assert!(!has_collision_with_piece(&playfield, piece_at(Tetromino::T, Rotation::Spawn, -1, 1)));
    // One row lower the flat side is below the floor.
    assert!(has_collision_with_piece(&playfield, piece_at(Tetromino::T, Rotation::Spawn, -2, 1)));
    // One column to the left the flat side is behind the wall.
    assert!(has_collision_with_piece(&playfield, piece_at(Tetromino::T, Rotation::Spawn, -1, 0)));
    // At column 8 the flat side ends in column 10; at column 9 it is behind the wall.
    assert!(!has_collision_with_piece(&playfield, piece_at(Tetromino::T, Rotation::Spawn, -1, 8)));
    assert!(has_collision_with_piece(&playfield, piece_at(Tetromino::T, Rotation::Spawn, -1, 9)));
}

#[test]
fn test_collision_with_blocks() {
    let mut playfield = Playfield::new();
    playfield.set(22, 5);
    // Only the stem of the T is at (22, 5).
    assert!(has_collision_with_piece(&playfield, CurrentPiece::new(Tetromino::T)));
    assert!(!has_collision_with_piece(&playfield, CurrentPiece::new(Tetromino::I)));
}

#[test]
fn test_cells_above_the_ceiling_never_collide() {
    let playfield = full_playfield();
    // The I in its spawn state lies in row 2 of its box: at row 39 that is row 41.
    assert!(!has_collision_with_piece(&playfield, piece_at(Tetromino::I, Rotation::Spawn, 39, 4)));
    assert!(has_collision_with_piece(&playfield, piece_at(Tetromino::I, Rotation::Spawn, 38, 4)));
    // The walls go on above the ceiling.
    assert!(has_collision_with_piece(&playfield, piece_at(Tetromino::I, Rotation::Spawn, 39, 8)));
    assert!(has_collision_with_piece(&playfield, piece_at(Tetromino::I, Rotation::Spawn, 39, 0)));
    assert!(!collides_with(&playfield, Piece::new(Tetromino::I), 100, 7));
}

#[test]
fn test_drop_stops_in_front_of_the_first_collision() {
    let mut playfield = Playfield::new();
    playfield.set(15, 5);
    let mut piece = CurrentPiece::new(Tetromino::T);
    // The flat side is in row 21: it can fall to row 16.
    assert_eq!(drop_piece(&playfield, &mut piece, 40), 5);
    assert_eq!(piece, piece_at(Tetromino::T, Rotation::Spawn, 14, 4));
    assert!(!has_collision_with_piece(&playfield, piece));
    assert!(is_in_lock_position(&playfield, piece));
    assert_eq!(drop_piece(&playfield, &mut piece, 3), 0);
    assert_eq!(piece.row, 14);

    // A drop that ends before any collision goes as far as asked.
    let mut piece = CurrentPiece::new(Tetromino::T);
    assert_eq!(drop_piece(&playfield, &mut piece, 4), 4);
    assert_eq!(piece.row, 15);
    assert!(!is_in_lock_position(&playfield, piece));
    assert_eq!(drop_piece(&playfield, &mut piece, 0), 0);
    assert_eq!(piece.row, 15);
}

#[test]
fn test_drop_never_leaves_a_free_piece_colliding() {
    let mut playfield = Playfield::new();
    playfield.set(3, 2);
    playfield.set(7, 9);
    playfield.set(12, 5);
    for shape in SHAPES {
        for col in 1..=7 {
            for n_rows in [0u8, 1, 5, 19, 20, 21, 40, 255] {
                let mut piece = piece_at(shape, Rotation::Spawn, 19, col);
                let before = piece;
                let dropped = drop_piece(&playfield, &mut piece, n_rows);
                assert!(dropped <= n_rows);
                assert_eq!(piece.row, before.row - dropped as i8);
                assert!(!has_collision_with_piece(&playfield, piece));
                if dropped < n_rows {
                    assert!(is_in_lock_position(&playfield, piece));
                }
            }
        }
    }
}

#[test]
fn test_move_counts_the_columns_moved() {
    let playfield = Playfield::new();
    let mut piece = CurrentPiece::new(Tetromino::T);
    assert_eq!(move_piece(&playfield, &mut piece, -10), 3);
    assert_eq!(piece.col, 1);
    assert_eq!(move_piece(&playfield, &mut piece, -1), 0);
    assert_eq!(piece.col, 1);
    assert_eq!(move_piece(&playfield, &mut piece, 2), 2);
    assert_eq!(piece.col, 3);
    assert_eq!(move_piece(&playfield, &mut piece, 0), 0);
    assert_eq!(move_piece(&playfield, &mut piece, 127), 5);
    assert_eq!(piece.col, 8);
    assert_eq!(piece.row, 19);
}

#[test]
fn test_lock_writes_the_four_cells() {
    let mut playfield = Playfield::new();
    let piece = piece_at(Tetromino::L, Rotation::Clockwise, 0, 0);
    // The L turned clockwise: a column of three in column 1 of the box, and a foot to its right.
    assert!(fits_in_playfield(piece));
    lock_piece(&mut playfield, piece);
    let mut blocks = Vec::new();
    for row in 1..=40 {
        for col in 1..=10 {
            if playfield.get(row, col) == Space::Block {
                blocks.push((row, col));
            }
        }
    }
    assert_eq!(blocks, vec![(1, 1), (1, 2), (2, 1), (3, 1)]);
}

#[test]
fn test_fits_in_playfield() {
    assert!(fits_in_playfield(CurrentPiece::new(Tetromino::I)));
    assert!(fits_in_playfield(piece_at(Tetromino::I, Rotation::Spawn, 38, 1)));
    // Row 41 is above the playfield.
    assert!(!fits_in_playfield(piece_at(Tetromino::I, Rotation::Spawn, 39, 1)));
    assert!(!fits_in_playfield(piece_at(Tetromino::I, Rotation::Spawn, 10, 0)));
    assert!(!fits_in_playfield(piece_at(Tetromino::I, Rotation::Spawn, -2, 1)));
    assert!(fits_in_playfield(piece_at(Tetromino::I, Rotation::Spawn, -1, 7)));
    assert!(!fits_in_playfield(piece_at(Tetromino::I, Rotation::Spawn, -1, 8)));
}

#[test]
fn test_shared_kick_table() {
    for shape in [Tetromino::T, Tetromino::S, Tetromino::Z, Tetromino::J, Tetromino::L] {
        assert_eq!(wall_kick_offsets(shape, Spawn, Clockwise), [(-1, 0), (-1, 1), (0, -2), (-1, -2)]);
        assert_eq!(wall_kick_offsets(shape, Clockwise, Spawn), [(1, 0), (1, -1), (0, 2), (1, 2)]);
        assert_eq!(wall_kick_offsets(shape, Clockwise, OneEighty), [(1, 0), (1, -1), (0, 2), (1, 2)]);
        assert_eq!(
            wall_kick_offsets(shape, OneEighty, Clockwise),
            [(-1, 0), (-1, 1), (0, -2), (-1, -2)]
        );
        assert_eq!(
            wall_kick_offsets(shape, OneEighty, CounterClockwise),
            [(1, 0), (1, 1), (0, -2), (1, -2)]
        );
        assert_eq!(
            wall_kick_offsets(shape, CounterClockwise, OneEighty),
            [(-1, 0), (-1, -1), (0, 2), (-1, 2)]
        );
        assert_eq!(
            wall_kick_offsets(shape, CounterClockwise, Spawn),
            [(-1, 0), (-1, -1), (0, 2), (-1, 2)]
        );
        assert_eq!(wall_kick_offsets(shape, Spawn, CounterClockwise), [(1, 0), (1, 1), (0, -2), (1, -2)]);
    }
}

#[test]
fn test_i_kick_table() {
    let shape = Tetromino::I;
    assert_eq!(wall_kick_offsets(shape, Spawn, Clockwise), [(-2, 0), (1, 0), (-2, -1), (1, 2)]);
    assert_eq!(wall_kick_offsets(shape, Clockwise, Spawn), [(2, 0), (-1, 0), (2, 1), (-1, -2)]);
    assert_eq!(wall_kick_offsets(shape, Clockwise, OneEighty), [(-1, 0), (2, 0), (-1, 2), (2, -1)]);
    assert_eq!(wall_kick_offsets(shape, OneEighty, Clockwise), [(1, 0), (-2, 0), (1, -2), (-2, 1)]);
    assert_eq!(
        wall_kick_offsets(shape, OneEighty, CounterClockwise),
        [(2, 0), (-1, 0), (2, 1), (-1, -2)]
    );
    assert_eq!(
        wall_kick_offsets(shape, CounterClockwise, OneEighty),
        [(-2, 0), (1, 0), (-2, -1), (1, 2)]
    );
    assert_eq!(wall_kick_offsets(shape, CounterClockwise, Spawn), [(1, 0), (-2, 0), (1, -2), (-2, 1)]);
    assert_eq!(wall_kick_offsets(shape, Spawn, CounterClockwise), [(-1, 0), (2, 0), (-1, 2), (2, -1)]);
}

#[test]
fn test_rotation_in_place_has_offset_zero() {
    let playfield = Playfield::new();
    for shape in SHAPES {
        let piece = CurrentPiece::new(shape);
        assert_eq!(check_rotation(&playfield, piece, Rotation::Clockwise), Some((0, 0)));
        assert_eq!(check_rotation(&playfield, piece, Rotation::CounterClockwise), Some((0, 0)));
        assert_eq!(find_rotation(&playfield, piece, Rotation::Clockwise), Some(0));
    }
}

#[test]
fn test_second_kick_moves_by_its_offset() {
    // T---------
    // TT#-------
    // T--#------
    let mut playfield = Playfield::new();
    playfield.set(1, 4);
    playfield.set(2, 3);
    let mut piece = piece_at(Tetromino::T, Rotation::Clockwise, 0, 0);
    assert!(!has_collision_with_piece(&playfield, piece));
    // In place the flat side would reach behind the wall; one column to the right it would
    // hit (2, 3); one column to the right and one row down it fits.
    assert_eq!(check_rotation(&playfield, piece, Rotation::Spawn), Some((1, -1)));
    assert_eq!(rotate_piece(&playfield, &mut piece, Rotation::Spawn), Some(2));
    assert_eq!(piece, piece_at(Tetromino::T, Rotation::Spawn, -1, 1));
}

#[test]
fn test_first_kick_of_the_i() {
    let playfield = Playfield::new();
    // The I turned clockwise stands in column 2 of its box: at column -1 it is in column 1.
    let mut piece = piece_at(Tetromino::I, Rotation::Clockwise, 5, -1);
    assert!(!has_collision_with_piece(&playfield, piece));
    assert_eq!(check_rotation(&playfield, piece, Rotation::Spawn), Some((2, 0)));
    assert_eq!(rotate_piece(&playfield, &mut piece, Rotation::Spawn), Some(1));
    assert_eq!(piece, piece_at(Tetromino::I, Rotation::Spawn, 5, 1));

    // To the upside-down state the first kick goes the wrong way; the second one fits.
    let mut piece = piece_at(Tetromino::I, Rotation::Clockwise, 5, -1);
    assert_eq!(check_rotation(&playfield, piece, Rotation::OneEighty), Some((2, 0)));
    assert_eq!(rotate_piece(&playfield, &mut piece, Rotation::OneEighty), Some(2));
    assert_eq!(piece, piece_at(Tetromino::I, Rotation::OneEighty, 5, 1));
}

#[test]
fn test_last_kick() {
    // In place and under the first three kicks the T collides with (11, 6) or (13, 5).
    let mut playfield = Playfield::new();
    playfield.set(11, 6);
    playfield.set(13, 5);
    let mut piece = piece_at(Tetromino::T, Spawn, 10, 5);
    assert!(!has_collision_with_piece(&playfield, piece));
    assert_eq!(find_rotation(&playfield, piece, Clockwise), Some(4));
    assert_eq!(check_rotation(&playfield, piece, Clockwise), Some((-1, -2)));
    assert_eq!(rotate_piece(&playfield, &mut piece, Clockwise), Some(4));
    assert_eq!(piece, piece_at(Tetromino::T, Clockwise, 8, 4));
    assert!(!has_collision_with_piece(&playfield, piece));

    // The third kick, where (11, 6) is free but the piece cannot turn in place.
    let mut playfield = Playfield::new();
    playfield.set(13, 6);
    playfield.set(13, 5);
    let piece = piece_at(Tetromino::T, OneEighty, 10, 5);
    assert!(!has_collision_with_piece(&playfield, piece));
    assert_eq!(check_rotation(&playfield, piece, Clockwise), Some((0, -2)));
}

#[test]
fn test_rotation_that_fits_nowhere_changes_nothing() {
    let mut playfield = full_playfield();
    let mut piece = CurrentPiece::new(Tetromino::T);
    for (row, col) in [(21, 4), (21, 5), (21, 6), (22, 5)] {
        playfield.clear(row, col);
    }
    assert!(!has_collision_with_piece(&playfield, piece));
    assert_eq!(check_rotation(&playfield, piece, Rotation::Clockwise), None);
    assert_eq!(check_rotation(&playfield, piece, Rotation::CounterClockwise), None);
    assert_eq!(rotate_piece(&playfield, &mut piece, Rotation::Clockwise), None);
    assert_eq!(piece, CurrentPiece::new(Tetromino::T));
}

#[test]
fn test_square_never_kicks() {
    let mut playfield = full_playfield();
    for (row, col) in [(21, 5), (21, 6), (22, 5), (22, 6)] {
        playfield.clear(row, col);
    }
    let mut piece = CurrentPiece::new(Tetromino::O);
    let mut rotation = Rotation::Spawn;
    for _ in 0..4 {
        rotation = rotation.cw();
        assert_eq!(check_rotation(&playfield, piece, rotation), Some((0, 0)));
        assert_eq!(rotate_piece(&playfield, &mut piece, rotation), Some(0));
        assert_eq!(piece, piece_at(Tetromino::O, rotation, 19, 4));
    }
    // Where the square collides as it is, it does not turn, and no kick moves it away.
    let open_below = {
        let mut playfield = Playfield::new();
        playfield.set(21, 5);
        playfield
    };
    let mut piece = CurrentPiece::new(Tetromino::O);
    assert_eq!(check_rotation(&open_below, piece, Rotation::Clockwise), None);
    assert_eq!(rotate_piece(&open_below, &mut piece, Rotation::Clockwise), None);
    assert_eq!(piece, CurrentPiece::new(Tetromino::O));
}

#[test]
fn test_clear_rows_without_full_rows() {
    let mut playfield = Playfield::new();
    playfield.set(1, 1);
    playfield.set(3, 7);
    playfield.set(40, 10);
    for col in 1..=9 {
        playfield.set(5, col);
    }
    assert!(!contains_full_rows(&playfield));
    let before = playfield;
    assert_eq!(clear_rows(&mut playfield), 0);
    for row in 1..=40 {
        for col in 1..=10 {
            assert_eq!(playfield.get(row, col), before.get(row, col));
        }
    }
}

#[test]
fn test_clear_rows_compacts_and_counts() {
    let mut playfield = Playfield::new();
    for col in 1..=10 {
        playfield.set(1, col);
        playfield.set(2, col);
        playfield.set(4, col);
    }
    let others = [(3, 3), (3, 6), (5, 1), (6, 4), (6, 10), (7, 2), (7, 5), (7, 7), (8, 9)];
    for (row, col) in others {
        playfield.set(row, col);
    }
    assert!(contains_full_rows(&playfield));
    // Three rows are full.
    assert_eq!(clear_rows(&mut playfield), 3);
    assert!(!contains_full_rows(&playfield));
    let expected = [(1, 3), (1, 6), (2, 1), (3, 4), (3, 10), (4, 2), (4, 5), (4, 7), (5, 9)];
    for row in 1..=40 {
        for col in 1..=10 {
            let space = if expected.contains(&(row, col)) { Space::Block } else { Space::Empty };
            assert_eq!(playfield.get(row, col), space, "at ({}, {})", row, col);
        }
    }
}

#[test]
fn test_clear_rows_empties_the_top_row() {
    let mut playfield = Playfield::new();
    for col in 1..=10 {
        playfield.set(40, col);
        playfield.set(1, col);
    }
    playfield.set(39, 4);
    assert_eq!(clear_rows(&mut playfield), 2);
    for row in 1..=40 {
        for col in 1..=10 {
            let space = if (row, col) == (38, 4) { Space::Block } else { Space::Empty };
            assert_eq!(playfield.get(row, col), space);
        }
    }

    let mut playfield = full_playfield();
    assert_eq!(clear_rows(&mut playfield), 40);
    for row in 1..=40 {
        for col in 1..=10 {
            assert_eq!(playfield.get(row, col), Space::Empty);
        }
    }
}

#[test]
fn test_corner_offsets_turn_with_the_piece() {
    assert_eq!(corner_offsets(Rotation::Spawn), [(3, 0), (3, 2), (1, 0), (1, 2)]);
    assert_eq!(corner_offsets(Rotation::Clockwise), [(3, 2), (1, 2), (3, 0), (1, 0)]);
    assert_eq!(corner_offsets(Rotation::OneEighty), [(1, 2), (1, 0), (3, 2), (3, 0)]);
    assert_eq!(corner_offsets(Rotation::CounterClockwise), [(1, 0), (3, 0), (1, 2), (3, 2)]);
}

#[test]
fn test_detect_t_spin() {
    // The T points down, its centre at (5, 5): the corners are (4, 4), (4, 6), (6, 4), (6, 6),
    // where A = (4, 6) and B = (4, 4) are beside the stem.
    let piece = piece_at(Tetromino::T, Rotation::OneEighty, 3, 4);
    let none = TSpinInternal::NoSpin;
    let with = |blocks: &[(u8, u8)]| {
        let mut playfield = Playfield::new();
        for (row, col) in blocks {
            playfield.set(*row, *col);
        }
        playfield
    };
    assert_eq!(detect_t_spin(&with(&[]), piece, none), TSpinInternal::NoSpin);
    assert_eq!(detect_t_spin(&with(&[(4, 4), (4, 6)]), piece, none), TSpinInternal::NoSpin);
    assert_eq!(detect_t_spin(&with(&[(4, 4), (4, 6), (6, 4)]), piece, none), TSpinInternal::Regular);
    assert_eq!(detect_t_spin(&with(&[(4, 4), (4, 6), (6, 6)]), piece, none), TSpinInternal::Regular);
    assert_eq!(detect_t_spin(&with(&[(6, 4), (6, 6), (4, 4)]), piece, none), TSpinInternal::Mini);
    assert_eq!(detect_t_spin(&with(&[(6, 4), (6, 6), (4, 6)]), piece, none), TSpinInternal::Mini);
    assert_eq!(detect_t_spin(&with(&[(6, 4), (6, 6)]), piece, none), TSpinInternal::NoSpin);
    assert_eq!(
        detect_t_spin(&with(&[(4, 4), (4, 6), (6, 4), (6, 6)]), piece, none),
        TSpinInternal::Regular
    );
    // A marker for the last wall kick stays.
    assert_eq!(detect_t_spin(&with(&[]), piece, TSpinInternal::PointFive), TSpinInternal::PointFive);
    // Only the T spins.
    let other = piece_at(Tetromino::J, Rotation::OneEighty, 3, 4);
    assert_eq!(
        detect_t_spin(&with(&[(4, 4), (4, 6), (6, 4), (6, 6)]), other, TSpinInternal::PointFive),
        TSpinInternal::NoSpin
    );
}

#[test]
fn test_corners_outside_the_playfield_support_a_spin() {
    // The T lies flat on the floor in its spawn state: C and D are below the floor.
    let piece = piece_at(Tetromino::T, Rotation::Spawn, -1, 4);
    let mut playfield = Playfield::new();
    assert_eq!(detect_t_spin(&playfield, piece, TSpinInternal::NoSpin), TSpinInternal::NoSpin);
    playfield.set(2, 4);
    assert_eq!(detect_t_spin(&playfield, piece, TSpinInternal::NoSpin), TSpinInternal::Mini);
    playfield.set(2, 6);
    assert_eq!(detect_t_spin(&playfield, piece, TSpinInternal::NoSpin), TSpinInternal::Regular);
}

#[test]
fn test_t_spin_told_to_observers() {
    assert_eq!(TSpin::from(&TSpinInternal::NoSpin), TSpin::NoSpin);
    assert_eq!(TSpin::from(&TSpinInternal::Regular), TSpin::Regular);
    assert_eq!(TSpin::from(&TSpinInternal::Mini), TSpin::Mini);
    assert_eq!(TSpin::from(&TSpinInternal::PointFive), TSpin::Regular);
}

#[test]
fn test_gravity_times() {
    // More ticks per row than the factor: divided and rounded, halves up.
    assert_eq!(TicksPerRow(60) * 20, TicksPerRow(3));
    assert_eq!(TicksPerRow(48) * 20, TicksPerRow(2));
    assert_eq!(TicksPerRow(37) * 20, TicksPerRow(2));
    assert_eq!(TicksPerRow(30) * 20, TicksPerRow(2));
    assert_eq!(TicksPerRow(29) * 20, TicksPerRow(1));
    assert_eq!(TicksPerRow(21) * 20, TicksPerRow(1));
    assert_eq!(TicksPerRow(255) * 2, TicksPerRow(128));
    assert_eq!(TicksPerRow(255) * 1, TicksPerRow(255));
    assert_eq!(TicksPerRow(3) * 2, TicksPerRow(2));
    // Otherwise rows per tick, rounded down.
    assert_eq!(TicksPerRow(20) * 20, RowsPerTick(1));
    assert_eq!(TicksPerRow(16) * 20, RowsPerTick(1));
    assert_eq!(TicksPerRow(8) * 20, RowsPerTick(2));
    assert_eq!(TicksPerRow(6) * 20, RowsPerTick(3));
    assert_eq!(TicksPerRow(3) * 20, RowsPerTick(6));
    assert_eq!(TicksPerRow(1) * 20, RowsPerTick(20));
    // Never more than the visible height per tick.
    assert_eq!(TicksPerRow(1) * 21, RowsPerTick(20));
    assert_eq!(TicksPerRow(2) * 41, RowsPerTick(20));
    assert_eq!(TicksPerRow(2) * 40, RowsPerTick(20));
    assert_eq!(TicksPerRow(0) * 1, RowsPerTick(20));
    assert_eq!(RowsPerTick(2) * 20, RowsPerTick(20));
    assert_eq!(RowsPerTick(3) * 5, RowsPerTick(15));
    assert_eq!(RowsPerTick(4) * 5, RowsPerTick(20));
    assert_eq!(RowsPerTick(3) * 7, RowsPerTick(20));
    assert_eq!(RowsPerTick(255) * 255, RowsPerTick(20));
    // A factor of zero.
    assert_eq!(TicksPerRow(30) * 0, TicksPerRow(255));
    assert_eq!(TicksPerRow(0) * 0, RowsPerTick(0));
    assert_eq!(RowsPerTick(9) * 0, RowsPerTick(0));
}

fn pressed(actions: &[Action]) -> ActionSet {
    let mut set = ActionSet::new();
    for action in actions {
        set.insert(*action);
    }
    set
}

#[test]
fn test_action_set() {
    let mut set = ActionSet::new();
    assert!(!set.contains(Action::Hold));
    set.insert(Action::Hold);
    set.insert(Action::Hold);
    assert!(set.contains(Action::Hold));
    assert!(!set.contains(Action::HardDrop));
    assert_eq!(set, pressed(&[Action::Hold]));
}

#[test]
fn test_moves_repeat() {
    let mut durations = InputDurations::new();
    let mut fired = Vec::new();
    for tick in 1..=40 {
        let mut input = pressed(&[Action::MoveRight]);
        assert!(durations.can_count(&input));
        let actions = process_input(&mut input, &mut durations);
        assert_eq!(input, ActionSet::new());
        assert_eq!(durations.move_right, tick);
        if actions.contains(Action::MoveRight) {
            fired.push(tick);
        }
    }
    assert_eq!(fired, vec![1, 12, 19, 26, 33, 40]);

    // Releasing the key starts the count again.
    let mut input = ActionSet::new();
    let actions = process_input(&mut input, &mut durations);
    assert_eq!(actions, ActionSet::new());
    assert_eq!(durations, InputDurations::new());
    let actions = process_input(&mut pressed(&[Action::MoveRight]), &mut durations);
    assert!(actions.contains(Action::MoveRight));
}

#[test]
fn test_edge_and_level_triggered_actions() {
    let mut durations = InputDurations::new();
    let all = [
        Action::Hold,
        Action::RotateClockwise,
        Action::RotateCounterClockwise,
        Action::HardDrop,
        Action::SoftDrop,
    ];
    let first = process_input(&mut pressed(&all), &mut durations);
    assert_eq!(first, pressed(&all));
    for _ in 0..30 {
        let later = process_input(&mut pressed(&all), &mut durations);
        assert_eq!(later, pressed(&[Action::SoftDrop]));
    }
    assert_eq!(durations.soft_drop, 31);
    assert_eq!(durations.hold, 31);
}

#[test]
fn test_left_wins_over_right() {
    let mut durations = InputDurations::new();
    let both = [Action::MoveLeft, Action::MoveRight];
    let actions = process_input(&mut pressed(&both), &mut durations);
    assert_eq!(actions, pressed(&[Action::MoveLeft]));
    assert_eq!((durations.move_left, durations.move_right), (1, 0));
    for _ in 0..11 {
        process_input(&mut pressed(&both), &mut durations);
    }
    assert_eq!((durations.move_left, durations.move_right), (12, 0));
    // When left is released, right starts cold.
    let actions = process_input(&mut pressed(&[Action::MoveRight]), &mut durations);
    assert_eq!(actions, pressed(&[Action::MoveRight]));
    assert_eq!((durations.move_left, durations.move_right), (0, 1));
    let actions = process_input(&mut pressed(&[Action::MoveRight]), &mut durations);
    assert_eq!(actions, ActionSet::new());
}

#[test]
fn test_durations_at_their_limit() {
    let mut durations = InputDurations::new();
    durations.soft_drop = u32::MAX;
    assert!(durations.can_count(&ActionSet::new()));
    assert!(durations.can_count(&pressed(&[Action::HardDrop])));
    assert!(!durations.can_count(&pressed(&[Action::SoftDrop])));
    durations.soft_drop = u32::MAX - 1;
    assert!(durations.can_count(&pressed(&[Action::SoftDrop])));
}

#[test]
fn test_new_bag_holds_each_shape_once() {
    for _ in 0..20 {
        let bag = BagGenerator::new_bag();
        for shape in SHAPES {
            assert_eq!(bag.iter().filter(|t| **t == shape).count(), 1);
        }
    }
}

#[test]
fn test_bags_are_shuffled() {
    // A bag comes out in the order I, O, T, S, Z, J, L once in 5040 times.
    assert!((0..50).any(|_| BagGenerator::new_bag() != SHAPES));
}

#[test]
fn test_windows_of_seven_draws() {
    let mut generator = BagGenerator::new();
    for _ in 0..10 {
        let mut window = Vec::new();
        for _ in 0..7 {
            window.push(generator.next());
        }
        for shape in SHAPES {
            assert_eq!(window.iter().filter(|t| **t == shape).count(), 1);
        }
    }
}

#[test]
fn test_tetromino_at() {
    for (index, shape) in SHAPES.iter().enumerate() {
        assert_eq!(tetromino_at(index as u8), *shape);
    }
}
