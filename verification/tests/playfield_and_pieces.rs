use std::collections::HashSet;

use tet_rs::piece::{Piece, Rotation, Tetromino};
use tet_rs::playfield::{Playfield, Space};

#[test]
fn test_playfield_new() {
    let playfield = Playfield::new();
    for row in 1..=Playfield::TOTAL_HEIGHT {
        for col in 1..=Playfield::WIDTH {
            assert_eq!(playfield.get(row, col), Space::Empty);
        }
    }
}

#[test]
#[should_panic]
fn test_playfield_get_row_less() {
    let playfield = Playfield::new();
    playfield.get(0, 1);
}

#[test]
#[should_panic]
fn test_playfield_get_row_greater() {
    let playfield = Playfield::new();
    playfield.get(Playfield::TOTAL_HEIGHT + 1, 1);
}

#[test]
#[should_panic]
fn test_playfield_get_col_less() {
    let playfield = Playfield::new();
    playfield.get(1, 0);
}

#[test]
#[should_panic]
fn test_playfield_get_col_greater() {
    let playfield = Playfield::new();
    playfield.get(1, Playfield::WIDTH + 1);
}

#[test]
fn test_playfield_set_and_clear() {
    let mut playfield = Playfield::new();
    for row in 1..=40 {
        for col in 1..=10 {
            playfield.set(row, col);
            assert_eq!(playfield.get(row, col), Space::Block);
            playfield.clear(row, col);
            assert_eq!(playfield.get(row, col), Space::Empty);
        }
    }
}

#[test]
fn test_rotation_cw() {
    let r = Rotation::Spawn;
    assert_eq!(r.cw(), Rotation::Clockwise);
    assert_eq!(r.cw().cw(), Rotation::OneEighty);
    assert_eq!(r.cw().cw().cw(), Rotation::CounterClockwise);
    assert_eq!(r.cw().cw().cw().cw(), Rotation::Spawn);
}

#[test]
fn test_rotation_ccw() {
    let r = Rotation::Spawn;
    assert_eq!(r.ccw(), Rotation::CounterClockwise);
    assert_eq!(r.ccw().ccw(), Rotation::OneEighty);
    assert_eq!(r.ccw().ccw().ccw(), Rotation::Clockwise);
    assert_eq!(r.ccw().ccw().ccw().ccw(), Rotation::Spawn);
}

#[test]
fn test_piece_new() {
    assert_piece_new(Piece::new(Tetromino::I), Tetromino::I);
    assert_piece_new(Piece::new(Tetromino::O), Tetromino::O);
    assert_piece_new(Piece::new(Tetromino::T), Tetromino::T);
    assert_piece_new(Piece::new(Tetromino::S), Tetromino::S);
    assert_piece_new(Piece::new(Tetromino::Z), Tetromino::Z);
    assert_piece_new(Piece::new(Tetromino::J), Tetromino::J);
    assert_piece_new(Piece::new(Tetromino::L), Tetromino::L);
}

fn assert_piece_new(piece: Piece, expected_shape: Tetromino) {
    assert_eq!(piece.get_shape(), &expected_shape);
    assert_eq!(piece.get_rotation(), &Rotation::Spawn);
}

#[test]
fn test_piece_rotate_cw() {
    assert_piece_rotate_cw(&mut Piece::new(Tetromino::I));
    assert_piece_rotate_cw(&mut Piece::new(Tetromino::O));
    assert_piece_rotate_cw(&mut Piece::new(Tetromino::T));
    assert_piece_rotate_cw(&mut Piece::new(Tetromino::S));
    assert_piece_rotate_cw(&mut Piece::new(Tetromino::Z));
    assert_piece_rotate_cw(&mut Piece::new(Tetromino::J));
    assert_piece_rotate_cw(&mut Piece::new(Tetromino::L));
}

fn assert_piece_rotate_cw(piece: &mut Piece) {
    assert_eq!(piece.get_rotation(), &Rotation::Spawn);
    piece.rotate_cw();
    assert_eq!(piece.get_rotation(), &Rotation::Clockwise);
    piece.rotate_cw();
    assert_eq!(piece.get_rotation(), &Rotation::OneEighty);
    piece.rotate_cw();
    assert_eq!(piece.get_rotation(), &Rotation::CounterClockwise);
    piece.rotate_cw();
    assert_eq!(piece.get_rotation(), &Rotation::Spawn);
}

#[test]
fn test_piece_rotate_ccw() {
    assert_piece_rotate_ccw(&mut Piece::new(Tetromino::I));
    assert_piece_rotate_ccw(&mut Piece::new(Tetromino::O));
    assert_piece_rotate_ccw(&mut Piece::new(Tetromino::T));
    assert_piece_rotate_ccw(&mut Piece::new(Tetromino::S));
    assert_piece_rotate_ccw(&mut Piece::new(Tetromino::Z));
    assert_piece_rotate_ccw(&mut Piece::new(Tetromino::J));
    assert_piece_rotate_ccw(&mut Piece::new(Tetromino::L));
}

fn assert_piece_rotate_ccw(piece: &mut Piece) {
    assert_eq!(piece.get_rotation(), &Rotation::Spawn);
    piece.rotate_ccw();
    assert_eq!(piece.get_rotation(), &Rotation::CounterClockwise);
    piece.rotate_ccw();
    assert_eq!(piece.get_rotation(), &Rotation::OneEighty);
    piece.rotate_ccw();
    assert_eq!(piece.get_rotation(), &Rotation::Clockwise);
    piece.rotate_ccw();
    assert_eq!(piece.get_rotation(), &Rotation::Spawn);
}

#[test]
fn test_piece_get_bounding_box() {
    // For each shape, verify that each rotation has four blocks. Then verify that, except for
    // O, each shape has four unique rotations.

    let i_bbs = assert_piece_bounding_box(&mut Piece::new(Tetromino::I));
    assert_eq!(i_bbs.len(), 4);

    let o_bbs = assert_piece_bounding_box(&mut Piece::new(Tetromino::O));
    assert_eq!(o_bbs.len(), 1);

    let t_bbs = assert_piece_bounding_box(&mut Piece::new(Tetromino::T));
    assert_eq!(t_bbs.len(), 4);

    let s_bbs = assert_piece_bounding_box(&mut Piece::new(Tetromino::S));
    assert_eq!(s_bbs.len(), 4);

    let z_bbs = assert_piece_bounding_box(&mut Piece::new(Tetromino::Z));
    assert_eq!(z_bbs.len(), 4);

    let j_bbs = assert_piece_bounding_box(&mut Piece::new(Tetromino::J));
    assert_eq!(j_bbs.len(), 4);

    let l_bbs = assert_piece_bounding_box(&mut Piece::new(Tetromino::L));
    assert_eq!(l_bbs.len(), 4);
}

fn assert_piece_bounding_box(piece: &mut Piece) -> HashSet<[[Space; 4]; 4]> {
    let mut bounding_boxes = HashSet::new();
    // Test all 4 rotations
    for _ in 0..4 {
        let mut blocks = 0;
        let bounding_box = piece.get_bounding_box();
        bounding_boxes.insert(bounding_box);
        for row in bounding_box.iter() {
            for col in row {
                if col == &Space::Block {
                    blocks += 1;
                }
            }
        }

        assert_eq!(blocks, 4);

        piece.rotate_cw();
    }

    bounding_boxes
}

#[test]
fn test_bounding_box_rows_count_from_the_bottom() {
    // The T in its spawn state: the flat side in row 2, the stem above it.
    let t = Piece::new(Tetromino::T).get_bounding_box();
    let e = Space::Empty;
    let b = Space::Block;
    assert_eq!(t, [[e, e, e, e], [e, e, e, e], [b, b, b, e], [e, b, e, e]]);

    // The I turned clockwise stands in column 2.
    let mut i = Piece::new(Tetromino::I);
    i.rotate_cw();
    assert_eq!(i.get_bounding_box(), [[e, e, b, e], [e, e, b, e], [e, e, b, e], [e, e, b, e]]);
}

#[test]
fn test_rotation_round_trips() {
    for shape in [
        Tetromino::I,
        Tetromino::O,
        Tetromino::T,
        Tetromino::S,
        Tetromino::Z,
        Tetromino::J,
        Tetromino::L,
    ] {
        let mut piece = Piece::new(shape);
        for _ in 0..4 {
            let before = piece;
            piece.rotate_cw();
            piece.rotate_ccw();
            assert_eq!(piece, before);
            piece.rotate_cw();
        }
        assert_eq!(piece, Piece::new(shape));
    }
}
