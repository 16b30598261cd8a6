//! The engines: the piece in play, the rules that move it, and the per-tick
//! state machines that sequence them.
//!
//! [`Engine`] is the plain engine: a piece that cannot fall any further is
//! locked at once. [`base::BaseEngine`] gives the piece a lock delay, detects
//! T-spins, pauses to clear lines and knows when the game is over.

use std::collections::VecDeque;
use vstd::prelude::*;
use crate::engine::collision::{
    after_drop, after_move, collides, drop_piece, fits, fits_in_playfield,
    has_collision_with_piece, lemma_free_steps_stop_at_first_collision, lock_piece, locked,
    move_piece, rows_dropped,
};
use crate::engine::generator::{is_full_bag, BagGenerator, TetrominoGenerator};
use crate::engine::gravity::Gravity;
use crate::engine::input::{process_input, Action, ActionSet, InputDurations};
use crate::engine::kick::{after_rotation, quarter_apart, rotate_piece};
use crate::engine::reach::{
    lemma_drop_keeps_reach, lemma_low_piece_is_in_reach, lemma_move_keeps_reach,
    lemma_reach_leaves_room, lemma_rotation_keeps_reach, piece_in_reach,
};
use crate::engine::rows::{clear_rows, compacted};
use crate::piece::{Piece, Rotation, Tetromino};
use crate::playfield::{empty_grid, is_grid, Grid, Playfield, Space};

pub mod base;
pub mod collision;
pub mod generator;
pub mod gravity;
pub mod input;
pub mod kick;
pub mod model;
pub mod reach;
pub mod rows;
pub mod single;
pub mod t_spin;

verus! {

/// The current piece on the playfield.
///
/// `row` and `col` give the playfield position of the lower-left cell of the
/// piece's bounding box.
#[derive(Debug, PartialEq, Eq, Clone, Copy, Structural)]
pub struct CurrentPiece {
    pub piece: Piece,
    pub row: i8,
    pub col: i8,
}

impl CurrentPiece {
    /// The piece of a shape as it enters play: in its spawn state, with its
    /// bounding box at row 19 and column 4.
    pub open spec fn spawned(shape: Tetromino) -> CurrentPiece {
        CurrentPiece { piece: Piece { shape, rotation: Rotation::Spawn }, row: 19, col: 4 }
    }

    /// This piece moved by a number of rows and columns, where the result is
    /// still within the range of the coordinates.
    pub open spec fn shifted(self, rows: int, cols: int) -> CurrentPiece {
        CurrentPiece { piece: self.piece, row: (self.row + rows) as i8, col: (self.col + cols) as i8 }
    }

    /// This piece in another rotation state, at the same position.
    pub open spec fn turned(self, rotation: Rotation) -> CurrentPiece {
        CurrentPiece {
            piece: Piece { shape: self.piece.shape, rotation },
            row: self.row,
            col: self.col,
        }
    }

    /// Creates a new piece in spawn position.
    pub fn new(shape: Tetromino) -> (piece: CurrentPiece)
        ensures
            piece == Self::spawned(shape),
    {
        CurrentPiece { piece: Piece::new(shape), row: 19, col: 4 }
    }

    pub fn rotate_cw(&mut self)
        ensures
            *final(self) == old(self).turned(old(self).piece.rotation.cw()),
    {
        self.piece.rotate_cw();
    }

    pub fn rotate_ccw(&mut self)
        ensures
            *final(self) == old(self).turned(old(self).piece.rotation.ccw()),
    {
        self.piece.rotate_ccw();
    }

    pub fn get_bounding_box(self) -> (bounding_box: [[Space; 4]; 4])
        ensures
            crate::piece::is_mask_of(bounding_box, self.piece.shape, self.piece.rotation),
    {
        self.piece.get_bounding_box()
    }

    pub fn get_piece(self) -> (piece: Piece)
        ensures
            piece == self.piece,
    {
        self.piece
    }

    pub fn get_row(self) -> (row: i8)
        ensures
            row == self.row,
    {
        self.row
    }

    pub fn get_col(self) -> (col: i8)
        ensures
            col == self.col,
    {
        self.col
    }
}

/// What became of an attempt to drop the current piece.
#[derive(Clone, Copy, PartialEq, Eq, Debug, Structural)]
pub enum DropResult {
    /// The piece dropped as far as asked.
    Success,
    /// The piece stopped early, in front of a collision.
    Collision,
}

/// The mathematical model of the plain engine: everything that a tick reads
/// and writes, but for the generator.
pub struct PlainView {
    pub field: Grid,
    pub piece: CurrentPiece,
    pub hold: Option<Tetromino>,
    pub hold_available: bool,
    /// The number of ticks since gravity last acted, up to the ticks per row.
    pub ticks_since_drop: u8,
    /// The actions signalled since the last tick.
    pub pressed: ActionSet,
    pub durations: InputDurations,
    /// The ticks per row at which the piece falls by itself.
    pub ticks_per_row: u8,
    /// The ticks per row at which the piece falls under a soft drop.
    pub soft_ticks_per_row: u8,
    /// The upcoming pieces, the next one first.
    pub queue: Seq<Tetromino>,
}

impl PlainView {
    /// What holds of an engine at all times.
    pub open spec fn valid(self) -> bool {
        &&& is_grid(self.field)
        &&& self.queue.len() == 5
        &&& piece_in_reach(self.piece)
    }

    /// An engine before its first tick: an empty playfield, the first piece
    /// in play, nothing held, no input.
    pub open spec fn initial(first: Tetromino, queue: Seq<Tetromino>) -> PlainView {
        PlainView {
            field: empty_grid(),
            piece: CurrentPiece::spawned(first),
            hold: None,
            hold_available: true,
            ticks_since_drop: 0,
            pressed: ActionSet::empty(),
            durations: InputDurations::zero(),
            ticks_per_row: 40,
            soft_ticks_per_row: 2,
            queue,
        }
    }

    /// This engine after an action has been signalled.
    pub open spec fn signalled(self, action: Action) -> PlainView {
        PlainView { pressed: self.pressed.with(action), ..self }
    }

    /// This engine after the next piece of the queue has come into play and
    /// the piece `drawn` from the generator has joined the queue.
    pub open spec fn next_piece(self, drawn: Tetromino) -> PlainView {
        PlainView {
            piece: CurrentPiece::spawned(self.queue[0]),
            queue: self.queue.skip(1).push(drawn),
            hold_available: true,
            ..self
        }
    }

    /// This engine after the current piece has gone to the hold slot: the
    /// piece that was held comes into play, or the next piece of the queue
    /// where none was.
    pub open spec fn hold_piece(self, drawn: Tetromino) -> PlainView {
        let held = Some(self.piece.piece.shape);
        match self.hold {
            Some(shape) => PlainView { piece: CurrentPiece::spawned(shape), hold: held, ..self },
            None => PlainView { hold: held, ..self.next_piece(drawn) },
        }
    }

    /// Whether a hold among the actions takes effect.
    pub open spec fn holds(self, actions: ActionSet) -> bool {
        actions.hold && self.hold_available
    }

    /// This engine after the move among the actions: left before right.
    pub open spec fn apply_piece_move(self, actions: ActionSet) -> PlainView {
        if actions.move_left {
            PlainView { piece: after_move(self.field, self.piece, -1), ..self }
        } else if actions.move_right {
            PlainView { piece: after_move(self.field, self.piece, 1), ..self }
        } else {
            self
        }
    }

    /// This engine after the rotation among the actions: clockwise before
    /// counter-clockwise.
    pub open spec fn apply_piece_rotation(self, actions: ActionSet) -> PlainView {
        if actions.rotate_clockwise {
            PlainView {
                piece: after_rotation(self.field, self.piece, self.piece.piece.rotation.cw()),
                ..self
            }
        } else if actions.rotate_counter_clockwise {
            PlainView {
                piece: after_rotation(self.field, self.piece, self.piece.piece.rotation.ccw()),
                ..self
            }
        } else {
            self
        }
    }

    /// This engine after the current piece has been locked, the full rows
    /// cleared and the next piece brought into play.
    pub open spec fn lock_clear_next(self, drawn: Tetromino) -> PlainView {
        PlainView { field: compacted(locked(self.field, self.piece)), ..self.next_piece(drawn) }
    }

    /// The ticks per row that act on the piece under the actions.
    pub open spec fn ticks_per_row_under(self, actions: ActionSet) -> u8 {
        if actions.soft_drop {
            self.soft_ticks_per_row
        } else {
            self.ticks_per_row
        }
    }

    /// Whether gravity acts on this tick, and the piece is locked because it
    /// cannot fall.
    pub open spec fn lands(self, actions: ActionSet) -> bool {
        self.ticks_since_drop >= self.ticks_per_row_under(actions) && rows_dropped(
            self.field,
            self.piece,
            1,
        ) == 0
    }

    /// This engine after gravity. A hard drop drops the piece as far as it
    /// goes and locks it, unless a hold is among the actions too. Otherwise
    /// the piece falls by a row when enough ticks have passed since it last
    /// fell, and is locked where it cannot fall.
    #[verifier::opaque]
    pub open spec fn apply_gravity(self, actions: ActionSet, drawn: Tetromino) -> PlainView {
        if actions.hard_drop {
            if !actions.hold {
                PlainView {
                    ticks_since_drop: 0,
                    ..PlainView {
                        piece: after_drop(self.field, self.piece, 40),
                        ..self
                    }.lock_clear_next(drawn)
                }
            } else {
                self
            }
        } else if self.ticks_since_drop >= self.ticks_per_row_under(actions) {
            if self.lands(actions) {
                PlainView { ticks_since_drop: 0, ..self.lock_clear_next(drawn) }
            } else {
                PlainView {
                    piece: after_drop(self.field, self.piece, 1),
                    ticks_since_drop: 0,
                    ..self
                }
            }
        } else {
            PlainView { ticks_since_drop: (self.ticks_since_drop + 1) as u8, ..self }
        }
    }

    /// This engine after the input of a tick has been counted and cleared.
    pub open spec fn process_input(self) -> PlainView {
        PlainView {
            pressed: ActionSet::empty(),
            durations: self.durations.advanced(self.pressed),
            ..self
        }
    }

    /// The actions that take effect on the next tick.
    pub open spec fn actions(self) -> ActionSet {
        self.durations.advanced(self.pressed).active()
    }

    /// This engine after the move and the rotation among the actions.
    pub open spec fn apply_moves(self, actions: ActionSet) -> PlainView {
        self.apply_piece_move(actions).apply_piece_rotation(actions)
    }

    /// This engine after one tick, during which the generator hands out the
    /// piece `drawn` if it is asked for one. A hold pre-empts everything
    /// else.
    pub open spec fn tick(self, drawn: Tetromino) -> PlainView {
        let counted = self.process_input();
        let actions = self.actions();
        if counted.holds(actions) {
            PlainView { hold_available: false, ..counted.hold_piece(drawn) }
        } else {
            counted.apply_moves(actions).apply_gravity(actions, drawn)
        }
    }

    /// The piece that the next tick locks into the playfield, where it is at
    /// that time, if the tick locks one.
    pub open spec fn piece_to_lock(self) -> Option<CurrentPiece> {
        let actions = self.actions();
        let moved = self.apply_moves(actions);
        if self.holds(actions) {
            None
        } else if actions.hard_drop {
            if !actions.hold {
                Some(after_drop(moved.field, moved.piece, 40))
            } else {
                None
            }
        } else if moved.lands(actions) {
            Some(moved.piece)
        } else {
            None
        }
    }

    /// Whether the next tick is defined: the durations that it would count
    /// up have room for one more tick, and the piece that it would lock, if
    /// any, lies on the playfield.
    pub open spec fn ready(self) -> bool {
        &&& self.durations.countable(self.pressed)
        &&& self.piece_to_lock() matches Some(piece) ==> fits(piece)
    }
}

/// The plain game engine.
pub struct Engine {
    playfield: Playfield,
    current_piece: CurrentPiece,
    tetromino_generator: Box<dyn TetrominoGenerator>,
    hold_piece: Option<Tetromino>,
    is_hold_available: bool,
    ticks_since_drop: u8,
    current_tick_inputs: ActionSet,
    current_inputs: InputDurations,
    gravity: Gravity,
    soft_drop_gravity: Gravity,
    next_pieces: VecDeque<Tetromino>,
}

impl View for Engine {
    type V = PlainView;

    closed spec fn view(&self) -> PlainView {
        PlainView {
            field: self.playfield@,
            piece: self.current_piece,
            hold: self.hold_piece,
            hold_available: self.is_hold_available,
            ticks_since_drop: self.ticks_since_drop,
            pressed: self.current_tick_inputs,
            durations: self.current_inputs,
            ticks_per_row: self.gravity->TicksPerRow_0,
            soft_ticks_per_row: self.soft_drop_gravity->TicksPerRow_0,
            queue: self.next_pieces@,
        }
    }
}

impl Engine {
    /// What holds of an engine at all times.
    pub closed spec fn valid(&self) -> bool {
        &&& self@.valid()
        &&& self.gravity is TicksPerRow
        &&& self.soft_drop_gravity is TicksPerRow
    }

    /// Whether the next tick is defined.
    pub open spec fn ready(&self) -> bool {
        self@.ready()
    }

    /// Creates a new engine with the specified tetromino generator: the
    /// first piece that it hands out comes into play, the next five wait in
    /// the queue.
    pub fn with_tetromino_generator(tetromino_generator: Box<dyn TetrominoGenerator>) -> (engine:
        Engine)
        ensures
            engine.valid(),
            engine@ == PlainView::initial(engine@.piece.piece.shape, engine@.queue),
    {
        let mut tetromino_generator = tetromino_generator;
        let first = tetromino_generator.next();
        let mut next_pieces: VecDeque<Tetromino> = VecDeque::with_capacity(5);
        let mut i: usize = 0;
        while i < 5
            invariant
                i <= 5,
                next_pieces@.len() == i,
            decreases 5 - i,
        {
            next_pieces.push_back(tetromino_generator.next());
            i += 1;
        }
        Engine::assemble(tetromino_generator, first, next_pieces)
    }

    /// Creates a new engine with default settings: the pieces come from a
    /// [`BagGenerator`], so the first piece and the five in the queue are six
    /// different shapes.
    pub fn new() -> (engine: Engine)
        ensures
            engine.valid(),
            engine@ == PlainView::initial(engine@.piece.piece.shape, engine@.queue),
            (seq![engine@.piece.piece.shape] + engine@.queue).no_duplicates(),
    {
        let mut generator = BagGenerator::new();
        let ghost bag = generator@;
        let first = generator.next();
        let mut next_pieces: VecDeque<Tetromino> = VecDeque::with_capacity(5);
        let mut i: usize = 0;
        assert(seq![first] + next_pieces@ + generator@ =~= bag);
        while i < 5
            invariant
                i <= 5,
                next_pieces@.len() == i,
                is_full_bag(bag),
                seq![first] + next_pieces@ + generator@ == bag,
            decreases 5 - i,
        {
            let ghost before = next_pieces@;
            let ghost left = generator@;
            let piece = generator.next();
            next_pieces.push_back(piece);
            assert(seq![first] + next_pieces@ + generator@ =~= seq![first] + before + left);
            i += 1;
        }
        proof {
            let six = seq![first] + next_pieces@;
            assert(six =~= bag.take(6));
        }
        Engine::assemble(Box::new(generator), first, next_pieces)
    }

    /// Puts an engine together from its generator and the pieces drawn from
    /// it.
    fn assemble(
        tetromino_generator: Box<dyn TetrominoGenerator>,
        first: Tetromino,
        next_pieces: VecDeque<Tetromino>,
    ) -> (engine: Engine)
        requires
            next_pieces@.len() == 5,
        ensures
            engine.valid(),
            engine@ == PlainView::initial(first, next_pieces@),
    {
        let engine = Engine {
            playfield: Playfield::new(),
            current_piece: CurrentPiece::new(first),
            tetromino_generator,
            hold_piece: Option::None,
            is_hold_available: true,
            ticks_since_drop: 0,
            current_tick_inputs: ActionSet::new(),
            current_inputs: InputDurations::new(),
            gravity: Gravity::TicksPerRow(40),
            soft_drop_gravity: Gravity::TicksPerRow(2),
            next_pieces,
        };
        proof {
            engine.playfield.lemma_view_is_grid();
            lemma_low_piece_is_in_reach(CurrentPiece::spawned(first));
        }
        engine
    }

    pub fn get_playfield(&self) -> (playfield: Playfield)
        ensures
            playfield@ == self@.field,
    {
        self.playfield
    }

    /// Replaces the playfield.
    pub fn set_playfield(&mut self, playfield: Playfield)
        ensures
            final(self)@ == (PlainView { field: playfield@, ..old(self)@ }),
            old(self).valid() ==> final(self).valid(),
    {
        proof {
            playfield.lemma_view_is_grid();
        }
        self.playfield = playfield;
    }

    pub fn get_current_piece(&self) -> (piece: CurrentPiece)
        ensures
            piece == self@.piece,
    {
        self.current_piece
    }

    pub fn get_hold_piece(&self) -> (hold: Option<Tetromino>)
        ensures
            hold == self@.hold,
    {
        self.hold_piece
    }

    pub fn get_next_pieces(&self) -> (pieces: Vec<Tetromino>)
        ensures
            pieces@ == self@.queue,
    {
        let mut pieces: Vec<Tetromino> = Vec::new();
        let mut i: usize = 0;
        while i < self.next_pieces.len()
            invariant
                i <= self.next_pieces.len(),
                pieces@ == self.next_pieces@.take(i as int),
            decreases self.next_pieces.len() - i,
        {
            pieces.push(self.next_pieces[i]);
            assert(self.next_pieces@.take(i as int).push(self.next_pieces@[i as int])
                =~= self.next_pieces@.take(i + 1));
            i += 1;
        }
        assert(self.next_pieces@.take(self.next_pieces.len() as int) =~= self.next_pieces@);
        pieces
    }

    /// Returns whether or not the next tick is defined.
    pub fn is_ready(&self) -> (ready: bool)
        requires
            self.valid(),
        ensures
            ready == self.ready(),
    {
        if !self.current_inputs.can_count(&self.current_tick_inputs) {
            return false;
        }
        let mut pressed = self.current_tick_inputs;
        let mut durations = self.current_inputs;
        let actions = process_input(&mut pressed, &mut durations);
        if actions.hold && self.is_hold_available {
            return true;
        }
        let mut piece = self.current_piece;
        if actions.move_left {
            move_piece(&self.playfield, &mut piece, -1);
        } else if actions.move_right {
            move_piece(&self.playfield, &mut piece, 1);
        }
        proof {
            lemma_move_keeps_reach(self@.field, self@.piece, -1);
            lemma_move_keeps_reach(self@.field, self@.piece, 1);
            lemma_reach_leaves_room(piece);
        }
        if actions.rotate_clockwise {
            let rotated = piece.piece.rotation.cw();
            rotate_piece(&self.playfield, &mut piece, rotated);
        } else if actions.rotate_counter_clockwise {
            let rotated = piece.piece.rotation.ccw();
            rotate_piece(&self.playfield, &mut piece, rotated);
        }
        assert(piece == self@.apply_moves(actions).piece);
        if actions.hard_drop {
            if actions.hold {
                return true;
            }
            drop_piece(&self.playfield, &mut piece, Playfield::TOTAL_HEIGHT);
            return fits_in_playfield(piece);
        }
        let gravity = if actions.soft_drop {
            self.soft_drop_gravity
        } else {
            self.gravity
        };
        match gravity {
            Gravity::TicksPerRow(tpr) => {
                if self.ticks_since_drop >= tpr {
                    let mut dropped = piece;
                    if drop_piece(&self.playfield, &mut dropped, 1) == 0 {
                        return fits_in_playfield(piece);
                    }
                }
                true
            },
            Gravity::RowsPerTick(_) => true,
        }
    }

    /* * * * * * * * * *
     * Engine actions. *
     * * * * * * * * * */

    /// Advances the engine by one tick: counts the input, then applies a
    /// hold, or else a move, a rotation and gravity.
    pub fn tick(&mut self)
        requires
            old(self).valid(),
            old(self).ready(),
        ensures
            final(self).valid(),
            final(self)@ == old(self)@.tick(final(self)@.queue[4]),
    {
        let actions = self.get_actions();
        if !self.apply_hold(&actions) {
            self.apply_piece_move(&actions);
            self.apply_piece_rotation(&actions);
            self.apply_gravity(&actions);
        }
    }

    /// Processes input and returns the set of actions to perform on this
    /// tick.
    fn get_actions(&mut self) -> (actions: ActionSet)
        requires
            old(self).valid(),
            old(self)@.durations.countable(old(self)@.pressed),
        ensures
            final(self).valid(),
            final(self)@ == old(self)@.process_input(),
            actions == old(self)@.actions(),
    {
        process_input(&mut self.current_tick_inputs, &mut self.current_inputs)
    }

    /// Attempts to hold the current piece if it is one of the specified
    /// actions. Returns whether or not the hold was successful.
    fn apply_hold(&mut self, actions: &ActionSet) -> (held: bool)
        requires
            old(self).valid(),
        ensures
            final(self).valid(),
            held == old(self)@.holds(*actions),
            held ==> final(self)@ == (PlainView {
                hold_available: false,
                ..old(self)@.hold_piece(final(self)@.queue[4])
            }),
            !held ==> final(self)@ == old(self)@,
    {
        if actions.contains(Action::Hold) {
            if self.is_hold_available {
                self.hold_piece();
                self.is_hold_available = false;
                return true;
            }
        }
        false
    }

    /// Holds the current piece. Swaps with the current hold piece, if it
    /// exists, or brings the next piece into play if there is none.
    pub fn hold_piece(&mut self)
        requires
            old(self).valid(),
        ensures
            final(self).valid(),
            final(self)@ == old(self)@.hold_piece(final(self)@.queue[4]),
    {
        let current_tetromino = *self.current_piece.piece.get_shape();

        match self.hold_piece {
            Option::Some(piece) => {
                proof {
                    lemma_low_piece_is_in_reach(CurrentPiece::spawned(piece));
                }
                self.current_piece = CurrentPiece::new(piece)
            },
            Option::None => self.next_piece(),
        }
        self.hold_piece = Option::Some(current_tetromino);
    }

    /// Applies a move if contained in the specified action set. Left moves
    /// are given priority over right moves.
    fn apply_piece_move(&mut self, actions: &ActionSet)
        requires
            old(self).valid(),
        ensures
            final(self).valid(),
            final(self)@ == old(self)@.apply_piece_move(*actions),
    {
        if actions.contains(Action::MoveLeft) {
            self.move_piece(-1);
        } else if actions.contains(Action::MoveRight) {
            self.move_piece(1);
        }
    }

    /// Applies a rotation if contained in the specified action set.
    /// Clockwise rotation is given priority over counter-clockwise rotation.
    fn apply_piece_rotation(&mut self, actions: &ActionSet)
        requires
            old(self).valid(),
        ensures
            final(self).valid(),
            final(self)@ == old(self)@.apply_piece_rotation(*actions),
    {
        if actions.contains(Action::RotateClockwise) {
            self.rotate_piece_cw();
        } else if actions.contains(Action::RotateCounterClockwise) {
            self.rotate_piece_ccw();
        }
    }

    /// Applies gravity, given the specified action set.
    fn apply_gravity(&mut self, actions: &ActionSet)
        requires
            old(self).valid(),
            actions.hard_drop && !actions.hold ==> fits(
                after_drop(old(self)@.field, old(self)@.piece, 40),
            ),
            !actions.hard_drop && old(self)@.lands(*actions) ==> fits(old(self)@.piece),
        ensures
            final(self).valid(),
            final(self)@ == old(self)@.apply_gravity(*actions, final(self)@.queue[4]),
    {
        proof {
            reveal(PlainView::apply_gravity);
            lemma_free_steps_stop_at_first_collision(
                self@.field,
                self@.piece.piece,
                self@.piece.row as int,
                self@.piece.col as int,
                -1,
                0,
                1,
            );
        }
        // Handle hard drop.
        if actions.contains(Action::HardDrop) {
            // Do not apply hard drop if a hold was asked for on this tick.
            if !actions.contains(Action::Hold) {
                self.drop(Playfield::TOTAL_HEIGHT);
                self.lock_clear_next();
                self.ticks_since_drop = 0;
            }
            return;
        }
        let gravity = if actions.contains(Action::SoftDrop) {
            self.soft_drop_gravity
        } else {
            self.gravity
        };

        // Handle normal gravity.
        match gravity {
            Gravity::TicksPerRow(tpr) => {
                if self.ticks_since_drop >= tpr {
                    if let DropResult::Collision = self.drop_one() {
                        self.lock_clear_next();
                    }
                    self.ticks_since_drop = 0;
                } else {
                    self.ticks_since_drop += 1;
                }
            },
            Gravity::RowsPerTick(_) => {},
        }
    }

    /// Sets the next current piece.
    pub fn next_piece(&mut self)
        requires
            old(self).valid(),
        ensures
            final(self).valid(),
            final(self)@ == old(self)@.next_piece(final(self)@.queue[4]),
    {
        let ghost queue = self.next_pieces@;
        let piece = self.next_pieces.pop_front().unwrap();
        proof {
            lemma_low_piece_is_in_reach(CurrentPiece::spawned(piece));
        }
        self.current_piece = CurrentPiece::new(piece);
        let drawn = self.tetromino_generator.next();
        self.next_pieces.push_back(drawn);
        self.is_hold_available = true;
        proof {
            assert(queue.subrange(1, queue.len() as int) =~= queue.skip(1));
            assert(self.next_pieces@ =~= queue.skip(1).push(drawn));
        }
    }

    /// Returns whether or not there is a collision between the playfield and
    /// the current piece.
    pub fn has_collision(&self) -> (b: bool)
        ensures
            b == collides(self@.field, self@.piece),
    {
        self.has_collision_with_piece(self.current_piece)
    }

    /// Returns whether or not there would be a collision between the
    /// playfield and the specified piece.
    pub fn has_collision_with_piece(&self, piece: CurrentPiece) -> (b: bool)
        ensures
            b == collides(self@.field, piece),
    {
        has_collision_with_piece(&self.playfield, piece)
    }

    /// Drops the current piece by one row if it does not result in a
    /// collision.
    pub fn drop_one(&mut self) -> (result: DropResult)
        requires
            old(self).valid(),
        ensures
            final(self).valid(),
            result == (if rows_dropped(old(self)@.field, old(self)@.piece, 1) == 1 {
                DropResult::Success
            } else {
                DropResult::Collision
            }),
            final(self)@ == (PlainView {
                piece: after_drop(old(self)@.field, old(self)@.piece, 1),
                ..old(self)@
            }),
    {
        self.drop(1)
    }

    /// Drops the current piece by up to the specified number of rows, or
    /// until there is a collision.
    pub fn drop(&mut self, n_rows: u8) -> (result: DropResult)
        requires
            old(self).valid(),
        ensures
            final(self).valid(),
            result == (if rows_dropped(old(self)@.field, old(self)@.piece, n_rows as nat)
                == n_rows {
                DropResult::Success
            } else {
                DropResult::Collision
            }),
            final(self)@ == (PlainView {
                piece: after_drop(old(self)@.field, old(self)@.piece, n_rows as nat),
                ..old(self)@
            }),
    {
        proof {
            lemma_drop_keeps_reach(self@.field, self@.piece, n_rows as nat);
        }
        if drop_piece(&self.playfield, &mut self.current_piece, n_rows) == n_rows {
            DropResult::Success
        } else {
            DropResult::Collision
        }
    }

    /// Locks the current piece into place, clears rows if necessary, then
    /// brings the next piece into play.
    fn lock_clear_next(&mut self)
        requires
            old(self).valid(),
            fits(old(self)@.piece),
        ensures
            final(self).valid(),
            final(self)@ == old(self)@.lock_clear_next(final(self)@.queue[4]),
    {
        self.lock();
        self.clear_rows();
        self.next_piece();
    }

    /// Locks the current piece into its current location.
    pub fn lock(&mut self)
        requires
            old(self).valid(),
            fits(old(self)@.piece),
        ensures
            final(self).valid(),
            final(self)@ == (PlainView {
                field: locked(old(self)@.field, old(self)@.piece),
                ..old(self)@
            }),
    {
        lock_piece(&mut self.playfield, self.current_piece);
        proof {
            self.playfield.lemma_view_is_grid();
        }
    }

    /// Clears any rows that are full and drops blocks down.
    pub fn clear_rows(&mut self)
        requires
            old(self).valid(),
        ensures
            final(self).valid(),
            final(self)@ == (PlainView { field: compacted(old(self)@.field), ..old(self)@ }),
    {
        clear_rows(&mut self.playfield);
        proof {
            self.playfield.lemma_view_is_grid();
        }
    }

    /// Moves the current piece horizontally by up to the specified amount.
    pub fn move_piece(&mut self, col_offset: i8)
        requires
            old(self).valid(),
            col_offset > i8::MIN,
        ensures
            final(self).valid(),
            final(self)@ == (PlainView {
                piece: after_move(old(self)@.field, old(self)@.piece, col_offset as int),
                ..old(self)@
            }),
    {
        proof {
            lemma_move_keeps_reach(self@.field, self@.piece, col_offset as int);
        }
        move_piece(&self.playfield, &mut self.current_piece, col_offset);
    }

    /// Rotates the current piece clockwise.
    pub fn rotate_piece_cw(&mut self)
        requires
            old(self).valid(),
        ensures
            final(self).valid(),
            final(self)@ == (PlainView {
                piece: after_rotation(
                    old(self)@.field,
                    old(self)@.piece,
                    old(self)@.piece.piece.rotation.cw(),
                ),
                ..old(self)@
            }),
    {
        let rotation = self.current_piece.piece.rotation.cw();
        self.rotate_piece(rotation)
    }

    /// Rotates the current piece counter-clockwise.
    pub fn rotate_piece_ccw(&mut self)
        requires
            old(self).valid(),
        ensures
            final(self).valid(),
            final(self)@ == (PlainView {
                piece: after_rotation(
                    old(self)@.field,
                    old(self)@.piece,
                    old(self)@.piece.piece.rotation.ccw(),
                ),
                ..old(self)@
            }),
    {
        let rotation = self.current_piece.piece.rotation.ccw();
        self.rotate_piece(rotation)
    }

    /// Rotates the current piece and applies a wall kick, if possible.
    /// Otherwise, does nothing.
    fn rotate_piece(&mut self, rotated: Rotation)
        requires
            old(self).valid(),
            quarter_apart(old(self)@.piece.piece.rotation, rotated),
        ensures
            final(self).valid(),
            final(self)@ == (PlainView {
                piece: after_rotation(old(self)@.field, old(self)@.piece, rotated),
                ..old(self)@
            }),
    {
        proof {
            lemma_rotation_keeps_reach(self@.field, self@.piece, rotated);
            lemma_reach_leaves_room(self@.piece);
        }
        rotate_piece(&self.playfield, &mut self.current_piece, rotated);
    }

    /* * * * * * * * * *
     * Player inputs.  *
     * * * * * * * * * */

    fn input_action(&mut self, action: Action)
        ensures
            final(self)@ == old(self)@.signalled(action),
            old(self).valid() ==> final(self).valid(),
    {
        self.current_tick_inputs.insert(action);
    }

    pub fn input_move_left(&mut self)
        ensures
            final(self)@ == old(self)@.signalled(Action::MoveLeft),
            old(self).valid() ==> final(self).valid(),
    {
        self.input_action(Action::MoveLeft);
    }

    pub fn input_move_right(&mut self)
        ensures
            final(self)@ == old(self)@.signalled(Action::MoveRight),
            old(self).valid() ==> final(self).valid(),
    {
        self.input_action(Action::MoveRight);
    }

    pub fn input_rotate_cw(&mut self)
        ensures
            final(self)@ == old(self)@.signalled(Action::RotateClockwise),
            old(self).valid() ==> final(self).valid(),
    {
        self.input_action(Action::RotateClockwise);
    }

    pub fn input_rotate_ccw(&mut self)
        ensures
            final(self)@ == old(self)@.signalled(Action::RotateCounterClockwise),
            old(self).valid() ==> final(self).valid(),
    {
        self.input_action(Action::RotateCounterClockwise);
    }

    pub fn input_soft_drop(&mut self)
        ensures
            final(self)@ == old(self)@.signalled(Action::SoftDrop),
            old(self).valid() ==> final(self).valid(),
    {
        self.input_action(Action::SoftDrop);
    }

    pub fn input_hard_drop(&mut self)
        ensures
            final(self)@ == old(self)@.signalled(Action::HardDrop),
            old(self).valid() ==> final(self).valid(),
    {
        self.input_action(Action::HardDrop);
    }

    pub fn input_hold(&mut self)
        ensures
            final(self)@ == old(self)@.signalled(Action::Hold),
            old(self).valid() ==> final(self).valid(),
    {
        self.input_action(Action::Hold);
    }
}

} // verus!
