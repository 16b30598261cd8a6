//! The base engine: a tick-driven state machine over the playfield, the
//! current piece, the hold slot and the queue of upcoming pieces.
//!
//! Each tick first turns the buffered input into the actions that take
//! effect, then does the work of the state that the engine is in:
//!
//! * `Spawn`: the new piece appears, or the game is over where it collides.
//! * `Falling`: the player's actions are applied, then gravity.
//! * `Lock`: the piece rests on something; it is locked when the lock delay
//!   has passed, unless the player moves it on.
//! * `LineClear`: full rows are waiting to be cleared; nothing else happens.
//! * `TopOut`: the game is over.
//!
//! What a tick does is stated over the model of the engine, in
//! [`crate::engine::model`].

use std::collections::VecDeque;
use vstd::prelude::*;
use crate::engine::collision::{
    after_drop, after_move, collides, columns_moved, drop_piece, fits, fits_in_playfield,
    free_steps, has_collision_with_piece, is_in_lock_position, lock_piece, locked, move_piece,
    resting, rows_dropped,
};
use crate::engine::generator::{is_full_bag, BagGenerator, TetrominoGenerator};
use crate::engine::gravity::Gravity;
use crate::engine::input::{process_input, Action, ActionSet, InputDurations};
use crate::engine::kick::{first_fit, quarter_apart, rotate_piece};
use crate::engine::model::{
    lemma_input_leaves_the_board, lemma_moves_draw_nothing, lemma_valid_counts, EngineView,
};
use crate::engine::reach::{
    lemma_drop_keeps_reach, lemma_low_piece_is_in_reach, lemma_move_keeps_reach,
    lemma_reach_leaves_room, lemma_rotation_keeps_reach,
};
use crate::engine::rows::{
    clear_rows, compacted, contains_full_rows, full_row_count, has_full_row,
};
use crate::engine::t_spin::{detect_t_spin, detected, TSpin, TSpinInternal};
use crate::engine::CurrentPiece;
use crate::piece::{Rotation, Tetromino};
use crate::playfield::{Grid, Playfield};

verus! {

/// The number of ticks that a resting piece is given before it is locked.
pub const LOCK_DELAY: u32 = 30;

/// The number of ticks that full rows stay before they are cleared.
pub const LINE_CLEAR_DELAY: u32 = 30;

/// The number of upcoming pieces that the engine shows.
pub const NEXT_PIECES: usize = 5;

/// By how much a soft drop multiplies gravity.
pub const SOFT_DROP_FACTOR: u8 = 20;

/// The state of the engine, with the number of ticks spent in it where that
/// matters.
#[derive(Clone, Copy, PartialEq, Eq, Debug, Structural)]
pub enum State {
    Spawn,
    Falling(u32),
    Lock(u32),
    LineClear(u32),
    TopOut,
}

/// Something that the engine tells its observers.
#[derive(Clone, Copy, PartialEq, Eq, Debug, Structural)]
pub enum Notification {
    /// A piece was locked, with this kind of T-spin.
    Lock(TSpin),
    /// A soft drop moved the piece down by this many rows.
    SoftDrop(u8),
    /// A hard drop moved the piece down by this many rows.
    HardDrop(u8),
    /// This many full rows were cleared.
    LineClear(u8),
}

/// Whoever wants to be told what happens in the engine. Every method does
/// nothing unless it is overridden.
pub trait BaseEngineObserver {
    fn on_lock(&mut self, t_spin: TSpin) {
    }

    fn on_soft_drop(&mut self, n_rows: u8) {
    }

    fn on_hard_drop(&mut self, n_rows: u8) {
    }

    fn on_line_clear(&mut self, n_rows: u8) {
    }
}

/// What every engine offers to the layers that show it and feed it input.
pub trait Engine {
    /// The model of the engine.
    spec fn model(&self) -> EngineView;

    /// Whether the next tick of the engine is defined.
    spec fn ready(&self) -> bool;

    /// Advances the engine by one step and returns the state it is then in.
    fn tick(&mut self) -> (state: State)
        requires
            old(self).model().valid(),
            old(self).ready(),
        ensures
            final(self).model().valid(),
            state == final(self).model().state,
    ;

    fn get_playfield(&self) -> (playfield: Playfield)
        ensures
            playfield@ == self.model().field,
    ;

    fn get_current_piece(&self) -> (piece: CurrentPiece)
        ensures
            piece == self.model().piece,
    ;

    fn get_hold_piece(&self) -> (hold: Option<Tetromino>)
        ensures
            hold == self.model().hold,
    ;

    fn get_next_pieces(&self) -> (pieces: Vec<Tetromino>)
        ensures
            pieces@ == self.model().queue,
    ;

    fn input_move_left(&mut self)
        ensures
            final(self).model() == old(self).model().signalled(Action::MoveLeft),
            old(self).model().valid() ==> final(self).model().valid(),
    ;

    fn input_move_right(&mut self)
        ensures
            final(self).model() == old(self).model().signalled(Action::MoveRight),
            old(self).model().valid() ==> final(self).model().valid(),
    ;

    fn input_rotate_cw(&mut self)
        ensures
            final(self).model() == old(self).model().signalled(Action::RotateClockwise),
            old(self).model().valid() ==> final(self).model().valid(),
    ;

    fn input_rotate_ccw(&mut self)
        ensures
            final(self).model() == old(self).model().signalled(Action::RotateCounterClockwise),
            old(self).model().valid() ==> final(self).model().valid(),
    ;

    fn input_soft_drop(&mut self)
        ensures
            final(self).model() == old(self).model().signalled(Action::SoftDrop),
            old(self).model().valid() ==> final(self).model().valid(),
    ;

    fn input_hard_drop(&mut self)
        ensures
            final(self).model() == old(self).model().signalled(Action::HardDrop),
            old(self).model().valid() ==> final(self).model().valid(),
    ;

    fn input_hold(&mut self)
        ensures
            final(self).model() == old(self).model().signalled(Action::Hold),
            old(self).model().valid() ==> final(self).model().valid(),
    ;
}

/// The main game engine.
pub struct BaseEngine {
    playfield: Playfield,
    current_piece: CurrentPiece,
    tetromino_generator: Box<dyn TetrominoGenerator>,
    hold_piece: Option<Tetromino>,
    is_hold_available: bool,
    current_tick_inputs: ActionSet,
    current_inputs: InputDurations,
    gravity: Gravity,
    next_pieces: VecDeque<Tetromino>,
    state: State,
    current_t_spin: TSpinInternal,
    observers: Vec<Box<dyn BaseEngineObserver>>,
    notifications: Vec<Notification>,
}

impl View for BaseEngine {
    type V = EngineView;

    closed spec fn view(&self) -> EngineView {
        EngineView {
            field: self.playfield@,
            piece: self.current_piece,
            hold: self.hold_piece,
            hold_available: self.is_hold_available,
            pressed: self.current_tick_inputs,
            durations: self.current_inputs,
            gravity: self.gravity,
            queue: self.next_pieces@,
            state: self.state,
            spin: self.current_t_spin,
            notifications: self.notifications@,
        }
    }
}

impl Engine for BaseEngine {
    open spec fn model(&self) -> EngineView {
        self@
    }

    open spec fn ready(&self) -> bool {
        self@.ready()
    }

    /// Advances the engine by one tick: counts the input, then does the work
    /// of the state that the engine is in.
    fn tick(&mut self) -> (state: State)
        ensures
            final(self)@ == old(self)@.tick(final(self)@.queue[NEXT_PIECES - 1]),
            final(self).observer_count() == old(self).observer_count(),
    {
        let ghost before = self@;
        // Always process input so that hold durations are accurate.
        let actions = self.process_input();
        proof {
            lemma_input_leaves_the_board(before, actions);
        }
        match self.state {
            State::Spawn => self.tick_spawn(),
            State::Falling(_) => self.tick_falling(&actions),
            State::Lock(_) => self.tick_lock(&actions),
            State::LineClear(_) => self.tick_line_clear(),
            State::TopOut => (),
        }
        self.state
    }

    fn get_playfield(&self) -> (playfield: Playfield) {
        self.playfield
    }

    fn get_current_piece(&self) -> (piece: CurrentPiece) {
        self.current_piece
    }

    fn get_hold_piece(&self) -> (hold: Option<Tetromino>) {
        self.hold_piece
    }

    fn get_next_pieces(&self) -> (pieces: Vec<Tetromino>) {
        let mut pieces: Vec<Tetromino> = Vec::new();
        let mut i: usize = 0;
        while i < self.next_pieces.len()
            invariant
                i <= self.next_pieces.len(),
                pieces@ == self.next_pieces@.take(i as int),
            decreases self.next_pieces.len() - i,
        {
            pieces.push(self.next_pieces[i]);
            assert(self.next_pieces@.take(i as int).push(self.next_pieces@[i as int])
                =~= self.next_pieces@.take(i + 1));
            i += 1;
        }
        assert(self.next_pieces@.take(self.next_pieces.len() as int) =~= self.next_pieces@);
        pieces
    }

    fn input_move_left(&mut self)
        ensures
            final(self).observer_count() == old(self).observer_count(),
    {
        self.input_action(Action::MoveLeft);
    }

    fn input_move_right(&mut self)
        ensures
            final(self).observer_count() == old(self).observer_count(),
    {
        self.input_action(Action::MoveRight);
    }

    fn input_rotate_cw(&mut self)
        ensures
            final(self).observer_count() == old(self).observer_count(),
    {
        self.input_action(Action::RotateClockwise);
    }

    fn input_rotate_ccw(&mut self)
        ensures
            final(self).observer_count() == old(self).observer_count(),
    {
        self.input_action(Action::RotateCounterClockwise);
    }

    fn input_soft_drop(&mut self)
        ensures
            final(self).observer_count() == old(self).observer_count(),
    {
        self.input_action(Action::SoftDrop);
    }

    fn input_hard_drop(&mut self)
        ensures
            final(self).observer_count() == old(self).observer_count(),
    {
        self.input_action(Action::HardDrop);
    }

    fn input_hold(&mut self)
        ensures
            final(self).observer_count() == old(self).observer_count(),
    {
        self.input_action(Action::Hold);
    }
}

impl BaseEngine {
    /// What holds of an engine at all times.
    pub open spec fn valid(&self) -> bool {
        self@.valid()
    }

    /// The observers of this engine, in the order in which they were added.
    pub closed spec fn observers(&self) -> Seq<Box<dyn BaseEngineObserver>> {
        self.observers@
    }

    /// The number of observers of this engine.
    pub closed spec fn observer_count(&self) -> nat {
        self.observers@.len()
    }

    /// Creates a new engine with the specified tetromino generator: the
    /// first piece that it hands out comes into play, the next five wait in
    /// the queue.
    pub fn with_tetromino_generator(tetromino_generator: Box<dyn TetrominoGenerator>) -> (engine:
        BaseEngine)
        ensures
            engine.valid(),
            engine@ == EngineView::initial(engine@.piece.piece.shape, engine@.queue),
            engine.observer_count() == 0,
    {
        let mut tetromino_generator = tetromino_generator;
        let first = tetromino_generator.next();
        let mut next_pieces: VecDeque<Tetromino> = VecDeque::with_capacity(NEXT_PIECES);
        let mut i: usize = 0;
        while i < NEXT_PIECES
            invariant
                i <= NEXT_PIECES,
                next_pieces@.len() == i,
            decreases NEXT_PIECES - i,
        {
            next_pieces.push_back(tetromino_generator.next());
            i += 1;
        }
        BaseEngine::assemble(tetromino_generator, first, next_pieces)
    }

    /// Creates a new engine with default settings: the pieces come from a
    /// [`BagGenerator`], so the first piece and the five in the queue are six
    /// different shapes.
    pub fn new() -> (engine: BaseEngine)
        ensures
            engine.valid(),
            engine@ == EngineView::initial(engine@.piece.piece.shape, engine@.queue),
            engine.observer_count() == 0,
            (seq![engine@.piece.piece.shape] + engine@.queue).no_duplicates(),
    {
        let mut generator = BagGenerator::new();
        let ghost bag = generator@;
        let first = generator.next();
        let mut next_pieces: VecDeque<Tetromino> = VecDeque::with_capacity(NEXT_PIECES);
        let mut i: usize = 0;
        assert(seq![first] + next_pieces@ + generator@ =~= bag);
        while i < NEXT_PIECES
            invariant
                i <= NEXT_PIECES,
                next_pieces@.len() == i,
                is_full_bag(bag),
                seq![first] + next_pieces@ + generator@ == bag,
            decreases NEXT_PIECES - i,
        {
            let ghost before = next_pieces@;
            let ghost left = generator@;
            let piece = generator.next();
            next_pieces.push_back(piece);
            assert(seq![first] + next_pieces@ + generator@ =~= seq![first] + before + left);
            i += 1;
        }
        proof {
            let six = seq![first] + next_pieces@;
            assert(six =~= bag.take(6));
        }
        BaseEngine::assemble(Box::new(generator), first, next_pieces)
    }

    /// Puts an engine together from its generator and the pieces drawn from
    /// it.
    fn assemble(
        tetromino_generator: Box<dyn TetrominoGenerator>,
        first: Tetromino,
        next_pieces: VecDeque<Tetromino>,
    ) -> (engine: BaseEngine)
        requires
            next_pieces@.len() == NEXT_PIECES,
        ensures
            engine.valid(),
            engine@ == EngineView::initial(first, next_pieces@),
            engine.observer_count() == 0,
    {
        proof {
            reveal(EngineView::valid);
        }
        let engine = BaseEngine {
            playfield: Playfield::new(),
            current_piece: CurrentPiece::new(first),
            tetromino_generator,
            hold_piece: Option::None,
            is_hold_available: true,
            current_tick_inputs: ActionSet::new(),
            current_inputs: InputDurations::new(),
            gravity: Gravity::TicksPerRow(30),
            next_pieces,
            state: State::Falling(1),
            current_t_spin: TSpinInternal::NoSpin,
            observers: Vec::new(),
            notifications: Vec::new(),
        };
        proof {
            engine.playfield.lemma_view_is_grid();
            lemma_low_piece_is_in_reach(CurrentPiece::spawned(first));
        }
        engine
    }

    /// Adds an observer, to be told of everything from now on, after the
    /// observers that were added before it.
    pub fn add_observer(&mut self, observer: Box<dyn BaseEngineObserver>)
        ensures
            final(self)@ == old(self)@,
            old(self).valid() ==> final(self).valid(),
            final(self).observers() == old(self).observers().push(observer),
            final(self).observer_count() == old(self).observer_count() + 1,
    {
        proof {
            reveal(EngineView::valid);
        }
        self.observers.push(observer);
        proof {
            vstd::seq::axiom_seq_push_len(old(self).observers@, observer);
        }
    }

    /// Tells every observer something, and records it.
    fn notify_observers(&mut self, notification: Notification)
        ensures
            final(self)@ == old(self)@.notified(notification),
            old(self).valid() ==> final(self).valid(),
            final(self).observer_count() == old(self).observer_count(),
    {
        proof {
            reveal(EngineView::valid);
        }
        self.notifications.push(notification);
        let mut i: usize = 0;
        while i < self.observers.len()
            invariant
                self@ == old(self)@.notified(notification),
                self.observers@.len() == old(self).observers@.len(),
            decreases self.observers.len() - i,
        {
            match notification {
                Notification::Lock(t_spin) => self.observers[i].on_lock(t_spin),
                Notification::SoftDrop(n_rows) => self.observers[i].on_soft_drop(n_rows),
                Notification::HardDrop(n_rows) => self.observers[i].on_hard_drop(n_rows),
                Notification::LineClear(n_rows) => self.observers[i].on_line_clear(n_rows),
            }
            i += 1;
        }
    }

    /// The state that the engine is in.
    pub fn get_state(&self) -> (state: State)
        ensures
            state == self@.state,
    {
        self.state
    }

    /// What the observers were told during the last tick, in order.
    pub fn get_notifications(&self) -> (notifications: &Vec<Notification>)
        ensures
            notifications@ == self@.notifications,
    {
        &self.notifications
    }

    pub fn set_gravity(&mut self, gravity: Gravity)
        ensures
            final(self)@ == (EngineView { gravity, ..old(self)@ }),
            old(self).valid() ==> final(self).valid(),
            final(self).observer_count() == old(self).observer_count(),
    {
        proof {
            reveal(EngineView::valid);
        }
        self.gravity = gravity;
    }

    /// Replaces the playfield.
    pub fn set_playfield(&mut self, playfield: Playfield)
        ensures
            final(self)@ == (EngineView { field: playfield@, ..old(self)@ }),
            final(self).observer_count() == old(self).observer_count(),
            old(self).valid() ==> final(self).valid(),
    {
        proof {
            reveal(EngineView::valid);
            playfield.lemma_view_is_grid();
        }
        self.playfield = playfield;
    }

    /// Returns whether or not the next tick is defined.
    pub fn is_ready(&self) -> (ready: bool)
        requires
            self.valid(),
        ensures
            ready == self.ready(),
    {
        proof {
            reveal(EngineView::valid);
            reveal(EngineView::apply_moves);
        }
        if !self.current_inputs.can_count(&self.current_tick_inputs) {
            return false;
        }
        let mut pressed = self.current_tick_inputs;
        let mut durations = self.current_inputs;
        let actions = process_input(&mut pressed, &mut durations);
        let hard_drops = !(actions.hold && self.is_hold_available) && actions.hard_drop;
        match self.state {
            State::Falling(n) => {
                if n == u32::MAX {
                    return false;
                }
                if !hard_drops {
                    return true;
                }
            },
            State::Lock(n) => {
                if n == LOCK_DELAY {
                    return fits_in_playfield(self.current_piece);
                }
                if !hard_drops {
                    return true;
                }
            },
            _ => {
                return true;
            },
        }
        // The tick drops the piece hard: find where it is locked.
        let mut piece = self.current_piece;
        if actions.move_left {
            move_piece(&self.playfield, &mut piece, -1);
        } else if actions.move_right {
            move_piece(&self.playfield, &mut piece, 1);
        }
        proof {
            lemma_move_keeps_reach(self@.field, self@.piece, -1);
            lemma_move_keeps_reach(self@.field, self@.piece, 1);
            lemma_one_column(self@.field, self@.piece, -1);
            lemma_one_column(self@.field, self@.piece, 1);
            lemma_reach_leaves_room(piece);
        }
        let ghost moved = piece;
        assert(moved == self@.apply_piece_move(actions).piece);
        if actions.rotate_clockwise {
            let rotated = piece.piece.rotation.cw();
            rotate_piece(&self.playfield, &mut piece, rotated);
        } else if actions.rotate_counter_clockwise {
            let rotated = piece.piece.rotation.ccw();
            rotate_piece(&self.playfield, &mut piece, rotated);
        }
        assert(piece == self@.apply_piece_move(actions).apply_piece_rotation(actions).piece);
        drop_piece(&self.playfield, &mut piece, Playfield::TOTAL_HEIGHT);
        assert(piece == self@.apply_moves(actions).piece);
        fits_in_playfield(piece)
    }

    /* * * * * * * * * *
     * Engine actions. *
     * * * * * * * * * */

    /// Processes input and returns the set of actions to perform on this
    /// tick. The notifications of the last tick are forgotten.
    fn process_input(&mut self) -> (actions: ActionSet)
        requires
            old(self)@.durations.countable(old(self)@.pressed),
        ensures
            final(self)@ == old(self)@.process_input(),
            actions == old(self)@.actions(),
            final(self).observer_count() == old(self).observer_count(),
    {
        self.notifications = Vec::new();
        process_input(&mut self.current_tick_inputs, &mut self.current_inputs)
    }

    /// Moves the engine to a state.
    fn set_state(&mut self, state: State)
        requires
            old(self).valid(),
            state matches State::Lock(n) ==> 1 <= n <= LOCK_DELAY,
            state matches State::LineClear(n) ==> 1 <= n <= LINE_CLEAR_DELAY,
        ensures
            final(self).valid(),
            final(self)@ == (EngineView { state, ..old(self)@ }),
            final(self).observer_count() == old(self).observer_count(),
    {
        proof {
            reveal(EngineView::valid);
        }
        self.state = state;
    }

    fn tick_spawn(&mut self)
        requires
            old(self).valid(),
        ensures
            final(self).valid(),
            final(self)@ == old(self)@.tick_spawn(),
            final(self).observer_count() == old(self).observer_count(),
    {
        proof {
            reveal(EngineView::valid);
        }
        self.state = if self.has_collision() {
            State::TopOut
        } else {
            State::Falling(1)
        };

        self.current_t_spin = TSpinInternal::NoSpin;
    }

    fn tick_falling(&mut self, actions: &ActionSet)
        requires
            old(self).valid(),
            old(self)@.state matches State::Falling(n) && n < u32::MAX,
            !old(self)@.holds(*actions) && actions.hard_drop ==> fits(
                old(self)@.apply_moves(*actions).piece,
            ),
        ensures
            final(self).valid(),
            old(self)@.state matches State::Falling(n) && final(self)@ == old(self)@.tick_falling(
                n,
                *actions,
                final(self)@.queue[NEXT_PIECES - 1],
            ),
            final(self).observer_count() == old(self).observer_count(),
    {
        proof {
            lemma_valid_counts(self@);
        }
        proof {
            reveal(EngineView::tick_falling);
        }
        if let State::Falling(n) = self.state {
            let applied_actions = self.apply_actions(actions);
            let ghost acted = self@;

            if applied_actions.contains(Action::HardDrop) {
                self.apply_lock();
                proof {
                    lemma_moves_draw_nothing(
                        old(self)@,
                        *actions,
                        acted.queue[NEXT_PIECES - 1],
                        self@.queue[NEXT_PIECES - 1],
                    );
                }
            } else if applied_actions.contains(Action::Hold) {
                self.set_state(State::Falling(1));
            } else {
                self.fall(actions);
            }
        }
    }

    /// Applies gravity to a falling piece, and moves on to the state that
    /// follows.
    fn fall(&mut self, actions: &ActionSet)
        requires
            old(self).valid(),
            old(self)@.state matches State::Falling(n) && n < u32::MAX,
        ensures
            final(self).valid(),
            old(self)@.state matches State::Falling(n) && final(self)@ == old(self)@.fall(
                n,
                *actions,
            ),
            final(self)@.queue == old(self)@.queue,
            final(self).observer_count() == old(self).observer_count(),
    {
        proof {
            reveal(EngineView::fall);
        }
        if let State::Falling(n) = self.state {
            let dropped = self.apply_gravity(actions);
            if self.is_in_lock_position() {
                self.set_state(State::Lock(1));
            } else if dropped {
                self.set_state(State::Falling(1));
            } else {
                self.set_state(State::Falling(n + 1));
            }
        }
    }

    fn tick_lock(&mut self, actions: &ActionSet)
        requires
            old(self).valid(),
            old(self)@.state is Lock,
            old(self)@.state == State::Lock(LOCK_DELAY) ==> fits(old(self)@.piece),
            old(self)@.state != State::Lock(LOCK_DELAY) && !old(self)@.holds(*actions)
                && actions.hard_drop ==> fits(old(self)@.apply_moves(*actions).piece),
        ensures
            final(self).valid(),
            old(self)@.state matches State::Lock(n) && final(self)@ == old(self)@.tick_lock(
                n,
                *actions,
                final(self)@.queue[NEXT_PIECES - 1],
            ),
            final(self).observer_count() == old(self).observer_count(),
    {
        proof {
            lemma_valid_counts(self@);
        }
        proof {
            reveal(EngineView::tick_lock);
        }
        if let State::Lock(n) = self.state {
            if n == LOCK_DELAY {
                self.apply_lock();
            } else {
                let applied_actions = self.apply_actions(actions);
                let ghost acted = self@;

                if applied_actions.contains(Action::Hold) {
                    self.set_state(State::Falling(1));
                } else if applied_actions.contains(Action::HardDrop) {
                    self.apply_lock();
                    proof {
                        lemma_moves_draw_nothing(
                            old(self)@,
                            *actions,
                            acted.queue[NEXT_PIECES - 1],
                            self@.queue[NEXT_PIECES - 1],
                        );
                    }
                } else if applied_actions.contains(Action::MoveLeft) || applied_actions.contains(
                    Action::MoveRight,
                ) || applied_actions.contains(Action::RotateClockwise) || applied_actions.contains(
                    Action::RotateCounterClockwise,
                ) {
                    if self.is_in_lock_position() {
                        self.set_state(State::Lock(1));
                    } else {
                        self.set_state(State::Falling(1));
                    }
                } else {
                    self.set_state(State::Lock(n + 1));
                }
            }
        }
    }

    fn tick_line_clear(&mut self)
        requires
            old(self).valid(),
            old(self)@.state is LineClear,
        ensures
            final(self).valid(),
            old(self)@.state matches State::LineClear(n) && final(self)@
                == old(self)@.tick_line_clear(n, final(self)@.queue[NEXT_PIECES - 1]),
            final(self).observer_count() == old(self).observer_count(),
    {
        proof {
            lemma_valid_counts(self@);
        }
        proof {
            reveal(EngineView::tick_line_clear);
        }
        if let State::LineClear(n) = self.state {
            if n == LINE_CLEAR_DELAY {
                let n_rows = self.clear_rows();
                self.notify_observers(Notification::LineClear(n_rows));
                self.next_piece();
                self.set_state(State::Spawn);
            } else {
                self.set_state(State::LineClear(n + 1));
            }
        }
    }

    fn apply_actions(&mut self, actions: &ActionSet) -> (applied_actions: ActionSet)
        requires
            old(self).valid(),
        ensures
            final(self).valid(),
            final(self)@ == old(self)@.apply_actions(*actions, final(self)@.queue[NEXT_PIECES - 1]),
            applied_actions == old(self)@.actions_applied(*actions),
            applied_actions.hard_drop ==> !old(self)@.holds(*actions) && actions.hard_drop
                && final(self)@.piece == old(self)@.apply_moves(*actions).piece,
            final(self)@.state == old(self)@.state,
            final(self).observer_count() == old(self).observer_count(),
    {
        proof {
            reveal(EngineView::apply_actions);
            reveal(EngineView::actions_applied);
            reveal(EngineView::apply_moves);
        }
        let mut applied_actions = ActionSet::new();

        if self.apply_hold(actions) {
            applied_actions.insert(Action::Hold);
        } else {
            if let Option::Some(action) = self.apply_piece_move(actions) {
                applied_actions.insert(action);
            }
            if let Option::Some(action) = self.apply_piece_rotation(actions) {
                applied_actions.insert(action);
            }
            if let Option::Some(action) = self.apply_hard_drop(actions) {
                applied_actions.insert(action);
            }
        }

        applied_actions
    }

    /// Attempts to hold the current piece if it is one of the specified
    /// actions. Returns whether or not the hold was successful.
    fn apply_hold(&mut self, actions: &ActionSet) -> (held: bool)
        requires
            old(self).valid(),
        ensures
            final(self).valid(),
            held == old(self)@.holds(*actions),
            final(self)@ == old(self)@.apply_hold(*actions, final(self)@.queue[NEXT_PIECES - 1]),
            final(self).observer_count() == old(self).observer_count(),
    {
        proof {
            reveal(EngineView::valid);
        }
        if actions.contains(Action::Hold) && self.is_hold_available {
            self.hold_piece();
            self.is_hold_available = false;
            return true;
        }
        false
    }

    /// Holds the current piece. Swaps with the current hold piece, if it
    /// exists, or brings the next piece into play if there is none.
    pub fn hold_piece(&mut self)
        requires
            old(self).valid(),
        ensures
            final(self).valid(),
            final(self)@ == old(self)@.hold_piece(final(self)@.queue[NEXT_PIECES - 1]),
            final(self).observer_count() == old(self).observer_count(),
    {
        proof {
            reveal(EngineView::valid);
        }
        let current_tetromino = *self.current_piece.piece.get_shape();

        match self.hold_piece {
            Option::Some(piece) => {
                proof {
                    lemma_low_piece_is_in_reach(CurrentPiece::spawned(piece));
                }
                self.current_piece = CurrentPiece::new(piece)
            },
            Option::None => self.next_piece(),
        }
        self.hold_piece = Option::Some(current_tetromino);
    }

    /// Applies a move if contained in the specified action set. Left moves
    /// are given priority over right moves.
    fn apply_piece_move(&mut self, actions: &ActionSet) -> (applied: Option<Action>)
        requires
            old(self).valid(),
        ensures
            final(self).valid(),
            applied == old(self)@.move_applied(*actions),
            final(self)@ == old(self)@.apply_piece_move(*actions),
            final(self).observer_count() == old(self).observer_count(),
    {
        proof {
            reveal(EngineView::valid);
            lemma_one_column(self@.field, self@.piece, -1);
            lemma_one_column(self@.field, self@.piece, 1);
        }
        if actions.contains(Action::MoveLeft) {
            if self.move_piece(-1) == 1 {
                self.current_t_spin = TSpinInternal::NoSpin;
                return Option::Some(Action::MoveLeft);
            }
        } else if actions.contains(Action::MoveRight) && self.move_piece(1) == 1 {
            self.current_t_spin = TSpinInternal::NoSpin;
            return Option::Some(Action::MoveRight);
        }
        Option::None
    }

    /// Applies a rotation if contained in the specified action set.
    /// Clockwise rotation is given priority over counter-clockwise rotation.
    fn apply_piece_rotation(&mut self, actions: &ActionSet) -> (applied: Option<Action>)
        requires
            old(self).valid(),
        ensures
            final(self).valid(),
            applied == old(self)@.rotation_applied(*actions),
            final(self)@ == old(self)@.apply_piece_rotation(*actions),
            final(self).observer_count() == old(self).observer_count(),
    {
        if actions.contains(Action::RotateClockwise) {
            if self.rotate_piece_cw() {
                return Option::Some(Action::RotateClockwise);
            }
        } else if actions.contains(Action::RotateCounterClockwise) && self.rotate_piece_ccw() {
            return Option::Some(Action::RotateCounterClockwise);
        }
        Option::None
    }

    fn apply_hard_drop(&mut self, actions: &ActionSet) -> (applied: Option<Action>)
        requires
            old(self).valid(),
        ensures
            final(self).valid(),
            applied == (if actions.hard_drop {
                Some(Action::HardDrop)
            } else {
                None
            }),
            final(self)@ == old(self)@.apply_hard_drop(*actions),
            final(self).observer_count() == old(self).observer_count(),
    {
        proof {
            reveal(EngineView::valid);
        }
        if actions.contains(Action::HardDrop) {
            let rows = self.drop(Playfield::TOTAL_HEIGHT);
            if rows > 0 {
                self.current_t_spin = TSpinInternal::NoSpin;
            }
            self.notify_observers(Notification::HardDrop(rows));
            return Option::Some(Action::HardDrop);
        }
        Option::None
    }

    /// Returns by how many rows gravity asks the piece to drop on this tick,
    /// given the specified action set: by one row when enough ticks have
    /// passed, or by so many rows every tick.
    fn gravity_rows(&self, actions: &ActionSet) -> (n_rows: u8)
        ensures
            n_rows == self@.gravity_rows(*actions),
    {
        let gravity = if actions.contains(Action::SoftDrop) {
            self.gravity * SOFT_DROP_FACTOR
        } else {
            self.gravity
        };
        match (self.state, gravity) {
            (State::Falling(n), Gravity::TicksPerRow(tpr)) => {
                if n >= tpr as u32 {
                    1
                } else {
                    0
                }
            },
            (State::Falling(_), Gravity::RowsPerTick(rpt)) => rpt,
            _ => 0,
        }
    }

    /// Applies gravity, given the specified action set. Returns whether or
    /// not the piece moved.
    fn apply_gravity(&mut self, actions: &ActionSet) -> (dropped: bool)
        requires
            old(self).valid(),
        ensures
            final(self).valid(),
            dropped == old(self)@.gravity_drops(*actions),
            final(self)@ == old(self)@.apply_gravity(*actions),
            final(self)@.queue == old(self)@.queue,
            final(self)@.state == old(self)@.state,
            final(self).observer_count() == old(self).observer_count(),
    {
        proof {
            reveal(EngineView::valid);
            reveal(EngineView::apply_gravity);
            reveal(EngineView::gravity_drops);
        }
        let n_rows = self.drop(self.gravity_rows(actions));
        if n_rows >= 1 {
            self.current_t_spin = TSpinInternal::NoSpin;
            if actions.contains(Action::SoftDrop) {
                self.notify_observers(Notification::SoftDrop(n_rows));
            }
            return true;
        }
        false
    }

    fn apply_lock(&mut self)
        requires
            old(self).valid(),
            fits(old(self)@.piece),
        ensures
            final(self).valid(),
            final(self)@ == old(self)@.apply_lock(final(self)@.queue[NEXT_PIECES - 1]),
            final(self).observer_count() == old(self).observer_count(),
    {
        proof {
            reveal(EngineView::valid);
            reveal(EngineView::apply_lock);
        }
        self.lock();
        let t_spin = TSpin::from(&self.current_t_spin);
        self.notify_observers(Notification::Lock(t_spin));
        self.current_t_spin = TSpinInternal::NoSpin;
        if self.contains_full_rows() {
            self.next_piece();
            self.set_state(State::LineClear(1));
        } else {
            self.next_piece();
            self.set_state(State::Spawn);
        }
    }

    /// Sets the next current piece.
    pub fn next_piece(&mut self)
        requires
            old(self).valid(),
        ensures
            final(self).valid(),
            final(self)@ == old(self)@.next_piece(final(self)@.queue[NEXT_PIECES - 1]),
            final(self).observer_count() == old(self).observer_count(),
    {
        proof {
            reveal(EngineView::valid);
        }
        let ghost queue = self.next_pieces@;
        let piece = self.next_pieces.pop_front().unwrap();
        proof {
            lemma_low_piece_is_in_reach(CurrentPiece::spawned(piece));
        }
        self.current_piece = CurrentPiece::new(piece);
        let drawn = self.tetromino_generator.next();
        self.next_pieces.push_back(drawn);
        self.is_hold_available = true;
        proof {
            assert(queue.subrange(1, queue.len() as int) =~= queue.skip(1));
            assert(self.next_pieces@ =~= queue.skip(1).push(drawn));
        }
    }

    /// Returns whether or not there is a collision between the playfield and
    /// the current piece.
    pub fn has_collision(&self) -> (b: bool)
        ensures
            b == collides(self@.field, self@.piece),
    {
        self.has_collision_with_piece(self.current_piece)
    }

    /// Returns whether or not there would be a collision between the
    /// playfield and the specified piece.
    pub fn has_collision_with_piece(&self, piece: CurrentPiece) -> (b: bool)
        ensures
            b == collides(self@.field, piece),
    {
        has_collision_with_piece(&self.playfield, piece)
    }

    /// Drops the current piece by one row if it does not result in a
    /// collision.
    pub fn drop_one(&mut self) -> (dropped: u8)
        requires
            old(self).valid(),
        ensures
            final(self).valid(),
            dropped == rows_dropped(old(self)@.field, old(self)@.piece, 1),
            final(self)@ == (EngineView {
                piece: after_drop(old(self)@.field, old(self)@.piece, 1),
                ..old(self)@
            }),
            final(self).observer_count() == old(self).observer_count(),
    {
        self.drop(1)
    }

    /// Drops the current piece by up to the specified number of rows, or
    /// until there is a collision.
    pub fn drop(&mut self, n_rows: u8) -> (dropped: u8)
        requires
            old(self).valid(),
        ensures
            final(self).valid(),
            dropped == rows_dropped(old(self)@.field, old(self)@.piece, n_rows as nat),
            final(self)@ == (EngineView {
                piece: after_drop(old(self)@.field, old(self)@.piece, n_rows as nat),
                ..old(self)@
            }),
            final(self).observer_count() == old(self).observer_count(),
    {
        proof {
            reveal(EngineView::valid);
            lemma_drop_keeps_reach(self@.field, self@.piece, n_rows as nat);
        }
        drop_piece(&self.playfield, &mut self.current_piece, n_rows)
    }

    /// Returns whether or not the current piece is in a position where it
    /// can be locked into place.
    pub fn is_in_lock_position(&self) -> (b: bool)
        ensures
            b == resting(self@.field, self@.piece),
    {
        is_in_lock_position(&self.playfield, self.current_piece)
    }

    /// Locks the current piece into its current location.
    pub fn lock(&mut self)
        requires
            old(self).valid(),
            fits(old(self)@.piece),
        ensures
            final(self).valid(),
            final(self)@ == (EngineView {
                field: locked(old(self)@.field, old(self)@.piece),
                ..old(self)@
            }),
            final(self).observer_count() == old(self).observer_count(),
    {
        proof {
            reveal(EngineView::valid);
        }
        lock_piece(&mut self.playfield, self.current_piece);
        proof {
            self.playfield.lemma_view_is_grid();
        }
    }

    /// Returns whether or not at least one row is full.
    pub fn contains_full_rows(&self) -> (b: bool)
        ensures
            b == has_full_row(self@.field),
    {
        contains_full_rows(&self.playfield)
    }

    /// Clears any rows that are full and drops blocks down.
    pub fn clear_rows(&mut self) -> (cleared: u8)
        requires
            old(self).valid(),
        ensures
            final(self).valid(),
            cleared == full_row_count(old(self)@.field),
            final(self)@ == (EngineView { field: compacted(old(self)@.field), ..old(self)@ }),
            final(self).observer_count() == old(self).observer_count(),
    {
        proof {
            reveal(EngineView::valid);
        }
        let cleared = clear_rows(&mut self.playfield);
        proof {
            self.playfield.lemma_view_is_grid();
        }
        cleared
    }

    /// Moves the current piece horizontally by up to the specified amount.
    pub fn move_piece(&mut self, col_offset: i8) -> (moved: u8)
        requires
            old(self).valid(),
            col_offset > i8::MIN,
        ensures
            final(self).valid(),
            moved == columns_moved(old(self)@.field, old(self)@.piece, col_offset as int),
            final(self)@ == (EngineView {
                piece: after_move(old(self)@.field, old(self)@.piece, col_offset as int),
                ..old(self)@
            }),
            final(self).observer_count() == old(self).observer_count(),
    {
        proof {
            reveal(EngineView::valid);
            lemma_move_keeps_reach(self@.field, self@.piece, col_offset as int);
        }
        move_piece(&self.playfield, &mut self.current_piece, col_offset)
    }

    /// Rotates the current piece clockwise.
    pub fn rotate_piece_cw(&mut self) -> (rotated: bool)
        requires
            old(self).valid(),
        ensures
            final(self).valid(),
            rotated == first_fit(
                old(self)@.field,
                old(self)@.piece,
                old(self)@.piece.piece.rotation.cw(),
            ).is_some(),
            final(self)@ == old(self)@.rotate_piece(old(self)@.piece.piece.rotation.cw()),
            final(self).observer_count() == old(self).observer_count(),
    {
        let rotation = self.current_piece.piece.rotation.cw();
        self.rotate_piece(rotation)
    }

    /// Rotates the current piece counter-clockwise.
    pub fn rotate_piece_ccw(&mut self) -> (rotated: bool)
        requires
            old(self).valid(),
        ensures
            final(self).valid(),
            rotated == first_fit(
                old(self)@.field,
                old(self)@.piece,
                old(self)@.piece.piece.rotation.ccw(),
            ).is_some(),
            final(self)@ == old(self)@.rotate_piece(old(self)@.piece.piece.rotation.ccw()),
            final(self).observer_count() == old(self).observer_count(),
    {
        let rotation = self.current_piece.piece.rotation.ccw();
        self.rotate_piece(rotation)
    }

    /// Rotates the current piece and applies a wall kick, if possible.
    /// Otherwise, does nothing.
    fn rotate_piece(&mut self, rotated: Rotation) -> (done: bool)
        requires
            old(self).valid(),
            quarter_apart(old(self)@.piece.piece.rotation, rotated),
        ensures
            final(self).valid(),
            done == first_fit(old(self)@.field, old(self)@.piece, rotated).is_some(),
            final(self)@ == old(self)@.rotate_piece(rotated),
            final(self).observer_count() == old(self).observer_count(),
    {
        proof {
            reveal(EngineView::valid);
            lemma_rotation_keeps_reach(self@.field, self@.piece, rotated);
            lemma_reach_leaves_room(self@.piece);
        }
        match rotate_piece(&self.playfield, &mut self.current_piece, rotated) {
            Some(kick) => {
                // A rotation by the last wall kick stays a T-spin whatever
                // the corners say.
                if self.current_piece.piece.shape == Tetromino::T && kick == 4 {
                    self.current_t_spin = TSpinInternal::PointFive;
                }
                self.current_t_spin = self.detect_t_spin();
                true
            },
            None => false,
        }
    }

    /// Classifies the rotation that has just brought the current piece where
    /// it is.
    pub fn detect_t_spin(&self) -> (t_spin: TSpinInternal)
        ensures
            t_spin == detected(self@.field, self@.piece, self@.spin),
    {
        detect_t_spin(&self.playfield, self.current_piece, self.current_t_spin)
    }

    /* * * * * * * * * *
     * Player inputs.  *
     * * * * * * * * * */

    fn input_action(&mut self, action: Action)
        ensures
            final(self)@ == old(self)@.signalled(action),
            old(self).valid() ==> final(self).valid(),
            final(self).observer_count() == old(self).observer_count(),
    {
        proof {
            reveal(EngineView::valid);
        }
        self.current_tick_inputs.insert(action);
    }
}

/// A move by one column to either side moves the piece by one column or not
/// at all.
proof fn lemma_one_column(grid: Grid, piece: CurrentPiece, col_offset: int)
    requires
        col_offset == 1 || col_offset == -1,
    ensures
        columns_moved(grid, piece, col_offset) <= 1,
{
    reveal_with_fuel(free_steps, 2);
}

} // verus!
