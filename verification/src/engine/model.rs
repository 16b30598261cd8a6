//! The model of the base engine: everything that a tick reads and writes,
//! as plain values, and what each step of a tick makes of it.

use vstd::prelude::*;
use crate::engine::base::{
    Notification, State, LINE_CLEAR_DELAY, LOCK_DELAY, NEXT_PIECES, SOFT_DROP_FACTOR,
};
use crate::engine::collision::{
    after_drop, after_move, collides, columns_moved, fits, locked, resting, rows_dropped,
};
use crate::engine::gravity::Gravity;
use crate::engine::input::{Action, ActionSet, InputDurations};
use crate::engine::kick::{after_rotation, first_fit};
use crate::engine::reach::piece_in_reach;
use crate::engine::rows::{compacted, full_row_count, has_full_row};
use crate::engine::t_spin::{spin_after_rotation, TSpin, TSpinInternal};
use crate::engine::CurrentPiece;
use crate::piece::{Rotation, Tetromino};
use crate::playfield::{empty_grid, is_grid, Grid};

verus! {

/// The mathematical model of an engine: everything that a tick reads and
/// writes, but for the generator and the observers.
pub struct EngineView {
    pub field: Grid,
    pub piece: CurrentPiece,
    pub hold: Option<Tetromino>,
    pub hold_available: bool,
    /// The actions signalled since the last tick.
    pub pressed: ActionSet,
    pub durations: InputDurations,
    pub gravity: Gravity,
    /// The upcoming pieces, the next one first.
    pub queue: Seq<Tetromino>,
    pub state: State,
    pub spin: TSpinInternal,
    /// What the observers were told during the last tick, in order.
    pub notifications: Seq<Notification>,
}

impl EngineView {
    /// What holds of an engine at all times.
    #[verifier::opaque]
    pub open spec fn valid(self) -> bool {
        &&& is_grid(self.field)
        &&& self.queue.len() == NEXT_PIECES
        &&& piece_in_reach(self.piece)
        &&& match self.state {
            State::Lock(n) => 1 <= n <= LOCK_DELAY,
            State::LineClear(n) => 1 <= n <= LINE_CLEAR_DELAY,
            _ => true,
        }
    }

    /// This engine after telling its observers something.
    pub open spec fn notified(self, notification: Notification) -> EngineView {
        EngineView { notifications: self.notifications.push(notification), ..self }
    }

    /// This engine after the next piece of the queue has come into play and
    /// the piece `drawn` from the generator has joined the queue.
    pub open spec fn next_piece(self, drawn: Tetromino) -> EngineView {
        EngineView {
            piece: CurrentPiece::spawned(self.queue[0]),
            queue: self.queue.skip(1).push(drawn),
            hold_available: true,
            ..self
        }
    }

    /// This engine after the current piece has gone to the hold slot: the
    /// piece that was held comes into play, or the next piece of the queue
    /// where none was.
    pub open spec fn hold_piece(self, drawn: Tetromino) -> EngineView {
        let held = Some(self.piece.piece.shape);
        match self.hold {
            Some(shape) => EngineView { piece: CurrentPiece::spawned(shape), hold: held, ..self },
            None => EngineView { hold: held, ..self.next_piece(drawn) },
        }
    }

    /// Whether a hold among the actions takes effect.
    pub open spec fn holds(self, actions: ActionSet) -> bool {
        actions.hold && self.hold_available
    }

    /// This engine after a hold, where one takes effect. The hold slot is
    /// then closed until the next piece comes from the queue.
    pub open spec fn apply_hold(self, actions: ActionSet, drawn: Tetromino) -> EngineView {
        if self.holds(actions) {
            EngineView { hold_available: false, ..self.hold_piece(drawn) }
        } else {
            self
        }
    }

    /// The move among the actions that takes effect, if any: left before
    /// right, and only where the piece can move by one column.
    pub open spec fn move_applied(self, actions: ActionSet) -> Option<Action> {
        if actions.move_left {
            if columns_moved(self.field, self.piece, -1) == 1 {
                Some(Action::MoveLeft)
            } else {
                None
            }
        } else if actions.move_right && columns_moved(self.field, self.piece, 1) == 1 {
            Some(Action::MoveRight)
        } else {
            None
        }
    }

    /// This engine after the move among the actions. A move that takes
    /// effect forgets the last rotation.
    pub open spec fn apply_piece_move(self, actions: ActionSet) -> EngineView {
        match self.move_applied(actions) {
            Some(Action::MoveLeft) => EngineView {
                piece: after_move(self.field, self.piece, -1),
                spin: TSpinInternal::NoSpin,
                ..self
            },
            Some(_) => EngineView {
                piece: after_move(self.field, self.piece, 1),
                spin: TSpinInternal::NoSpin,
                ..self
            },
            None => self,
        }
    }

    /// This engine after an attempt to turn the current piece to a rotation
    /// state.
    pub open spec fn rotate_piece(self, to: Rotation) -> EngineView {
        match first_fit(self.field, self.piece, to) {
            Some(kick) => {
                let piece = after_rotation(self.field, self.piece, to);
                EngineView {
                    piece,
                    spin: spin_after_rotation(self.field, piece, self.spin, kick),
                    ..self
                }
            },
            None => self,
        }
    }

    /// The rotation among the actions that takes effect, if any: clockwise
    /// before counter-clockwise, and only where the piece can turn.
    pub open spec fn rotation_applied(self, actions: ActionSet) -> Option<Action> {
        if actions.rotate_clockwise {
            if first_fit(self.field, self.piece, self.piece.piece.rotation.cw()).is_some() {
                Some(Action::RotateClockwise)
            } else {
                None
            }
        } else if actions.rotate_counter_clockwise && first_fit(
            self.field,
            self.piece,
            self.piece.piece.rotation.ccw(),
        ).is_some() {
            Some(Action::RotateCounterClockwise)
        } else {
            None
        }
    }

    /// This engine after the rotation among the actions.
    pub open spec fn apply_piece_rotation(self, actions: ActionSet) -> EngineView {
        match self.rotation_applied(actions) {
            Some(Action::RotateClockwise) => self.rotate_piece(self.piece.piece.rotation.cw()),
            Some(_) => self.rotate_piece(self.piece.piece.rotation.ccw()),
            None => self,
        }
    }

    /// This engine after a hard drop, where one is among the actions: the
    /// piece falls as far as it can, and the observers are told how far. A
    /// drop by at least one row forgets the last rotation.
    pub open spec fn apply_hard_drop(self, actions: ActionSet) -> EngineView {
        if actions.hard_drop {
            let rows = rows_dropped(self.field, self.piece, 40);
            EngineView {
                piece: after_drop(self.field, self.piece, 40),
                spin: if rows > 0 {
                    TSpinInternal::NoSpin
                } else {
                    self.spin
                },
                ..self
            }.notified(Notification::HardDrop(rows as u8))
        } else {
            self
        }
    }

    /// This engine after the move, the rotation and the hard drop among the
    /// actions, in that order.
    #[verifier::opaque]
    pub open spec fn apply_moves(self, actions: ActionSet) -> EngineView {
        self.apply_piece_move(actions).apply_piece_rotation(actions).apply_hard_drop(actions)
    }

    /// The actions that take effect: the hold alone, or else whichever of a
    /// move, a rotation and a hard drop do.
    #[verifier::opaque]
    pub open spec fn actions_applied(self, actions: ActionSet) -> ActionSet {
        if self.holds(actions) {
            ActionSet::empty().with(Action::Hold)
        } else {
            let moved = self.move_applied(actions);
            let turned = self.apply_piece_move(actions).rotation_applied(actions);
            ActionSet {
                move_left: moved == Some(Action::MoveLeft),
                move_right: moved == Some(Action::MoveRight),
                rotate_clockwise: turned == Some(Action::RotateClockwise),
                rotate_counter_clockwise: turned == Some(Action::RotateCounterClockwise),
                soft_drop: false,
                hard_drop: actions.hard_drop,
                hold: false,
            }
        }
    }

    /// This engine after the player's actions: a hold pre-empts the others.
    #[verifier::opaque]
    pub open spec fn apply_actions(self, actions: ActionSet, drawn: Tetromino) -> EngineView {
        if self.holds(actions) {
            self.apply_hold(actions, drawn)
        } else {
            self.apply_moves(actions)
        }
    }

    /// The gravity that acts on this engine under the actions: its own,
    /// multiplied where the player drops softly.
    pub open spec fn gravity_under(self, actions: ActionSet) -> Gravity {
        if actions.soft_drop {
            self.gravity.times(SOFT_DROP_FACTOR as int)
        } else {
            self.gravity
        }
    }

    /// By how many rows gravity asks a falling piece to drop on this tick.
    pub open spec fn gravity_rows(self, actions: ActionSet) -> nat {
        match (self.state, self.gravity_under(actions)) {
            (State::Falling(n), Gravity::TicksPerRow(ticks_per_row)) => if n >= ticks_per_row {
                1
            } else {
                0
            },
            (State::Falling(_), Gravity::RowsPerTick(rows_per_tick)) => rows_per_tick as nat,
            _ => 0,
        }
    }

    /// Whether gravity moves the piece on this tick.
    #[verifier::opaque]
    pub open spec fn gravity_drops(self, actions: ActionSet) -> bool {
        rows_dropped(self.field, self.piece, self.gravity_rows(actions)) >= 1
    }

    /// This engine after gravity has acted on the piece. A piece that moves
    /// forgets its last rotation. Where the player drops softly and the piece
    /// moves, the observers are told by how many rows.
    #[verifier::opaque]
    pub open spec fn apply_gravity(self, actions: ActionSet) -> EngineView {
        let rows = rows_dropped(self.field, self.piece, self.gravity_rows(actions));
        let fallen = EngineView {
            piece: after_drop(self.field, self.piece, self.gravity_rows(actions)),
            spin: if rows >= 1 {
                TSpinInternal::NoSpin
            } else {
                self.spin
            },
            ..self
        };
        if actions.soft_drop && rows >= 1 {
            fallen.notified(Notification::SoftDrop(rows as u8))
        } else {
            fallen
        }
    }

    /// This engine after the lock procedure: the piece becomes part of the
    /// playfield, the observers are told with which kind of T-spin, and the
    /// next piece is drawn. Where a row is now full the engine waits to clear
    /// it; otherwise the next piece spawns.
    #[verifier::opaque]
    pub open spec fn apply_lock(self, drawn: Tetromino) -> EngineView {
        let field = locked(self.field, self.piece);
        EngineView {
            field,
            spin: TSpinInternal::NoSpin,
            state: if has_full_row(field) {
                State::LineClear(1)
            } else {
                State::Spawn
            },
            ..self.notified(Notification::Lock(TSpin::of(self.spin))).next_piece(drawn)
        }
    }

    /// A tick in the state `Spawn`.
    pub open spec fn tick_spawn(self) -> EngineView {
        EngineView {
            state: if collides(self.field, self.piece) {
                State::TopOut
            } else {
                State::Falling(1)
            },
            spin: TSpinInternal::NoSpin,
            ..self
        }
    }

    /// This engine, falling for `n` ticks, after gravity has acted on the
    /// piece: where the piece then rests on something, the lock delay begins;
    /// otherwise the piece goes on falling, and the count of ticks begins
    /// again where gravity moved it.
    #[verifier::opaque]
    pub open spec fn fall(self, n: u32, actions: ActionSet) -> EngineView {
        let fallen = self.apply_gravity(actions);
        EngineView {
            state: if resting(fallen.field, fallen.piece) {
                State::Lock(1)
            } else if self.gravity_drops(actions) {
                State::Falling(1)
            } else {
                State::Falling((n + 1) as u32)
            },
            ..fallen
        }
    }

    /// A tick in the state `Falling(n)`.
    #[verifier::opaque]
    pub open spec fn tick_falling(self, n: u32, actions: ActionSet, drawn: Tetromino) -> EngineView {
        let acted = self.apply_actions(actions, drawn);
        let applied = self.actions_applied(actions);
        if applied.hard_drop {
            acted.apply_lock(drawn)
        } else if applied.hold {
            EngineView { state: State::Falling(1), ..acted }
        } else {
            acted.fall(n, actions)
        }
    }

    /// A tick in the state `Lock(n)`.
    #[verifier::opaque]
    pub open spec fn tick_lock(self, n: u32, actions: ActionSet, drawn: Tetromino) -> EngineView {
        if n == LOCK_DELAY {
            self.apply_lock(drawn)
        } else {
            let acted = self.apply_actions(actions, drawn);
            let applied = self.actions_applied(actions);
            if applied.hold {
                EngineView { state: State::Falling(1), ..acted }
            } else if applied.hard_drop {
                acted.apply_lock(drawn)
            } else if applied.move_left || applied.move_right || applied.rotate_clockwise
                || applied.rotate_counter_clockwise {
                EngineView {
                    state: if resting(acted.field, acted.piece) {
                        State::Lock(1)
                    } else {
                        State::Falling(1)
                    },
                    ..acted
                }
            } else {
                EngineView { state: State::Lock((n + 1) as u32), ..acted }
            }
        }
    }

    /// A tick in the state `LineClear(n)`.
    #[verifier::opaque]
    pub open spec fn tick_line_clear(self, n: u32, drawn: Tetromino) -> EngineView {
        if n == LINE_CLEAR_DELAY {
            EngineView {
                field: compacted(self.field),
                state: State::Spawn,
                ..self.notified(Notification::LineClear(full_row_count(self.field) as u8)).next_piece(
                    drawn,
                )
            }
        } else {
            EngineView { state: State::LineClear((n + 1) as u32), ..self }
        }
    }

    /// This engine after the input of a tick has been counted and cleared,
    /// with an empty record of notifications.
    pub open spec fn process_input(self) -> EngineView {
        EngineView {
            pressed: ActionSet::empty(),
            durations: self.durations.advanced(self.pressed),
            notifications: Seq::empty(),
            ..self
        }
    }

    /// The actions that take effect on the next tick.
    pub open spec fn actions(self) -> ActionSet {
        self.durations.advanced(self.pressed).active()
    }

    /// This engine after one tick, during which the generator hands out the
    /// piece `drawn` if it is asked for one.
    pub open spec fn tick(self, drawn: Tetromino) -> EngineView {
        let counted = self.process_input();
        let actions = self.actions();
        match self.state {
            State::Spawn => counted.tick_spawn(),
            State::Falling(n) => counted.tick_falling(n, actions, drawn),
            State::Lock(n) => counted.tick_lock(n, actions, drawn),
            State::LineClear(n) => counted.tick_line_clear(n, drawn),
            State::TopOut => counted,
        }
    }

    /// The piece that the next tick locks into the playfield, where it is at
    /// that time, if the tick locks one.
    pub open spec fn piece_to_lock(self) -> Option<CurrentPiece> {
        let actions = self.actions();
        match self.state {
            State::Falling(_) => if !self.holds(actions) && actions.hard_drop {
                Some(self.apply_moves(actions).piece)
            } else {
                None
            },
            State::Lock(n) => if n == LOCK_DELAY {
                Some(self.piece)
            } else if !self.holds(actions) && actions.hard_drop {
                Some(self.apply_moves(actions).piece)
            } else {
                None
            },
            _ => None,
        }
    }

    /// Whether the next tick is defined: the counters that it would count up
    /// have room for one more tick, and the piece that it would lock, if any,
    /// lies on the playfield.
    pub open spec fn ready(self) -> bool {
        &&& self.durations.countable(self.pressed)
        &&& self.state matches State::Falling(n) ==> n < u32::MAX
        &&& self.piece_to_lock() matches Some(piece) ==> fits(piece)
    }

    /// An engine before its first tick: an empty playfield, the first piece
    /// in play and falling, nothing held, no input.
    pub open spec fn initial(first: Tetromino, queue: Seq<Tetromino>) -> EngineView {
        EngineView {
            field: empty_grid(),
            piece: CurrentPiece::spawned(first),
            hold: None,
            hold_available: true,
            pressed: ActionSet::empty(),
            durations: InputDurations::zero(),
            gravity: Gravity::TicksPerRow(30),
            queue,
            state: State::Falling(1),
            spin: TSpinInternal::NoSpin,
            notifications: Seq::empty(),
        }
    }

    /// This engine after an action has been signalled.
    pub open spec fn signalled(self, action: Action) -> EngineView {
        EngineView { pressed: self.pressed.with(action), ..self }
    }
}

/// Of a valid engine: the queue holds five pieces, and the engine has been
/// in the state `Lock` or `LineClear` for no longer than the delay.
pub proof fn lemma_valid_counts(view: EngineView)
    requires
        view.valid(),
    ensures
        view.queue.len() == NEXT_PIECES,
        view.state matches State::Lock(n) ==> 1 <= n <= LOCK_DELAY,
        view.state matches State::LineClear(n) ==> 1 <= n <= LINE_CLEAR_DELAY,
{
    reveal(EngineView::valid);
}

/// Counting the input of a tick changes nothing that the player's moves and
/// the lock look at.
pub proof fn lemma_input_leaves_the_board(view: EngineView, actions: ActionSet)
    ensures
        view.process_input().apply_moves(actions).piece == view.apply_moves(actions).piece,
        view.process_input().holds(actions) == view.holds(actions),
        view.valid() ==> view.process_input().valid(),
{
    reveal(EngineView::apply_moves);
    reveal(EngineView::valid);
}

/// What the observers are told during a tick does not depend on the piece
/// that the generator hands out.
pub proof fn lemma_notifications_do_not_depend_on_the_draw(
    view: EngineView,
    drawn: Tetromino,
    other: Tetromino,
)
    ensures
        view.tick(drawn).notifications == view.tick(other).notifications,
        view.tick(drawn).state == view.tick(other).state,
{
    reveal(EngineView::tick_falling);
    reveal(EngineView::fall);
    reveal(EngineView::tick_lock);
    reveal(EngineView::tick_line_clear);
    reveal(EngineView::apply_actions);
    reveal(EngineView::actions_applied);
    reveal(EngineView::apply_lock);
    let counted = view.process_input();
    let actions = view.actions();
    if !counted.holds(actions) {
        lemma_moves_draw_nothing(counted, actions, drawn, other);
    }
}

/// What the observers are told during one tick is little: nothing; or that
/// a piece was locked, after a hard drop or without one; or how far a soft
/// drop went; or, when the delay before a line clear has passed, how many
/// rows were cleared.
pub proof fn lemma_tick_tells_little(view: EngineView, drawn: Tetromino)
    ensures
        ({
            let told = view.tick(drawn).notifications;
            ||| told.len() == 0
            ||| told.len() == 1 && told[0] is Lock
            ||| told.len() == 1 && told[0] is SoftDrop
            ||| told.len() == 2 && told[0] is HardDrop && told[1] is Lock
            ||| told.len() == 1 && view.state == State::LineClear(LINE_CLEAR_DELAY) && told[0]
                == Notification::LineClear(#[verifier::truncate] (full_row_count(view.field) as u8))
        }),
        view.state == State::LineClear(LINE_CLEAR_DELAY) ==> view.tick(drawn).notifications.len()
            == 1 && view.tick(drawn).notifications[0] == Notification::LineClear(
            #[verifier::truncate] (full_row_count(view.field) as u8),
        ),
{
    let counted = view.process_input();
    let actions = view.actions();
    let told = view.tick(drawn).notifications;
    assert(counted.notifications.len() == 0);
    let acted = counted.apply_actions(actions, drawn);
    let applied = counted.actions_applied(actions);
    lemma_actions_tell_of_hard_drops(counted, actions, drawn);
    if applied.hard_drop {
        assert(acted.notifications.len() == 1);
        assert(acted.notifications[0] == acted.notifications.last());
        reveal(EngineView::apply_lock);
        let settled = acted.apply_lock(drawn);
        assert(settled.notifications == acted.notifications.push(
            Notification::Lock(TSpin::of(acted.spin)),
        ));
        assert(settled.notifications.len() == 2);
        assert(settled.notifications[0] == acted.notifications[0]);
        assert(settled.notifications[1] is Lock);
    }
    match view.state {
        State::Falling(n) => {
            reveal(EngineView::tick_falling);
            reveal(EngineView::fall);
            if applied.hard_drop {
                assert(told == acted.apply_lock(drawn).notifications);
            } else if applied.hold {
                assert(told == acted.notifications);
            } else {
                reveal(EngineView::apply_gravity);
                let fallen = acted.apply_gravity(actions);
                assert(acted.notifications.len() == 0);
                assert(fallen.notifications == acted.notifications || (fallen.notifications.len()
                    == 1 && fallen.notifications[0] is SoftDrop));
                assert(told == fallen.notifications);
            }
        },
        State::Lock(n) => {
            reveal(EngineView::tick_lock);
            reveal(EngineView::actions_applied);
            if n == LOCK_DELAY {
                reveal(EngineView::apply_lock);
                let settled = counted.apply_lock(drawn);
                assert(settled.notifications == counted.notifications.push(
                    Notification::Lock(TSpin::of(counted.spin)),
                ));
                assert(settled.notifications.len() == 1);
                assert(settled.notifications[0] is Lock);
            } else if applied.hold {
                assert(!applied.hard_drop);
                assert(told == acted.notifications);
            } else if applied.hard_drop {
                assert(told == acted.apply_lock(drawn).notifications);
            } else {
                assert(told == acted.notifications);
            }
        },
        State::LineClear(n) => {
            reveal(EngineView::tick_line_clear);
            if n == LINE_CLEAR_DELAY {
                let cleared = counted.tick_line_clear(n, drawn);
                assert(cleared.notifications == counted.notifications.push(
                    Notification::LineClear(full_row_count(view.field) as u8),
                ));
                assert(cleared.notifications.len() == 1);
            }
        },
        _ => {},
    }
}

/// The player's actions tell the observers of a hard drop that takes effect,
/// and of nothing else.
proof fn lemma_actions_tell_of_hard_drops(view: EngineView, actions: ActionSet, drawn: Tetromino)
    ensures
        ({
            let acted = view.apply_actions(actions, drawn);
            if view.actions_applied(actions).hard_drop {
                acted.notifications.len() == view.notifications.len() + 1
                    && acted.notifications.last() is HardDrop && acted.notifications.drop_last()
                    == view.notifications
            } else {
                acted.notifications == view.notifications
            }
        }),
{
    reveal(EngineView::apply_actions);
    reveal(EngineView::actions_applied);
    reveal(EngineView::apply_moves);
    let turned = view.apply_piece_move(actions).apply_piece_rotation(actions);
    assert(turned.notifications == view.notifications);
    if !view.holds(actions) && actions.hard_drop {
        assert(turned.apply_hard_drop(actions).notifications.drop_last() =~= view.notifications);
    }
}

/// Once the game is over, a tick counts the input and changes nothing else.
pub proof fn lemma_top_out_is_final(view: EngineView, drawn: Tetromino)
    requires
        view.state == State::TopOut,
    ensures
        view.tick(drawn) == view.process_input(),
        view.tick(drawn).state == State::TopOut,
        view.tick(drawn).field == view.field,
        view.tick(drawn).piece == view.piece,
{
}

/// A hold that takes effect puts the shape of the current piece into the
/// hold slot and brings the shape that was held into play, or the next shape
/// of the queue where none was held; and it closes the hold slot.
pub proof fn lemma_hold_swaps(view: EngineView, actions: ActionSet, drawn: Tetromino)
    requires
        view.holds(actions),
    ensures
        view.apply_actions(actions, drawn).hold == Some(view.piece.piece.shape),
        view.apply_actions(actions, drawn).piece == CurrentPiece::spawned(
            match view.hold {
                Some(shape) => shape,
                None => view.queue[0],
            },
        ),
        !view.apply_actions(actions, drawn).hold_available,
        view.hold is Some ==> view.apply_actions(actions, drawn).queue == view.queue,
        view.hold is None ==> view.apply_actions(actions, drawn).queue == view.queue.skip(1).push(
            drawn,
        ),
{
    reveal(EngineView::apply_actions);
}

/// While the hold slot is closed, a hold among the actions has no effect:
/// the engine moves, turns and drops the piece as it does without a hold.
pub proof fn lemma_second_hold_has_no_effect(view: EngineView, actions: ActionSet, drawn: Tetromino)
    requires
        !view.hold_available,
    ensures
        view.apply_hold(actions, drawn) == view,
        view.apply_actions(actions, drawn) == view.apply_moves(actions),
        !view.actions_applied(actions).hold,
{
    reveal(EngineView::apply_actions);
    reveal(EngineView::actions_applied);
}

/// A resting piece that the player leaves alone stays in the state `Lock`,
/// one tick further, until the lock delay has passed; then the tick locks
/// it, and the engine goes on to spawn the next piece or to clear lines.
pub proof fn lemma_lock_delay_runs_out(view: EngineView, n: u32, drawn: Tetromino)
    requires
        view.state == State::Lock(n),
        1 <= n <= LOCK_DELAY,
        view.actions() == ActionSet::empty(),
    ensures
        n < LOCK_DELAY ==> view.tick(drawn) == (EngineView {
            state: State::Lock((n + 1) as u32),
            ..view.process_input()
        }),
        n == LOCK_DELAY ==> view.tick(drawn) == view.process_input().apply_lock(drawn),
        n == LOCK_DELAY ==> view.tick(drawn).field == locked(view.field, view.piece),
        n == LOCK_DELAY ==> view.tick(drawn).state == State::Spawn || view.tick(drawn).state
            == State::LineClear(1),
        n == LOCK_DELAY ==> view.tick(drawn).notifications == seq![
            Notification::Lock(TSpin::of(view.spin)),
        ],
{
    reveal(EngineView::tick_lock);
    reveal(EngineView::apply_actions);
    reveal(EngineView::apply_moves);
    reveal(EngineView::actions_applied);
    reveal(EngineView::apply_lock);
    if n == LOCK_DELAY {
        assert(view.tick(drawn).notifications =~= seq![Notification::Lock(TSpin::of(view.spin))]);
    }
}

/// A tick in which nothing is signalled and no key is held takes no action.
pub proof fn lemma_no_input_no_actions(view: EngineView)
    requires
        view.pressed == ActionSet::empty(),
    ensures
        view.actions() == ActionSet::empty(),
{
}

/// Every tick of an engine that is not over leaves it in exactly one state,
/// and only the state `TopOut` is left by no tick.
pub proof fn lemma_transitions(view: EngineView, drawn: Tetromino)
    ensures
        match view.state {
            State::Spawn => view.tick(drawn).state == State::TopOut || view.tick(drawn).state
                == State::Falling(1),
            State::Falling(n) => {
                ||| view.tick(drawn).state == State::Falling(1)
                ||| view.tick(drawn).state == State::Falling((n + 1) as u32)
                ||| view.tick(drawn).state == State::Lock(1)
                ||| view.tick(drawn).state == State::Spawn
                ||| view.tick(drawn).state == State::LineClear(1)
            },
            State::Lock(n) => {
                ||| view.tick(drawn).state == State::Lock(1)
                ||| view.tick(drawn).state == State::Lock((n + 1) as u32)
                ||| view.tick(drawn).state == State::Falling(1)
                ||| view.tick(drawn).state == State::Spawn
                ||| view.tick(drawn).state == State::LineClear(1)
            },
            State::LineClear(n) => if n == LINE_CLEAR_DELAY {
                view.tick(drawn).state == State::Spawn
            } else {
                view.tick(drawn).state == State::LineClear((n + 1) as u32)
            },
            State::TopOut => view.tick(drawn).state == State::TopOut,
        },
{
    reveal(EngineView::tick_falling);
    reveal(EngineView::fall);
    reveal(EngineView::tick_lock);
    reveal(EngineView::tick_line_clear);
    reveal(EngineView::apply_lock);
    reveal(EngineView::apply_gravity);
    reveal(EngineView::apply_actions);
    reveal(EngineView::apply_moves);
}

/// Where no hold takes effect, the player's actions draw no piece from the
/// generator.
pub proof fn lemma_moves_draw_nothing(
    view: EngineView,
    actions: ActionSet,
    drawn: Tetromino,
    other: Tetromino,
)
    requires
        !view.holds(actions),
    ensures
        view.apply_actions(actions, drawn) == view.apply_actions(actions, other),
{
    reveal(EngineView::apply_actions);
}

} // verus!
