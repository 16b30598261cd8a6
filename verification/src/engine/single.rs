//! The single-player game: the base engine, with a score and with levels
//! that speed the pieces up.

use vstd::prelude::*;
use crate::engine::base::{BaseEngine, Engine, Notification, State, LINE_CLEAR_DELAY};
use crate::engine::model::{
    lemma_notifications_do_not_depend_on_the_draw, lemma_tick_tells_little, EngineView,
};
use crate::engine::gravity::Gravity;
use crate::engine::rows::{clear_rows, full_row_count, lemma_kept_rows_are_fewer};
use crate::engine::t_spin::TSpin;
use crate::engine::CurrentPiece;
use crate::piece::Tetromino;
use crate::playfield::Playfield;

verus! {

/// The highest level.
pub const MAX_LEVEL: u8 = 15;

/// The number of cleared lines that it takes to reach the next level.
pub const LINES_PER_LEVEL: u32 = 10;

/// The gravity of a level, from 1 up to [`MAX_LEVEL`].
pub open spec fn level_gravity(level: int) -> Gravity {
    if level <= 1 {
        Gravity::TicksPerRow(60)
    } else if level == 2 {
        Gravity::TicksPerRow(48)
    } else if level == 3 {
        Gravity::TicksPerRow(37)
    } else if level == 4 {
        Gravity::TicksPerRow(28)
    } else if level == 5 {
        Gravity::TicksPerRow(21)
    } else if level == 6 {
        Gravity::TicksPerRow(16)
    } else if level == 7 {
        Gravity::TicksPerRow(11)
    } else if level == 8 {
        Gravity::TicksPerRow(8)
    } else if level == 9 {
        Gravity::TicksPerRow(6)
    } else if level == 10 {
        Gravity::TicksPerRow(4)
    } else if level == 11 {
        Gravity::TicksPerRow(3)
    } else if level == 12 {
        Gravity::TicksPerRow(2)
    } else if level == 13 {
        Gravity::TicksPerRow(1)
    } else if level == 14 {
        Gravity::RowsPerTick(2)
    } else {
        Gravity::RowsPerTick(3)
    }
}

/// Returns the gravity of a level.
pub fn gravity_of_level(level: u8) -> (gravity: Gravity)
    requires
        1 <= level <= MAX_LEVEL,
    ensures
        gravity == level_gravity(level as int),
{
    match level {
        1 => Gravity::TicksPerRow(60),
        2 => Gravity::TicksPerRow(48),
        3 => Gravity::TicksPerRow(37),
        4 => Gravity::TicksPerRow(28),
        5 => Gravity::TicksPerRow(21),
        6 => Gravity::TicksPerRow(16),
        7 => Gravity::TicksPerRow(11),
        8 => Gravity::TicksPerRow(8),
        9 => Gravity::TicksPerRow(6),
        10 => Gravity::TicksPerRow(4),
        11 => Gravity::TicksPerRow(3),
        12 => Gravity::TicksPerRow(2),
        13 => Gravity::TicksPerRow(1),
        14 => Gravity::RowsPerTick(2),
        _ => Gravity::RowsPerTick(3),
    }
}

/// Whether the last pieces locked have cleared lines.
#[derive(Copy, Clone, PartialEq, Eq, Debug, Structural)]
pub enum ComboStatus {
    /// There is no active combo. The last piece locked did not result in a
    /// line clear.
    Inactive,
    /// There might be an active combo. A piece was just locked but it is not
    /// yet known whether or not it will result in a line clear.
    Maybe,
    /// There is an active combo. The last piece lock resulted in a line
    /// clear.
    Active,
}

/// The points for clearing a number of rows with a piece locked with a kind
/// of T-spin, before any bonus, and whether the clear counts towards a
/// back-to-back bonus. `None` for what no piece can do.
pub open spec fn line_clear_points(n_rows: u8, t_spin: TSpin) -> Option<(int, bool)> {
    match t_spin {
        TSpin::NoSpin => if n_rows == 1 {
            Some((100, false))
        } else if n_rows == 2 {
            Some((300, false))
        } else if n_rows == 3 {
            Some((500, false))
        } else if n_rows == 4 {
            Some((800, true))
        } else {
            None
        },
        TSpin::Mini => if n_rows == 1 {
            Some((200, true))
        } else {
            None
        },
        TSpin::Regular => if n_rows == 1 {
            Some((800, true))
        } else if n_rows == 2 {
            Some((1200, true))
        } else if n_rows == 3 {
            Some((1600, true))
        } else {
            None
        },
    }
}

/// Keeps the score, the lines cleared, and the combos and back-to-backs that
/// the score depends on.
#[derive(Copy, Clone, PartialEq, Eq, Debug, Structural)]
pub struct StatTracker {
    pub score: u32,
    pub last_lock: TSpin,
    pub lines_cleared: u32,
    pub combo_status: ComboStatus,
    pub current_combo: u8,
    pub back_to_back: bool,
}

impl StatTracker {
    /// The tracker of a game that has not begun.
    pub open spec fn fresh() -> StatTracker {
        StatTracker {
            score: 0,
            last_lock: TSpin::NoSpin,
            lines_cleared: 0,
            combo_status: ComboStatus::Inactive,
            current_combo: 0,
            back_to_back: false,
        }
    }

    /// The level: 1 at first, one more for every [`LINES_PER_LEVEL`] lines
    /// cleared, up to [`MAX_LEVEL`].
    pub open spec fn level(self) -> int {
        if 1 + self.lines_cleared / LINES_PER_LEVEL >= MAX_LEVEL {
            MAX_LEVEL as int
        } else {
            1 + self.lines_cleared / LINES_PER_LEVEL
        }
    }

    /// The points that clearing `n_rows` rows adds to the score, where
    /// [`line_clear_points`] knows the clear: its points, half as many again
    /// where this clear and the last both count towards a back-to-back, plus
    /// 50 for every clear before it in the combo, all times the level.
    pub open spec fn line_clear_gain(self, n_rows: u8) -> int {
        self.points_at(n_rows, self.level())
    }

    /// The points that clearing `n_rows` rows is worth at a given level.
    pub open spec fn points_at(self, n_rows: u8, level: int) -> int {
        let (points, back_to_back) = line_clear_points(n_rows, self.last_lock).unwrap();
        let with_bonus = if self.back_to_back && back_to_back {
            points * 3 / 2
        } else {
            points
        };
        (with_bonus + 50 * self.current_combo) * level
    }

    /// No line clear is worth more than 227250 points.
    pub proof fn lemma_points_are_bounded(self, n_rows: u8, level: int)
        requires
            line_clear_points(n_rows, self.last_lock).is_some(),
            1 <= level <= MAX_LEVEL,
        ensures
            0 <= self.points_at(n_rows, level) <= 227250,
    {
        let table = line_clear_points(n_rows, self.last_lock).unwrap();
        let with_bonus = if self.back_to_back && table.1 {
            table.0 * 3 / 2
        } else {
            table.0
        };
        let points = with_bonus + 50 * self.current_combo;
        assert(0 <= points <= 15150);
        assert(0 <= points * level <= 227250) by (nonlinear_arith)
            requires
                0 <= points <= 15150,
                1 <= level <= 15,
        ;
    }

    /// Whether the tracker can take a notification: it knows how to score
    /// it, and its counters have room for it.
    pub open spec fn accepts(self, notification: Notification) -> bool {
        match notification {
            Notification::Lock(_) => true,
            Notification::SoftDrop(n_rows) => self.score + n_rows <= u32::MAX,
            Notification::HardDrop(n_rows) => self.score + 2 * n_rows <= u32::MAX,
            Notification::LineClear(n_rows) => {
                &&& line_clear_points(n_rows, self.last_lock).is_some()
                &&& self.current_combo < u8::MAX
                &&& self.score + self.line_clear_gain(n_rows) <= u32::MAX
                &&& self.lines_cleared + n_rows <= u32::MAX
            },
        }
    }

    /// The tracker after a notification that it accepts.
    pub open spec fn after(self, notification: Notification) -> StatTracker {
        match notification {
            Notification::Lock(t_spin) => StatTracker {
                combo_status: if self.combo_status == ComboStatus::Active {
                    ComboStatus::Maybe
                } else {
                    ComboStatus::Inactive
                },
                current_combo: if self.combo_status == ComboStatus::Active {
                    self.current_combo
                } else {
                    0
                },
                last_lock: t_spin,
                ..self
            },
            Notification::SoftDrop(n_rows) => StatTracker {
                score: (self.score + n_rows) as u32,
                ..self
            },
            Notification::HardDrop(n_rows) => StatTracker {
                score: (self.score + 2 * n_rows) as u32,
                ..self
            },
            Notification::LineClear(n_rows) => StatTracker {
                combo_status: ComboStatus::Active,
                current_combo: (self.current_combo + 1) as u8,
                back_to_back: line_clear_points(n_rows, self.last_lock).unwrap().1,
                score: (self.score + self.line_clear_gain(n_rows)) as u32,
                lines_cleared: (self.lines_cleared + n_rows) as u32,
                ..self
            },
        }
    }

    /// Whether the tracker can take a run of notifications, one after
    /// another.
    pub open spec fn accepts_all(self, notifications: Seq<Notification>) -> bool
        decreases notifications.len(),
    {
        notifications.len() > 0 ==> self.accepts(notifications[0]) && self.after(
            notifications[0],
        ).accepts_all(notifications.skip(1))
    }

    /// The tracker after a run of notifications.
    pub open spec fn after_all(self, notifications: Seq<Notification>) -> StatTracker
        decreases notifications.len(),
    {
        if notifications.len() == 0 {
            self
        } else {
            self.after(notifications[0]).after_all(notifications.skip(1))
        }
    }

    pub fn new() -> (tracker: StatTracker)
        ensures
            tracker == StatTracker::fresh(),
    {
        StatTracker {
            score: 0,
            last_lock: TSpin::NoSpin,
            lines_cleared: 0,
            combo_status: ComboStatus::Inactive,
            current_combo: 0,
            back_to_back: false,
        }
    }

    pub fn get_level(&self) -> (level: u8)
        ensures
            level == self.level(),
            1 <= level <= MAX_LEVEL,
    {
        let level = 1 + self.lines_cleared / LINES_PER_LEVEL;
        if level >= MAX_LEVEL as u32 {
            MAX_LEVEL
        } else {
            level as u8
        }
    }

    pub fn on_lock(&mut self, t_spin: TSpin)
        ensures
            *final(self) == old(self).after(Notification::Lock(t_spin)),
    {
        // Downgrade combo status. It should be reset to Active on line clear.
        let combo_status = match self.combo_status {
            ComboStatus::Active => ComboStatus::Maybe,
            _ => {
                self.current_combo = 0;
                ComboStatus::Inactive
            },
        };
        self.combo_status = combo_status;

        self.last_lock = t_spin;
    }

    pub fn on_soft_drop(&mut self, n_rows: u8)
        requires
            old(self).accepts(Notification::SoftDrop(n_rows)),
        ensures
            *final(self) == old(self).after(Notification::SoftDrop(n_rows)),
    {
        self.score = self.score + n_rows as u32;
    }

    pub fn on_hard_drop(&mut self, n_rows: u8)
        requires
            old(self).accepts(Notification::HardDrop(n_rows)),
        ensures
            *final(self) == old(self).after(Notification::HardDrop(n_rows)),
    {
        self.score = self.score + 2 * n_rows as u32;
    }

    pub fn on_line_clear(&mut self, n_rows: u8)
        requires
            old(self).accepts(Notification::LineClear(n_rows)),
        ensures
            *final(self) == old(self).after(Notification::LineClear(n_rows)),
    {
        let back_to_back = match self.last_lock {
            TSpin::NoSpin => n_rows == 4,
            _ => true,
        };
        // The level is based on the lines cleared before this clear.
        let gain = self.line_clear_score(n_rows);

        // Increment combo
        self.combo_status = ComboStatus::Active;
        self.current_combo = self.current_combo + 1;
        self.back_to_back = back_to_back;
        self.score = self.score + gain;
        self.lines_cleared = self.lines_cleared + n_rows as u32;
    }

    /// Returns the points that clearing `n_rows` rows adds to the score.
    pub fn line_clear_score(&self, n_rows: u8) -> (gain: u32)
        requires
            line_clear_points(n_rows, self.last_lock).is_some(),
        ensures
            gain == self.line_clear_gain(n_rows),
    {
        let (mut points, back_to_back): (u32, bool) = match self.last_lock {
            TSpin::NoSpin => match n_rows {
                1 => (100, false),
                2 => (300, false),
                3 => (500, false),
                _ => (800, true),
            },
            TSpin::Mini => (200, true),
            TSpin::Regular => match n_rows {
                1 => (800, true),
                2 => (1200, true),
                _ => (1600, true),
            },
        };

        // If we were already in the middle of a back-to-back,
        // and the current line clear is also a back-to-back ...
        if self.back_to_back && back_to_back {
            // Multiply by 1.5. Given the possible values of `points`, this
            // will not result in any truncation.
            points = points * 3 / 2;
        }
        // 50 points per combo. 1-combo == 2-in-a-row.
        points += 50 * self.current_combo as u32;

        let level = self.get_level() as u32;
        proof {
            self.lemma_points_are_bounded(n_rows, level as int);
        }
        points * level
    }

    /// Returns whether or not the tracker can take a notification.
    pub fn can_take(&self, notification: Notification) -> (ok: bool)
        ensures
            ok == self.accepts(notification),
    {
        match notification {
            Notification::Lock(_) => true,
            Notification::SoftDrop(n_rows) => self.score <= u32::MAX - n_rows as u32,
            Notification::HardDrop(n_rows) => self.score <= u32::MAX - 2 * n_rows as u32,
            Notification::LineClear(n_rows) => {
                let known = match self.last_lock {
                    TSpin::NoSpin => 1 <= n_rows && n_rows <= 4,
                    TSpin::Mini => n_rows == 1,
                    TSpin::Regular => 1 <= n_rows && n_rows <= 3,
                };
                if !known || self.current_combo == u8::MAX {
                    return false;
                }
                let gain = self.line_clear_score(n_rows);
                self.score <= u32::MAX - gain && self.lines_cleared <= u32::MAX - n_rows as u32
            },
        }
    }

    /// Takes a notification.
    pub fn notify(&mut self, notification: Notification)
        requires
            old(self).accepts(notification),
        ensures
            *final(self) == old(self).after(notification),
    {
        match notification {
            Notification::Lock(t_spin) => self.on_lock(t_spin),
            Notification::SoftDrop(n_rows) => self.on_soft_drop(n_rows),
            Notification::HardDrop(n_rows) => self.on_hard_drop(n_rows),
            Notification::LineClear(n_rows) => self.on_line_clear(n_rows),
        }
    }
}

/// The base engine with a score: gravity follows the level, which follows
/// the lines cleared.
pub struct SinglePlayerEngine {
    base_engine: BaseEngine,
    stat_tracker: StatTracker,
}

impl SinglePlayerEngine {
    /// The score keeping of this engine.
    pub closed spec fn tracker(&self) -> StatTracker {
        self.stat_tracker
    }

    /// What the base engine tells its observers on the next tick.
    pub open spec fn next_notifications(&self) -> Seq<Notification> {
        self.model().tick(Tetromino::I).notifications
    }

    pub fn new() -> (engine: SinglePlayerEngine)
        ensures
            engine.model().valid(),
            engine.model() == (EngineView {
                gravity: level_gravity(1),
                ..EngineView::initial(engine.model().piece.piece.shape, engine.model().queue)
            }),
            engine.tracker() == StatTracker::fresh(),
            (seq![engine.model().piece.piece.shape] + engine.model().queue).no_duplicates(),
    {
        let mut base_engine = BaseEngine::new();
        base_engine.set_gravity(gravity_of_level(1));
        let stat_tracker = StatTracker::new();

        SinglePlayerEngine { base_engine, stat_tracker }
    }

    pub fn get_score(&self) -> (score: u32)
        ensures
            score == self.tracker().score,
    {
        self.stat_tracker.score
    }

    pub fn get_level(&self) -> (level: u8)
        ensures
            level == self.tracker().level(),
    {
        self.stat_tracker.get_level()
    }

    /// Returns whether or not the next tick is sure to be defined, whatever
    /// it may tell.
    pub fn has_headroom(&self) -> (ok: bool)
        requires
            self.model().valid(),
        ensures
            ok == has_room(self.model(), self.tracker()),
            ok ==> self.ready(),
    {
        if !self.base_engine.is_ready() {
            return false;
        }
        proof {
            if has_room(self.model(), self.tracker()) {
                lemma_room_is_enough(self.model(), self.tracker());
            }
            lemma_kept_rows_are_fewer(self.base_engine@.field);
        }
        if let State::LineClear(n) = self.base_engine.get_state() {
            if n == LINE_CLEAR_DELAY {
                let mut playfield = self.base_engine.get_playfield();
                let n_rows = clear_rows(&mut playfield);
                return self.stat_tracker.can_take(Notification::LineClear(n_rows));
            }
        }
        self.stat_tracker.score <= u32::MAX - 2 * (u8::MAX as u32)
    }
}

/// Whether the next tick of a base engine is sure to be defined and to tell
/// only what a score keeping takes: the engine is ready for the tick; and the
/// score keeping takes the line clear that is due on this tick, if one is,
/// and otherwise has room for the points of the longest drop.
pub open spec fn has_room(model: EngineView, tracker: StatTracker) -> bool {
    &&& model.ready()
    &&& if model.state == State::LineClear(LINE_CLEAR_DELAY) {
        tracker.accepts(Notification::LineClear(full_row_count(model.field) as u8))
    } else {
        tracker.score + 2 * u8::MAX <= u32::MAX
    }
}

/// A score keeping that has room for whatever the next tick may tell takes
/// all that it tells.
pub proof fn lemma_room_is_enough(model: EngineView, tracker: StatTracker)
    requires
        model.valid(),
        has_room(model, tracker),
    ensures
        tracker.accepts_all(model.tick(Tetromino::I).notifications),
{
    lemma_tick_tells_little(model, Tetromino::I);
    lemma_kept_rows_are_fewer(model.field);
    reveal_with_fuel(StatTracker::accepts_all, 3);
    let told = model.tick(Tetromino::I).notifications;
    if told.len() > 0 {
        assert(told.skip(1).len() == told.len() - 1);
        if told.len() == 2 {
            assert(told.skip(1)[0] == told[1]);
            assert(told.skip(1).skip(1).len() == 0);
        }
    }
}

impl Engine for SinglePlayerEngine {
    closed spec fn model(&self) -> EngineView {
        self.base_engine@
    }

    open spec fn ready(&self) -> bool {
        &&& self.model().ready()
        &&& self.tracker().accepts_all(self.next_notifications())
    }

    /// Advances the base engine by one tick, scores what it tells, and sets
    /// the gravity of the level when a piece is about to spawn.
    fn tick(&mut self) -> (state: State)
        ensures
            final(self).tracker() == old(self).tracker().after_all(old(self).next_notifications()),
            final(self).model() == ({
                let ticked = old(self).model().tick(final(self).model().queue[4]);
                if ticked.state == State::Spawn {
                    EngineView { gravity: level_gravity(final(self).tracker().level()), ..ticked }
                } else {
                    ticked
                }
            }),
    {
        let state = self.base_engine.tick();
        proof {
            lemma_notifications_do_not_depend_on_the_draw(
                old(self).base_engine@,
                self.base_engine@.queue[4],
                Tetromino::I,
            );
        }
        let ghost ticked = self.base_engine@;
        let ghost told = ticked.notifications;
        let notifications = self.base_engine.get_notifications();
        let mut i: usize = 0;
        assert(told.skip(0) =~= told);
        while i < notifications.len()
            invariant
                i <= notifications.len(),
                notifications@ == told,
                self.base_engine@ == ticked,
                self.stat_tracker.accepts_all(told.skip(i as int)),
                self.stat_tracker.after_all(told.skip(i as int)) == old(self).stat_tracker.after_all(
                    told,
                ),
            decreases notifications.len() - i,
        {
            assert(told.skip(i as int)[0] == told[i as int]);
            assert(told.skip(i as int).skip(1) =~= told.skip(i + 1));
            self.stat_tracker.notify(notifications[i]);
            i += 1;
        }
        if let State::Spawn = state {
            self.base_engine.set_gravity(gravity_of_level(self.stat_tracker.get_level()));
        }
        state
    }

    fn get_playfield(&self) -> (playfield: Playfield) {
        self.base_engine.get_playfield()
    }

    fn get_current_piece(&self) -> (piece: CurrentPiece) {
        self.base_engine.get_current_piece()
    }

    fn get_hold_piece(&self) -> (hold: Option<Tetromino>) {
        self.base_engine.get_hold_piece()
    }

    fn get_next_pieces(&self) -> (pieces: Vec<Tetromino>) {
        self.base_engine.get_next_pieces()
    }

    fn input_move_left(&mut self)
        ensures
            final(self).tracker() == old(self).tracker(),
    {
        self.base_engine.input_move_left();
    }

    fn input_move_right(&mut self)
        ensures
            final(self).tracker() == old(self).tracker(),
    {
        self.base_engine.input_move_right();
    }

    fn input_rotate_cw(&mut self)
        ensures
            final(self).tracker() == old(self).tracker(),
    {
        self.base_engine.input_rotate_cw();
    }

    fn input_rotate_ccw(&mut self)
        ensures
            final(self).tracker() == old(self).tracker(),
    {
        self.base_engine.input_rotate_ccw();
    }

    fn input_soft_drop(&mut self)
        ensures
            final(self).tracker() == old(self).tracker(),
    {
        self.base_engine.input_soft_drop();
    }

    fn input_hard_drop(&mut self)
        ensures
            final(self).tracker() == old(self).tracker(),
    {
        self.base_engine.input_hard_drop();
    }

    fn input_hold(&mut self)
        ensures
            final(self).tracker() == old(self).tracker(),
    {
        self.base_engine.input_hold();
    }
}

} // verus!
