//! Player input: which actions are signalled, for how long each has been
//! held, and which of them take effect on a tick.

use vstd::prelude::*;

verus! {

/// How many ticks a move key must be held before it repeats.
pub const AUTO_REPEAT_DELAY: u32 = 12;

/// How many ticks lie between two repeats of a held move key.
pub const AUTO_REPEAT_RATE: u32 = 7;

/// Something that the player can ask for.
#[derive(PartialEq, Eq, Hash, Copy, Clone, Debug, Structural)]
pub enum Action {
    MoveLeft,
    MoveRight,
    RotateClockwise,
    RotateCounterClockwise,
    SoftDrop,
    HardDrop,
    Hold,
}

/// A set of actions: for each action, whether it belongs to the set.
#[derive(PartialEq, Eq, Copy, Clone, Debug, Structural)]
pub struct ActionSet {
    pub move_left: bool,
    pub move_right: bool,
    pub rotate_clockwise: bool,
    pub rotate_counter_clockwise: bool,
    pub soft_drop: bool,
    pub hard_drop: bool,
    pub hold: bool,
}

impl ActionSet {
    /// The set without any action.
    pub open spec fn empty() -> ActionSet {
        ActionSet {
            move_left: false,
            move_right: false,
            rotate_clockwise: false,
            rotate_counter_clockwise: false,
            soft_drop: false,
            hard_drop: false,
            hold: false,
        }
    }

    /// Whether an action belongs to this set.
    pub open spec fn has(self, action: Action) -> bool {
        match action {
            Action::MoveLeft => self.move_left,
            Action::MoveRight => self.move_right,
            Action::RotateClockwise => self.rotate_clockwise,
            Action::RotateCounterClockwise => self.rotate_counter_clockwise,
            Action::SoftDrop => self.soft_drop,
            Action::HardDrop => self.hard_drop,
            Action::Hold => self.hold,
        }
    }

    /// This set with an action added.
    pub open spec fn with(self, action: Action) -> ActionSet {
        match action {
            Action::MoveLeft => ActionSet { move_left: true, ..self },
            Action::MoveRight => ActionSet { move_right: true, ..self },
            Action::RotateClockwise => ActionSet { rotate_clockwise: true, ..self },
            Action::RotateCounterClockwise => ActionSet { rotate_counter_clockwise: true, ..self },
            Action::SoftDrop => ActionSet { soft_drop: true, ..self },
            Action::HardDrop => ActionSet { hard_drop: true, ..self },
            Action::Hold => ActionSet { hold: true, ..self },
        }
    }

    /// Creates the set without any action.
    pub fn new() -> (set: ActionSet)
        ensures
            set == ActionSet::empty(),
    {
        ActionSet {
            move_left: false,
            move_right: false,
            rotate_clockwise: false,
            rotate_counter_clockwise: false,
            soft_drop: false,
            hard_drop: false,
            hold: false,
        }
    }

    /// Returns whether or not an action belongs to this set.
    pub fn contains(&self, action: Action) -> (found: bool)
        ensures
            found == self.has(action),
    {
        match action {
            Action::MoveLeft => self.move_left,
            Action::MoveRight => self.move_right,
            Action::RotateClockwise => self.rotate_clockwise,
            Action::RotateCounterClockwise => self.rotate_counter_clockwise,
            Action::SoftDrop => self.soft_drop,
            Action::HardDrop => self.hard_drop,
            Action::Hold => self.hold,
        }
    }

    /// Adds an action to this set. Adding it twice is adding it once.
    pub fn insert(&mut self, action: Action)
        ensures
            *final(self) == old(self).with(action),
    {
        match action {
            Action::MoveLeft => self.move_left = true,
            Action::MoveRight => self.move_right = true,
            Action::RotateClockwise => self.rotate_clockwise = true,
            Action::RotateCounterClockwise => self.rotate_counter_clockwise = true,
            Action::SoftDrop => self.soft_drop = true,
            Action::HardDrop => self.hard_drop = true,
            Action::Hold => self.hold = true,
        }
    }
}

/// For each action, the number of consecutive ticks for which it has been
/// signalled, up to and including the last tick.
#[derive(PartialEq, Eq, Copy, Clone, Debug, Structural)]
pub struct InputDurations {
    pub move_left: u32,
    pub move_right: u32,
    pub rotate_clockwise: u32,
    pub rotate_counter_clockwise: u32,
    pub soft_drop: u32,
    pub hard_drop: u32,
    pub hold: u32,
}

/// The duration of an action after a tick on which it was or was not
/// signalled: one more than before, or 0.
pub open spec fn counted(duration: u32, pressed: bool) -> int {
    if pressed {
        duration + 1
    } else {
        0
    }
}

/// Whether an action held for `duration` consecutive ticks takes effect on
/// the last of them.
///
/// Hold, the rotations and the hard drop take effect on the first tick only.
/// The soft drop takes effect on every tick. A move takes effect on the first
/// tick, again after [`AUTO_REPEAT_DELAY`] ticks, and from then on every
/// [`AUTO_REPEAT_RATE`] ticks.
pub open spec fn fires(action: Action, duration: int) -> bool {
    match action {
        Action::Hold | Action::RotateClockwise | Action::RotateCounterClockwise | Action::HardDrop => {
            duration == 1
        },
        Action::SoftDrop => duration >= 1,
        Action::MoveLeft | Action::MoveRight => {
            duration == 1 || duration == AUTO_REPEAT_DELAY || (duration > AUTO_REPEAT_DELAY && (
            duration - AUTO_REPEAT_DELAY) % (AUTO_REPEAT_RATE as int) == 0)
        },
    }
}

impl InputDurations {
    /// The durations before any input.
    pub open spec fn zero() -> InputDurations {
        InputDurations {
            move_left: 0,
            move_right: 0,
            rotate_clockwise: 0,
            rotate_counter_clockwise: 0,
            soft_drop: 0,
            hard_drop: 0,
            hold: 0,
        }
    }

    /// The duration of an action.
    pub open spec fn of(self, action: Action) -> u32 {
        match action {
            Action::MoveLeft => self.move_left,
            Action::MoveRight => self.move_right,
            Action::RotateClockwise => self.rotate_clockwise,
            Action::RotateCounterClockwise => self.rotate_counter_clockwise,
            Action::SoftDrop => self.soft_drop,
            Action::HardDrop => self.hard_drop,
            Action::Hold => self.hold,
        }
    }

    /// Whether every duration can be counted one tick further for the actions
    /// signalled.
    pub open spec fn countable(self, pressed: ActionSet) -> bool {
        forall|action: Action| pressed.has(action) ==> #[trigger] self.of(action) < u32::MAX
    }

    /// The durations after a tick on which the actions in `pressed` were
    /// signalled. Left wins over right: while left is held, the duration of
    /// right is 0.
    pub open spec fn advanced(self, pressed: ActionSet) -> InputDurations {
        InputDurations {
            move_left: counted(self.move_left, pressed.move_left) as u32,
            move_right: if pressed.move_left {
                0
            } else {
                counted(self.move_right, pressed.move_right) as u32
            },
            rotate_clockwise: counted(self.rotate_clockwise, pressed.rotate_clockwise) as u32,
            rotate_counter_clockwise: counted(
                self.rotate_counter_clockwise,
                pressed.rotate_counter_clockwise,
            ) as u32,
            soft_drop: counted(self.soft_drop, pressed.soft_drop) as u32,
            hard_drop: counted(self.hard_drop, pressed.hard_drop) as u32,
            hold: counted(self.hold, pressed.hold) as u32,
        }
    }

    /// The actions that take effect on the last tick counted.
    pub open spec fn active(self) -> ActionSet {
        ActionSet {
            move_left: fires(Action::MoveLeft, self.move_left as int),
            move_right: fires(Action::MoveRight, self.move_right as int),
            rotate_clockwise: fires(Action::RotateClockwise, self.rotate_clockwise as int),
            rotate_counter_clockwise: fires(
                Action::RotateCounterClockwise,
                self.rotate_counter_clockwise as int,
            ),
            soft_drop: fires(Action::SoftDrop, self.soft_drop as int),
            hard_drop: fires(Action::HardDrop, self.hard_drop as int),
            hold: fires(Action::Hold, self.hold as int),
        }
    }

    /// Creates the durations before any input.
    pub fn new() -> (durations: InputDurations)
        ensures
            durations == InputDurations::zero(),
    {
        InputDurations {
            move_left: 0,
            move_right: 0,
            rotate_clockwise: 0,
            rotate_counter_clockwise: 0,
            soft_drop: 0,
            hard_drop: 0,
            hold: 0,
        }
    }

    /// Returns whether or not every duration can be counted one tick further
    /// for the actions signalled.
    pub fn can_count(&self, pressed: &ActionSet) -> (ok: bool)
        ensures
            ok == self.countable(*pressed),
    {
        let ok = !(pressed.move_left && self.move_left == u32::MAX) && !(pressed.move_right
            && self.move_right == u32::MAX) && !(pressed.rotate_clockwise && self.rotate_clockwise
            == u32::MAX) && !(pressed.rotate_counter_clockwise && self.rotate_counter_clockwise
            == u32::MAX) && !(pressed.soft_drop && self.soft_drop == u32::MAX) && !(
        pressed.hard_drop && self.hard_drop == u32::MAX) && !(pressed.hold && self.hold
            == u32::MAX);
        proof {
            if !ok {
                let action = if pressed.move_left && self.move_left == u32::MAX {
                    Action::MoveLeft
                } else if pressed.move_right && self.move_right == u32::MAX {
                    Action::MoveRight
                } else if pressed.rotate_clockwise && self.rotate_clockwise == u32::MAX {
                    Action::RotateClockwise
                } else if pressed.rotate_counter_clockwise && self.rotate_counter_clockwise
                    == u32::MAX {
                    Action::RotateCounterClockwise
                } else if pressed.soft_drop && self.soft_drop == u32::MAX {
                    Action::SoftDrop
                } else if pressed.hard_drop && self.hard_drop == u32::MAX {
                    Action::HardDrop
                } else {
                    Action::Hold
                };
                assert(pressed.has(action) && self.of(action) == u32::MAX);
            }
        }
        ok
    }
}

/// Counts one tick of an action's duration.
fn count(duration: u32, pressed: bool) -> (next: u32)
    requires
        pressed ==> duration < u32::MAX,
    ensures
        next == counted(duration, pressed),
{
    if pressed {
        duration + 1
    } else {
        0
    }
}

/// Returns whether or not a move held for `duration` ticks takes effect.
fn move_fires(duration: u32) -> (b: bool)
    ensures
        b == fires(Action::MoveLeft, duration as int),
        b == fires(Action::MoveRight, duration as int),
{
    // Valid on first press, when reaching the auto-repeat delay, or on
    // intervals based on the auto-repeat rate.
    duration == 1 || duration == AUTO_REPEAT_DELAY || (duration > AUTO_REPEAT_DELAY && (duration
        - AUTO_REPEAT_DELAY) % AUTO_REPEAT_RATE == 0)
}

/// Processes the input of one tick: counts it into the durations, clears it,
/// and returns the set of actions to perform on this tick.
pub fn process_input(pressed: &mut ActionSet, durations: &mut InputDurations) -> (actions:
    ActionSet)
    requires
        old(durations).countable(*old(pressed)),
    ensures
        *final(pressed) == ActionSet::empty(),
        *final(durations) == old(durations).advanced(*old(pressed)),
        actions == final(durations).active(),
{
    proof {
        assert(pressed.has(Action::MoveLeft) ==> durations.of(Action::MoveLeft) < u32::MAX);
        assert(pressed.has(Action::MoveRight) ==> durations.of(Action::MoveRight) < u32::MAX);
        assert(pressed.has(Action::RotateClockwise) ==> durations.of(Action::RotateClockwise)
            < u32::MAX);
        assert(pressed.has(Action::RotateCounterClockwise) ==> durations.of(
            Action::RotateCounterClockwise,
        ) < u32::MAX);
        assert(pressed.has(Action::SoftDrop) ==> durations.of(Action::SoftDrop) < u32::MAX);
        assert(pressed.has(Action::HardDrop) ==> durations.of(Action::HardDrop) < u32::MAX);
        assert(pressed.has(Action::Hold) ==> durations.of(Action::Hold) < u32::MAX);
    }
    // Clear the input of this tick and update the durations.
    durations.move_left = count(durations.move_left, pressed.move_left);
    durations.move_right = count(durations.move_right, pressed.move_right);
    durations.rotate_clockwise = count(durations.rotate_clockwise, pressed.rotate_clockwise);
    durations.rotate_counter_clockwise = count(
        durations.rotate_counter_clockwise,
        pressed.rotate_counter_clockwise,
    );
    durations.soft_drop = count(durations.soft_drop, pressed.soft_drop);
    durations.hard_drop = count(durations.hard_drop, pressed.hard_drop);
    durations.hold = count(durations.hold, pressed.hold);
    *pressed = ActionSet::new();

    // Special case: when 'left' and 'right' are both pressed at the same
    // time, give priority to 'left'. Reset the duration of 'right' so that
    // when 'left' is released, 'right' starts with duration zero rather than
    // being in the middle of auto-repeat.
    if durations.move_left > 0 {
        durations.move_right = 0;
    }
    // Determine which actions are valid.
    ActionSet {
        move_left: move_fires(durations.move_left),
        move_right: move_fires(durations.move_right),
        // These actions are only valid on initial press.
        rotate_clockwise: durations.rotate_clockwise == 1,
        rotate_counter_clockwise: durations.rotate_counter_clockwise == 1,
        // This is always valid if pressed.
        soft_drop: durations.soft_drop >= 1,
        hard_drop: durations.hard_drop == 1,
        hold: durations.hold == 1,
    }
}

} // verus!
