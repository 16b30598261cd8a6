//! Gravity: how fast the current piece falls by itself.

use vstd::prelude::*;
use vstd::std_specs::ops::MulSpecImpl;
use std::ops::Mul;

verus! {

/// The speed at which the current piece falls: one row every so many ticks,
/// for the slow speeds, or so many rows every tick, for the fast ones.
#[derive(Clone, Copy, PartialEq, Eq, Debug, Structural)]
pub enum Gravity {
    TicksPerRow(u8),
    RowsPerTick(u8),
}

/// The most rows that a piece falls in one tick by gravity: the height of the
/// visible playfield.
pub const MAX_ROWS_PER_TICK: u8 = 20;

/// The quotient `a / b` of two whole numbers rounded to the nearest whole
/// number, halves rounded up.
pub open spec fn rounded_quotient(a: int, b: int) -> int
    recommends
        a >= 0,
        b > 0,
{
    (2 * a + b) / (2 * b)
}

impl Gravity {
    /// This gravity made `factor` times as fast.
    ///
    /// A number of ticks per row greater than the factor is divided by it and
    /// rounded; otherwise the piece falls by whole rows per tick, the factor
    /// divided by the ticks per row and rounded down. Rows per tick are
    /// multiplied by the factor. No gravity is faster than
    /// [`MAX_ROWS_PER_TICK`]. A factor of 0 gives the slowest gravity of its
    /// kind.
    pub open spec fn times(self, factor: int) -> Gravity {
        match self {
            Gravity::TicksPerRow(ticks_per_row) => {
                if ticks_per_row > factor {
                    if factor == 0 {
                        Gravity::TicksPerRow(255)
                    } else {
                        Gravity::TicksPerRow(rounded_quotient(ticks_per_row as int, factor) as u8)
                    }
                } else if factor > MAX_ROWS_PER_TICK * ticks_per_row {
                    Gravity::RowsPerTick(MAX_ROWS_PER_TICK)
                } else if ticks_per_row == 0 {
                    Gravity::RowsPerTick(0)
                } else {
                    Gravity::RowsPerTick((factor / ticks_per_row as int) as u8)
                }
            },
            Gravity::RowsPerTick(rows_per_tick) => {
                if rows_per_tick * factor > MAX_ROWS_PER_TICK {
                    Gravity::RowsPerTick(MAX_ROWS_PER_TICK)
                } else {
                    Gravity::RowsPerTick((rows_per_tick * factor) as u8)
                }
            },
        }
    }
}

impl Mul<u8> for Gravity {
    type Output = Gravity;

    /// Increases gravity by a factor equal to the right-hand side.
    fn mul(self, rhs: u8) -> (product: Gravity) {
        match self {
            Gravity::TicksPerRow(tpr) => {
                if tpr > rhs {
                    if rhs == 0 {
                        Gravity::TicksPerRow(255)
                    } else {
                        let rounded: u16 = (2 * (tpr as u16) + rhs as u16) / (2 * (rhs as u16));
                        assert(rounded <= 255) by (nonlinear_arith)
                            requires
                                rounded == (2 * (tpr as int) + rhs as int) / (2 * (rhs as int)),
                                1 <= rhs < tpr <= 255,
                        ;
                        Gravity::TicksPerRow(rounded as u8)
                    }
                } else if rhs as u16 > MAX_ROWS_PER_TICK as u16 * tpr as u16 {
                    // Max gravity is entire playfield height per tick.
                    Gravity::RowsPerTick(MAX_ROWS_PER_TICK)
                } else if tpr == 0 {
                    Gravity::RowsPerTick(0)
                } else {
                    Gravity::RowsPerTick(rhs / tpr)
                }
            },
            Gravity::RowsPerTick(rpt) => {
                assert(rpt * rhs <= 255 * 255) by (nonlinear_arith)
                    requires
                        0 <= rpt <= 255,
                        0 <= rhs <= 255,
                ;
                let new_rows_per_tick: u16 = rpt as u16 * rhs as u16;
                if new_rows_per_tick > MAX_ROWS_PER_TICK as u16 {
                    Gravity::RowsPerTick(MAX_ROWS_PER_TICK)
                } else {
                    Gravity::RowsPerTick(new_rows_per_tick as u8)
                }
            },
        }
    }
}

impl MulSpecImpl<u8> for Gravity {
    open spec fn obeys_mul_spec() -> bool {
        true
    }

    open spec fn mul_req(self, rhs: u8) -> bool {
        true
    }

    open spec fn mul_spec(self, rhs: u8) -> Gravity {
        self.times(rhs as int)
    }
}

/// However a gravity is multiplied, it never comes to more than
/// [`MAX_ROWS_PER_TICK`] rows per tick.
pub proof fn lemma_times_is_capped(gravity: Gravity, factor: int)
    requires
        0 <= factor,
    ensures
        gravity.times(factor) matches Gravity::RowsPerTick(rows) ==> rows <= MAX_ROWS_PER_TICK,
{
    match gravity {
        Gravity::TicksPerRow(t) => {
            if t <= factor && factor <= MAX_ROWS_PER_TICK * t && t != 0 {
                assert(0 <= factor / (t as int) <= 20) by (nonlinear_arith)
                    requires
                        0 < t,
                        0 <= factor <= 20 * t,
                ;
            }
        },
        Gravity::RowsPerTick(r) => {
            assert(r * factor >= 0) by (nonlinear_arith)
                requires
                    r >= 0,
                    factor >= 0,
            ;
        },
    }
}

} // verus!
