//! Fractions of one, in thousandths: the positions of the volume and seek
//! sliders, kept in fixed point so that the engine's arithmetic stays exact.

use vstd::prelude::*;

verus! {

/// A fraction in the closed unit interval, counted in thousandths.
#[derive(Clone, Copy, Debug, PartialEq, Eq, Structural)]
pub struct UnitFraction {
    pub permille: u32,
}

impl UnitFraction {
    /// The fraction is at most one.
    pub open spec fn wf(self) -> bool {
        self.permille <= 1000
    }

    /// A fraction from thousandths, clamped into the unit interval.
    pub fn new(permille: u32) -> (r: UnitFraction)
        ensures
            r.wf(),
            r.permille == if permille > 1000 {
                1000u32
            } else {
                permille
            },
    {
        if permille > 1000 {
            UnitFraction { permille: 1000 }
        } else {
            UnitFraction { permille }
        }
    }

    /// Half of one.
    pub fn half() -> (r: UnitFraction)
        ensures
            r.wf(),
            r.permille == 500,
    {
        UnitFraction { permille: 500 }
    }

    /// This fraction of a duration in milliseconds, rounded down.
    pub fn scale_ms(self, ms: u64) -> (r: u64)
        requires
            self.wf(),
        ensures
            r == ms * self.permille / 1000,
    {
        proof {
            assert((ms as int) * (self.permille as int) / 1000 <= ms as int && (ms as int) * (
            self.permille as int) >= 0) by (nonlinear_arith)
                requires
                    self.permille <= 1000,
                    0 <= ms as int <= u64::MAX,
            ;
        }
        ((ms as u128) * (self.permille as u128) / 1000) as u64
    }

    /// The output gain for this slider position, in millionths: the square of
    /// the fraction, so that perceived loudness scales about linearly.
    pub fn gain_millionths(self) -> (g: u32)
        requires
            self.wf(),
        ensures
            g == self.permille * self.permille,
    {
        proof {
            assert((self.permille as int) * (self.permille as int) <= 1000000) by (nonlinear_arith)
                requires
                    self.permille <= 1000,
            ;
        }
        self.permille * self.permille
    }
}

/// Scaling by one half is exact halving (rounded down).
pub proof fn lemma_half_scale(ms: int)
    requires
        0 <= ms,
    ensures
        ms * 500 / 1000 == ms / 2,
{
    assert(ms * 500 / 1000 == ms / 2) by (nonlinear_arith)
        requires
            0 <= ms,
    ;
}

} // verus!
