//! Directions on the dial as exact fractions of a full turn.

use vstd::prelude::*;

verus! {

/// A direction on the dial: the fraction `num / den` of a full turn away from
/// twelve o'clock.
///
/// The sign follows the screen convention of the hands: a negative numerator
/// turns clockwise, a positive one counter-clockwise. In radians the angle is
/// `2π · num / den`.
#[derive(Clone, Copy, Debug, PartialEq, Eq, Structural)]
pub struct Angle {
    pub num: i32,
    pub den: u32,
}

impl Angle {
    /// An angle is well formed when its denominator is positive.
    pub open spec fn wf(&self) -> bool {
        self.den > 0
    }

    /// The direction `steps / of` of a turn clockwise from twelve.
    pub open spec fn clockwise(steps: int, of: int) -> Angle {
        Angle { num: (-steps) as i32, den: of as u32 }
    }

    /// The direction `steps / of` of a turn counter-clockwise from twelve.
    pub open spec fn counter_clockwise(steps: int, of: int) -> Angle {
        Angle { num: steps as i32, den: of as u32 }
    }

    /// Both angles are the same fraction of a turn, whatever their denominators.
    pub open spec fn same_turn(&self, other: &Angle) -> bool {
        self.num * other.den == other.num * self.den
    }

    /// Twelve o'clock.
    pub fn zero() -> (a: Angle)
        ensures
            a == Angle::clockwise(0, 1),
            a.num == 0,
            a.den == 1,
            a.wf(),
    {
        Angle { num: 0, den: 1 }
    }

    /// Decides whether two angles are the same fraction of a turn.
    pub fn is_same_turn(&self, other: &Angle) -> (same: bool)
        ensures
            same == self.same_turn(other),
    {
        let a: i64 = self.num as i64;
        let b: i64 = other.den as i64;
        let c: i64 = other.num as i64;
        let d: i64 = self.den as i64;
        assert(-0x8000_0000_0000_0000 <= a * b <= 0x7fff_ffff_ffff_ffff) by (nonlinear_arith)
            requires
                -0x8000_0000 <= a <= 0x7fff_ffff,
                0 <= b <= 0xffff_ffff,
        ;
        assert(-0x8000_0000_0000_0000 <= c * d <= 0x7fff_ffff_ffff_ffff) by (nonlinear_arith)
            requires
                -0x8000_0000 <= c <= 0x7fff_ffff,
                0 <= d <= 0xffff_ffff,
        ;
        a * b == c * d
    }
}

} // verus!
