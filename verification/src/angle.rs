//! Angles as exact fractions of a turn.

use vstd::prelude::*;

verus! {

/// The number of angle units in a full turn: angles are counted in
/// millionths of a turn.
pub const TURN: u32 = 1_000_000;

/// An angle of `num / den` millionths of a turn, measured from the local +x
/// axis. The fraction is kept as it was formed and never rounded.
#[derive(Clone, Copy, Debug, PartialEq, Eq, Structural)]
pub struct Angle {
    pub num: i128,
    pub den: u64,
}

impl Angle {
    /// The fraction has a denominator.
    pub open spec fn wf(self) -> bool {
        self.den > 0
    }

    /// Small enough to be multiplied by a 32-bit count and compared with
    /// another such angle without leaving 128 bits.
    pub open spec fn narrow(self) -> bool {
        &&& -0x4000_0000_0000_0000 <= self.num <= 0x4000_0000_0000_0000
        &&& 0 < self.den <= 0xffff_ffff
    }

    /// Whether the angle is narrow.
    #[verifier::when_used_as_spec(narrow)]
    pub fn is_narrow(self) -> (b: bool)
        ensures
            b == self.narrow(),
    {
        -0x4000_0000_0000_0000 <= self.num && self.num <= 0x4000_0000_0000_0000 && 0 < self.den
            && self.den <= 0xffff_ffff
    }

    /// The angle of `n` millionths of a turn.
    pub fn micro_turns(n: i64) -> (a: Angle)
        ensures
            a == (Angle { num: n as i128, den: 1 }),
    {
        Angle { num: n as i128, den: 1 }
    }

    /// The angle reached after `count` steps of `self`.
    pub fn times(self, count: u32) -> (a: Angle)
        requires
            self.narrow(),
        ensures
            a.num == count * self.num,
            a.den == self.den,
    {
        assert(-0x4000_0000_0000_0000 * 0x1_0000_0000 <= count * self.num
            <= 0x4000_0000_0000_0000 * 0x1_0000_0000) by (nonlinear_arith)
            requires
                -0x4000_0000_0000_0000 <= self.num <= 0x4000_0000_0000_0000,
                0 <= count < 0x1_0000_0000,
        ;
        Angle { num: (count as i128) * self.num, den: self.den }
    }

    /// Whether `count` steps of `self` reach or pass `sweep`.
    pub open spec fn spec_reaches(self, count: u32, sweep: Angle) -> bool {
        count * self.num * sweep.den >= sweep.num * self.den
    }

    /// Whether `count` steps of `self` reach or pass `sweep`.
    #[verifier::when_used_as_spec(spec_reaches)]
    pub fn reaches(self, count: u32, sweep: Angle) -> (b: bool)
        requires
            self.narrow(),
            sweep.narrow(),
        ensures
            b == self.spec_reaches(count, sweep),
    {
        assert(-0x4000_0000_0000_0000 * 0x1_0000_0000 <= count * self.num
            <= 0x4000_0000_0000_0000 * 0x1_0000_0000) by (nonlinear_arith)
            requires
                -0x4000_0000_0000_0000 <= self.num <= 0x4000_0000_0000_0000,
                0 <= count < 0x1_0000_0000,
        ;
        let stepped: i128 = (count as i128) * self.num;
        assert(-0x4000_0000_0000_0000 * 0x1_0000_0000 * 0x1_0000_0000 <= stepped * sweep.den
            <= 0x4000_0000_0000_0000 * 0x1_0000_0000 * 0x1_0000_0000) by (nonlinear_arith)
            requires
                -0x4000_0000_0000_0000 * 0x1_0000_0000 <= stepped <= 0x4000_0000_0000_0000
                    * 0x1_0000_0000,
                0 < sweep.den < 0x1_0000_0000,
        ;
        assert(-0x4000_0000_0000_0000 * 0x1_0000_0000 <= sweep.num * self.den
            <= 0x4000_0000_0000_0000 * 0x1_0000_0000) by (nonlinear_arith)
            requires
                -0x4000_0000_0000_0000 <= sweep.num <= 0x4000_0000_0000_0000,
                0 < self.den < 0x1_0000_0000,
        ;
        stepped * (sweep.den as i128) >= sweep.num * (self.den as i128)
    }
}

} // verus!
