use vstd::prelude::*;

verus! {

/// An exact number `num / den`, the model in which conversions are stated.
pub struct Rational {
    pub num: int,
    pub den: int,
}

impl Rational {
    /// The denominator is positive.
    pub open spec fn wf(self) -> bool {
        self.den > 0
    }

    /// The whole number `n`.
    pub open spec fn whole(n: int) -> Rational {
        Rational { num: n, den: 1 }
    }

    /// The number `n / 100`.
    pub open spec fn hundredths(n: int) -> Rational {
        Rational { num: n, den: 100 }
    }

    /// Both stand for the same number.
    pub open spec fn same(self, other: Rational) -> bool {
        self.num * other.den == other.num * self.den
    }

    pub open spec fn plus(self, other: Rational) -> Rational {
        Rational { num: self.num * other.den + other.num * self.den, den: self.den * other.den }
    }

    pub open spec fn times(self, other: Rational) -> Rational {
        Rational { num: self.num * other.num, den: self.den * other.den }
    }

    /// `self / other`, for a positive `other`.
    pub open spec fn over(self, other: Rational) -> Rational {
        Rational { num: self.num * other.den, den: self.den * other.num }
    }
}

} // verus!
