use vstd::prelude::*;
use crate::rational::Rational;

verus! {

/// Ten to the power `n`.
pub open spec fn pow10(n: nat) -> nat
    decreases n,
{
    if n == 0 {
        1
    } else {
        10 * pow10((n - 1) as nat)
    }
}

/// Every power of ten is positive.
pub proof fn lemma_pow10_positive(n: nat)
    ensures
        pow10(n) > 0,
    decreases n,
{
    if n > 0 {
        lemma_pow10_positive((n - 1) as nat);
    }
}

/// From ten on, a power of ten is a multiple of ten.
pub proof fn lemma_pow10_multiple_of_ten(n: nat)
    requires
        n >= 1,
    ensures
        pow10(n) >= 10,
        pow10(n) % 10 == 0,
{
    lemma_pow10_positive((n - 1) as nat);
}

/// The scale of a unit against the SI base unit of its quantity, held
/// exactly: `mantissa × 10^exponent / divisor`.
#[derive(Clone, Copy, Debug, PartialEq, Eq, Structural)]
pub struct Factor {
    pub mantissa: u64,
    pub exponent: i32,
    pub divisor: u64,
}

impl Factor {
    /// A factor is a positive number.
    pub open spec fn wf(self) -> bool {
        self.mantissa > 0 && self.divisor > 0
    }

    /// The number that the factor stands for.
    pub open spec fn value(self) -> Rational {
        if self.exponent >= 0 {
            Rational {
                num: self.mantissa * pow10(self.exponent as nat),
                den: self.divisor as int,
            }
        } else {
            Rational {
                num: self.mantissa as int,
                den: self.divisor * pow10((-self.exponent) as nat),
            }
        }
    }

    /// The factor stands for the number one.
    pub open spec fn is_one(self) -> bool {
        self.value().same(Rational::whole(1))
    }

    /// The factor `mantissa × 10^exponent`.
    pub open spec fn of(mantissa: int, exponent: int) -> Factor {
        Factor { mantissa: mantissa as u64, exponent: exponent as i32, divisor: 1 }
    }

    /// The factor `numerator / divisor`.
    pub open spec fn ratio(numerator: int, divisor: int) -> Factor {
        Factor { mantissa: numerator as u64, exponent: 0, divisor: divisor as u64 }
    }

    /// The factor `mantissa × 10^exponent`.
    pub fn decimal(mantissa: u64, exponent: i32) -> (factor: Factor)
        ensures
            factor == Self::of(mantissa as int, exponent as int),
    {
        Factor { mantissa, exponent, divisor: 1 }
    }

    /// The factor `numerator / divisor`.
    pub fn fraction(numerator: u64, divisor: u64) -> (factor: Factor)
        ensures
            factor == Self::ratio(numerator as int, divisor as int),
    {
        Factor { mantissa: numerator, exponent: 0, divisor }
    }

    /// A decimal factor whose mantissa does not end in a zero stands for
    /// the number one only as `1 × 10^0`.
    pub proof fn lemma_decimal_is_one(mantissa: int, exponent: int)
        requires
            0 < mantissa <= u64::MAX,
            i32::MIN < exponent <= i32::MAX,
            mantissa % 10 != 0,
        ensures
            Self::of(mantissa, exponent).is_one() <==> mantissa == 1 && exponent == 0,
    {
        if exponent > 0 {
            lemma_pow10_multiple_of_ten(exponent as nat);
            assert(mantissa * pow10(exponent as nat) >= 10) by (nonlinear_arith)
                requires
                    mantissa >= 1,
                    pow10(exponent as nat) >= 10,
            ;
        } else if exponent < 0 {
            lemma_pow10_multiple_of_ten((-exponent) as nat);
        } else {
            assert(pow10(0) == 1);
        }
    }

    /// A well-formed factor stands for a positive number.
    pub proof fn lemma_value_positive(self)
        requires
            self.wf(),
        ensures
            self.value().num > 0,
            self.value().den > 0,
    {
        if self.exponent >= 0 {
            lemma_pow10_positive(self.exponent as nat);
            assert(self.mantissa * pow10(self.exponent as nat) > 0) by (nonlinear_arith)
                requires
                    self.mantissa > 0,
                    pow10(self.exponent as nat) > 0,
            ;
        } else {
            lemma_pow10_positive((-self.exponent) as nat);
            assert(self.divisor * pow10((-self.exponent) as nat) > 0) by (nonlinear_arith)
                requires
                    self.divisor > 0,
                    pow10((-self.exponent) as nat) > 0,
            ;
        }
    }
}

} // verus!
