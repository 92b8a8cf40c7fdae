use vstd::prelude::*;
use crate::error::{outcome, Error, ErrorView};
use crate::factor::Factor;
use crate::rational::Rational;

verus! {

/// What converting a value from one unit into another does to the value.
///
/// The steps are meant to be taken in the order given, each on the result
/// of the one before.
#[derive(Clone, Copy, Debug, PartialEq, Eq, Structural)]
pub enum Conversion {
    /// The value stays as it is.
    Identity,
    /// The value is multiplied by `from` and then divided by `to`.
    Scale { from: Factor, to: Factor },
    /// `shift_before` hundredths are added to the value, the sum is
    /// multiplied by `numerator` and then divided by `denominator`, and
    /// `shift_after` hundredths are added to that.
    Affine { shift_before: i32, numerator: u32, denominator: u32, shift_after: i32 },
}

impl Conversion {
    /// The affine conversion with the given shifts, in hundredths, and the
    /// given ratio.
    pub open spec fn affine(shift_before: int, numerator: int, denominator: int, shift_after: int) -> Conversion {
        Conversion::Affine {
            shift_before: shift_before as i32,
            numerator: numerator as u32,
            denominator: denominator as u32,
            shift_after: shift_after as i32,
        }
    }

    /// No step divides by zero, and a scale is positive.
    pub open spec fn wf(self) -> bool {
        match self {
            Conversion::Identity => true,
            Conversion::Scale { from, to } => from.wf() && to.wf(),
            Conversion::Affine { numerator, denominator, .. } => numerator > 0 && denominator > 0,
        }
    }

    /// The value after the conversion, in exact arithmetic.
    pub open spec fn apply(self, value: Rational) -> Rational {
        match self {
            Conversion::Identity => value,
            Conversion::Scale { from, to } => value.times(from.value()).over(to.value()),
            Conversion::Affine { shift_before, numerator, denominator, shift_after } => value.plus(
                Rational::hundredths(shift_before as int),
            ).times(Rational::whole(numerator as int)).over(
                Rational::whole(denominator as int),
            ).plus(Rational::hundredths(shift_after as int)),
        }
    }

    /// Applying a well-formed conversion to a number gives a number.
    pub proof fn lemma_apply_wf(self, value: Rational)
        requires
            self.wf(),
            value.wf(),
        ensures
            self.apply(value).wf(),
    {
        match self {
            Conversion::Identity => {},
            Conversion::Scale { from, to } => {
                from.lemma_value_positive();
                to.lemma_value_positive();
                let (a, b, c) = (value.den, from.value().den, to.value().num);
                assert(a * b * c > 0) by (nonlinear_arith)
                    requires
                        a > 0,
                        b > 0,
                        c > 0,
                ;
            },
            Conversion::Affine { shift_before, numerator, denominator, shift_after } => {
                let (a, d) = (value.den, denominator as int);
                assert(a * 100 * 1 * d * 100 > 0) by (nonlinear_arith)
                    requires
                        a > 0,
                        d > 0,
                ;
            },
        }
    }
}

/// The conversion between two units of a quantity whose units differ by
/// scale alone: nothing to do for one and the same unit, else the ratio of
/// the two scales, and the failure of the first unit that has no scale.
pub open spec fn scale_plan(
    same: bool,
    from: Result<Factor, ErrorView>,
    to: Result<Factor, ErrorView>,
) -> Result<Conversion, ErrorView> {
    if same {
        Ok(Conversion::Identity)
    } else {
        match (from, to) {
            (Ok(from), Ok(to)) => Ok(Conversion::Scale { from, to }),
            (Err(error), _) => Err(error),
            (Ok(_), Err(error)) => Err(error),
        }
    }
}

/// The conversion between two different units with the scales given, or the
/// failure of the first of them that has none.
pub fn scale_between(from: Result<Factor, Error>, to: Result<Factor, Error>) -> (plan: Result<
    Conversion,
    Error,
>)
    ensures
        outcome(plan) == scale_plan(false, outcome(from), outcome(to)),
{
    match from {
        Err(error) => Err(error),
        Ok(from) => match to {
            Err(error) => Err(error),
            Ok(to) => Ok(Conversion::Scale { from, to }),
        },
    }
}

/// A unit of a physical quantity that values can be converted from and to.
pub trait Convert: Sized {
    /// The scale of this unit against the SI base unit of its quantity, or
    /// why it has none.
    spec fn si_factor(&self) -> Result<Factor, ErrorView>;

    /// What a value in this unit undergoes to become a value in `unit`.
    spec fn conversion(&self, unit: &Self) -> Result<Conversion, ErrorView>;

    /// conversion factor between this and SI value
    fn as_si(&self) -> (factor: Result<Factor, Error>)
        ensures
            outcome(factor) == self.si_factor(),
            factor matches Ok(f) ==> f.wf(),
    ;

    /// the conversion of a value with this unit into another unit
    fn convert(&self, unit: &Self) -> (plan: Result<Conversion, Error>)
        ensures
            outcome(plan) == self.conversion(unit),
            self == unit ==> plan == Ok::<Conversion, Error>(Conversion::Identity),
            plan matches Ok(c) ==> c.wf(),
    ;

    /// Converting into the unit itself is the identity, whether or not the
    /// unit has a scale.
    proof fn lemma_same_unit(&self)
        ensures
            self.conversion(self) == Ok::<Conversion, ErrorView>(Conversion::Identity),
    ;
}

/// A value converted into the unit that it already has is unchanged.
pub proof fn lemma_convert_identity<U: Convert>(unit: U, value: Rational)
    ensures
        unit.conversion(&unit) matches Ok(c) && c.apply(value) == value,
{
    unit.lemma_same_unit();
}

/// A scaled value, taken in the SI base unit, is the value that it was
/// scaled from, taken in the SI base unit.
pub proof fn lemma_scale_keeps_quantity(a: Factor, b: Factor, value: Rational)
    requires
        a.wf(),
        b.wf(),
        value.wf(),
    ensures
        (Conversion::Scale { from: a, to: b }).apply(value).wf(),
        (Conversion::Scale { from: a, to: b }).apply(value).times(b.value()).same(
            value.times(a.value()),
        ),
{
    (Conversion::Scale { from: a, to: b }).lemma_apply_wf(value);
    let (an, ad) = (a.value().num, a.value().den);
    let (bn, bd) = (b.value().num, b.value().den);
    let (n, d) = (value.num, value.den);
    assert((((n * an) * bd) * bn) * (d * ad) == (n * an) * ((((d * ad) * bn) * bd)))
        by (nonlinear_arith);
}

/// Scaling a value from one unit to another and back gives the value again.
pub proof fn lemma_scale_round_trip(a: Factor, b: Factor, value: Rational)
    requires
        a.wf(),
        b.wf(),
        value.wf(),
    ensures
        (Conversion::Scale { from: b, to: a }).apply(
            (Conversion::Scale { from: a, to: b }).apply(value),
        ).wf(),
        (Conversion::Scale { from: b, to: a }).apply(
            (Conversion::Scale { from: a, to: b }).apply(value),
        ).same(value),
{
    let there = (Conversion::Scale { from: a, to: b }).apply(value);
    (Conversion::Scale { from: a, to: b }).lemma_apply_wf(value);
    (Conversion::Scale { from: b, to: a }).lemma_apply_wf(there);
    let (an, ad) = (a.value().num, a.value().den);
    let (bn, bd) = (b.value().num, b.value().den);
    let (n, d) = (value.num, value.den);
    assert((((n * an) * bd) * bn) * ad * d == n * ((((d * ad) * bn) * bd) * an))
        by (nonlinear_arith);
}

} // verus!
