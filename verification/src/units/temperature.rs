use vstd::prelude::*;
use crate::convert::{Conversion, Convert};
use crate::error::{outcome, Error, ErrorView};
use crate::factor::Factor;
use crate::rational::Rational;
use crate::text::str_eq;

verus! {

/// The four temperature scales.
#[derive(Clone, Copy, Debug, PartialEq, Eq, Structural)]
pub enum UnitsTemperature {
    C,
    F,
    K,
    R,
}

impl UnitsTemperature {
    /// The symbol that the unit is written with.
    pub open spec fn symbol_spec(self) -> Seq<char> {
        match self {
            UnitsTemperature::C => "°C"@,
            UnitsTemperature::F => "°F"@,
            UnitsTemperature::K => "K"@,
            UnitsTemperature::R => "°R"@,
        }
    }

    /// The text is a way to write the unit: its symbol, character for
    /// character.
    pub open spec fn spells(self, text: Seq<char>) -> bool {
        text == self.symbol_spec()
    }

    /// The unit that the text is a way to write, if there is one.
    pub open spec fn parse_spec(text: Seq<char>) -> Option<Self> {
        if exists|unit: Self| unit.spells(text) {
            Some(choose|unit: Self| unit.spells(text))
        } else {
            None
        }
    }

    /// Every temperature scale, in the order of declaration.
    pub open spec fn all() -> Seq<Self> {
        seq![UnitsTemperature::C, UnitsTemperature::F, UnitsTemperature::K, UnitsTemperature::R]
    }

    /// The place of the unit in the order of declaration.
    pub open spec fn position(self) -> int {
        match self {
            UnitsTemperature::C => 0,
            UnitsTemperature::F => 1,
            UnitsTemperature::K => 2,
            UnitsTemperature::R => 3,
        }
    }

    /// The conversion between two temperature scales.  Two of the scales
    /// have their zero elsewhere than the others, so each ordered pair has a
    /// formula of its own, and no ratio of scales is ever taken.
    pub open spec fn formula(self, unit: Self) -> Conversion {
        match (self, unit) {
            (UnitsTemperature::F, UnitsTemperature::C) => Conversion::affine(-3200, 5, 9, 0),
            (UnitsTemperature::K, UnitsTemperature::C) => Conversion::affine(0, 1, 1, -27315),
            (UnitsTemperature::R, UnitsTemperature::C) => Conversion::affine(0, 5, 9, -27315),
            (UnitsTemperature::C, UnitsTemperature::F) => Conversion::affine(0, 9, 5, 3200),
            (UnitsTemperature::K, UnitsTemperature::F) => Conversion::affine(0, 9, 5, -45967),
            (UnitsTemperature::R, UnitsTemperature::F) => Conversion::affine(0, 1, 1, -45967),
            (UnitsTemperature::C, UnitsTemperature::K) => Conversion::affine(0, 1, 1, 27315),
            (UnitsTemperature::F, UnitsTemperature::K) => Conversion::affine(45967, 5, 9, 0),
            (UnitsTemperature::R, UnitsTemperature::K) => Conversion::affine(0, 5, 9, 0),
            (UnitsTemperature::C, UnitsTemperature::R) => Conversion::affine(27315, 9, 5, 0),
            (UnitsTemperature::F, UnitsTemperature::R) => Conversion::affine(0, 1, 1, 45967),
            (UnitsTemperature::K, UnitsTemperature::R) => Conversion::affine(0, 9, 5, 0),
            _ => Conversion::Identity,
        }
    }

    /// The temperature in kelvins that a value on this scale stands for: a
    /// degree of the Fahrenheit and Rankine scales is five ninths of a
    /// kelvin, and the zeros of the Celsius and Fahrenheit scales lie 273.15
    /// and 459.67 of their degrees above absolute zero.
    pub open spec fn kelvin(self, value: Rational) -> Rational {
        match self {
            UnitsTemperature::C => value.plus(Rational::hundredths(27315)),
            UnitsTemperature::F => value.plus(Rational::hundredths(45967)).times(
                Rational::whole(5),
            ).over(Rational::whole(9)),
            UnitsTemperature::K => value,
            UnitsTemperature::R => value.times(Rational::whole(5)).over(Rational::whole(9)),
        }
    }

    /// The symbol of the unit.
    pub fn symbol(&self) -> (symbol: &'static str)
        ensures
            symbol@ == self.symbol_spec(),
    {
        match self {
            UnitsTemperature::C => "°C",
            UnitsTemperature::F => "°F",
            UnitsTemperature::K => "K",
            UnitsTemperature::R => "°R",
        }
    }

    /// Reads a unit from its symbol.  The text has to be the symbol exactly:
    /// nothing is trimmed and no case is folded.
    pub fn parse(text: &str) -> (unit: Result<Self, Error>)
        ensures
            match unit {
                Ok(unit) => Self::parse_spec(text@) == Some(unit),
                Err(error) => Self::parse_spec(text@).is_none() && error@ == ErrorView::UnknownUnit(
                    text@,
                ),
            },
    {
        let found = if str_eq(text, "°C") {
            Some(UnitsTemperature::C)
        } else if str_eq(text, "°F") {
            Some(UnitsTemperature::F)
        } else if str_eq(text, "K") {
            Some(UnitsTemperature::K)
        } else if str_eq(text, "°R") {
            Some(UnitsTemperature::R)
        } else {
            None
        };
        match found {
            Some(unit) => {
                proof {
                    assert(unit.spells(text@));
                    Self::lemma_spelling_unique(unit, choose|other: Self| other.spells(text@), text@);
                }
                Ok(unit)
            },
            None => {
                proof {
                    assert forall|unit: Self| !unit.spells(text@) by {}
                }
                Err(Error::UnknownUnit(text.to_owned()))
            },
        }
    }

    /// all possible variants of this enum that can be constructed or converted into
    pub fn variants() -> (list: Vec<Self>)
        ensures
            list@ == Self::all(),
    {
        vec![UnitsTemperature::C, UnitsTemperature::F, UnitsTemperature::K, UnitsTemperature::R]
    }

    /// No text is a way to write two different units.
    pub proof fn lemma_spelling_unique(a: Self, b: Self, text: Seq<char>)
        requires
            a.spells(text),
            b.spells(text),
        ensures
            a == b,
    {
        reveal_strlit("°C");
        reveal_strlit("°F");
        reveal_strlit("K");
        reveal_strlit("°R");
        assert("°C"@.len() == 2 && "°C"@[1] == 'C');
        assert("°F"@.len() == 2 && "°F"@[1] == 'F');
        assert("K"@.len() == 1);
        assert("°R"@.len() == 2 && "°R"@[1] == 'R');
    }

    /// Reading the symbol of a unit gives the unit back.
    pub proof fn lemma_parse_symbol(unit: Self)
        ensures
            Self::parse_spec(unit.symbol_spec()) == Some(unit),
    {
        let text = unit.symbol_spec();
        assert(unit.spells(text));
        Self::lemma_spelling_unique(unit, choose|other: Self| other.spells(text), text);
    }

    /// The list of variants holds each of the four units once, at its place.
    pub proof fn lemma_variants_complete(unit: Self)
        ensures
            Self::all().len() == 4,
            0 <= unit.position() < 4,
            Self::all()[unit.position()] == unit,
            Self::all().contains(unit),
            Self::all().no_duplicates(),
    {
        let all = Self::all();
        assert(all[unit.position()] == unit);
        assert forall|i: int| 0 <= i < all.len() implies (#[trigger] all[i]).position() == i by {}
    }

    /// A conversion between temperature scales always exists and never
    /// takes the ratio of two scales.
    pub proof fn lemma_never_scaled(self, unit: Self)
        ensures
            self.conversion(&unit) == Ok::<Conversion, ErrorView>(self.formula(unit)),
            !(self.formula(unit) is Scale),
            self.formula(unit).wf(),
    {
    }

    /// A converted value stands for the same temperature as the value that
    /// it was converted from.
    pub proof fn lemma_same_temperature(self, unit: Self, value: Rational)
        requires
            value.wf(),
        ensures
            unit.kelvin(self.formula(unit).apply(value)).same(self.kelvin(value)),
    {
        let before = self.kelvin(value);
        let after = unit.kelvin(self.formula(unit).apply(value));
        let (n, d) = (value.num, value.den);
        assert(after.num * before.den == before.num * after.den) by (nonlinear_arith)
            requires
                before == self.kelvin(value),
                after == unit.kelvin(self.formula(unit).apply(value)),
                n == value.num,
                d == value.den,
        ;
    }

    /// Converting a temperature to another scale and back gives the
    /// temperature again.
    pub proof fn lemma_round_trip(self, unit: Self, value: Rational)
        requires
            value.wf(),
        ensures
            unit.formula(self).apply(self.formula(unit).apply(value)).same(value),
    {
        let there = self.formula(unit).apply(value);
        let back = unit.formula(self).apply(there);
        let (n, d) = (value.num, value.den);
        assert(back.num * d == n * back.den) by (nonlinear_arith)
            requires
                back == unit.formula(self).apply(self.formula(unit).apply(value)),
                n == value.num,
                d == value.den,
        ;
    }
}

impl core::str::FromStr for UnitsTemperature {
    type Err = Error;

    /// Reads a unit from its symbol, as [`UnitsTemperature::parse`] does.
    fn from_str(text: &str) -> (unit: Result<Self, Error>)
        ensures
            match unit {
                Ok(unit) => Self::parse_spec(text@) == Some(unit),
                Err(error) => Self::parse_spec(text@).is_none() && error@
                    == ErrorView::UnknownUnit(text@),
            },
    {
        Self::parse(text)
    }
}

impl Convert for UnitsTemperature {
    /// The two scales with an offset have no factor.  The other two have
    /// nominal entries, which no conversion uses.
    open spec fn si_factor(&self) -> Result<Factor, ErrorView> {
        match self {
            UnitsTemperature::C => Err(ErrorView::TemparatureConversion),
            UnitsTemperature::F => Err(ErrorView::TemparatureConversion),
            UnitsTemperature::K => Ok(Factor::of(1, 1)),
            UnitsTemperature::R => Ok(Factor::ratio(5, 9)),
        }
    }

    open spec fn conversion(&self, unit: &Self) -> Result<Conversion, ErrorView> {
        Ok(self.formula(*unit))
    }

    fn as_si(&self) -> (factor: Result<Factor, Error>) {
        match self {
            UnitsTemperature::C => Err(Error::TemparatureConversion),
            UnitsTemperature::F => Err(Error::TemparatureConversion),
            UnitsTemperature::K => Ok(Factor::decimal(1, 1)),
            UnitsTemperature::R => Ok(Factor::fraction(5, 9)),
        }
    }

    fn convert(&self, unit: &Self) -> (plan: Result<Conversion, Error>)
        ensures
            plan == Ok::<Conversion, Error>(self.formula(*unit)),
    {
        let plan = match (self, unit) {
            (UnitsTemperature::F, UnitsTemperature::C) => Conversion::Affine {
                shift_before: -3200,
                numerator: 5,
                denominator: 9,
                shift_after: 0,
            },
            (UnitsTemperature::K, UnitsTemperature::C) => Conversion::Affine {
                shift_before: 0,
                numerator: 1,
                denominator: 1,
                shift_after: -27315,
            },
            (UnitsTemperature::R, UnitsTemperature::C) => Conversion::Affine {
                shift_before: 0,
                numerator: 5,
                denominator: 9,
                shift_after: -27315,
            },
            (UnitsTemperature::C, UnitsTemperature::F) => Conversion::Affine {
                shift_before: 0,
                numerator: 9,
                denominator: 5,
                shift_after: 3200,
            },
            (UnitsTemperature::K, UnitsTemperature::F) => Conversion::Affine {
                shift_before: 0,
                numerator: 9,
                denominator: 5,
                shift_after: -45967,
            },
            (UnitsTemperature::R, UnitsTemperature::F) => Conversion::Affine {
                shift_before: 0,
                numerator: 1,
                denominator: 1,
                shift_after: -45967,
            },
            (UnitsTemperature::C, UnitsTemperature::K) => Conversion::Affine {
                shift_before: 0,
                numerator: 1,
                denominator: 1,
                shift_after: 27315,
            },
            (UnitsTemperature::F, UnitsTemperature::K) => Conversion::Affine {
                shift_before: 45967,
                numerator: 5,
                denominator: 9,
                shift_after: 0,
            },
            (UnitsTemperature::R, UnitsTemperature::K) => Conversion::Affine {
                shift_before: 0,
                numerator: 5,
                denominator: 9,
                shift_after: 0,
            },
            (UnitsTemperature::C, UnitsTemperature::R) => Conversion::Affine {
                shift_before: 27315,
                numerator: 9,
                denominator: 5,
                shift_after: 0,
            },
            (UnitsTemperature::F, UnitsTemperature::R) => Conversion::Affine {
                shift_before: 0,
                numerator: 1,
                denominator: 1,
                shift_after: 45967,
            },
            (UnitsTemperature::K, UnitsTemperature::R) => Conversion::Affine {
                shift_before: 0,
                numerator: 9,
                denominator: 5,
                shift_after: 0,
            },
            _ => Conversion::Identity,
        };
        Ok(plan)
    }

    proof fn lemma_same_unit(&self) {
    }
}

} // verus!
