use vstd::prelude::*;
use crate::convert::{
    lemma_scale_keeps_quantity, lemma_scale_round_trip, scale_between, scale_plan, Conversion,
    Convert,
};
use crate::error::{Error, ErrorView};
use crate::factor::Factor;
use crate::prefix::{prefix_exponent, prefix_symbol};
use crate::rational::Rational;
use crate::text::str_eq;

verus! {

/// The units that a frequency is given in: the hertz with each SI
/// prefix.
#[derive(Clone, Copy, Debug, PartialEq, Eq, Structural)]
pub enum UnitsFrequency {
    YHz,
    ZHz,
    EHz,
    PHz,
    THz,
    GHz,
    MHz,
    kHz,
    hHz,
    daHz,
    Hz,
    dHz,
    cHz,
    mHz,
    uHz,
    nHz,
    pHz,
    fHz,
    aHz,
    zHz,
    yHz,
}

impl UnitsFrequency {
    /// The symbol that the unit is written with: for the first 21 units the
    /// SI prefix followed by the symbol of the hertz.
    pub open spec fn symbol_spec(self) -> Seq<char> {
        prefix_symbol(self.position()) + "Hz"@
    }

    /// The text is a way to write the unit: its symbol, character for
    /// character.  The micro prefix alone has a second spelling, with the
    /// letter u in place of the micro sign.
    pub open spec fn spells(self, text: Seq<char>) -> bool {
        text == self.symbol_spec() || (self == UnitsFrequency::uHz && text == "uHz"@)
    }

    /// The unit that the text is a way to write, if there is one.
    pub open spec fn parse_spec(text: Seq<char>) -> Option<Self> {
        if exists|unit: Self| unit.spells(text) {
            Some(choose|unit: Self| unit.spells(text))
        } else {
            None
        }
    }

    /// Every unit of frequency, in the order of declaration.
    pub open spec fn all() -> Seq<Self> {
        seq![
            UnitsFrequency::YHz,
            UnitsFrequency::ZHz,
            UnitsFrequency::EHz,
            UnitsFrequency::PHz,
            UnitsFrequency::THz,
            UnitsFrequency::GHz,
            UnitsFrequency::MHz,
            UnitsFrequency::kHz,
            UnitsFrequency::hHz,
            UnitsFrequency::daHz,
            UnitsFrequency::Hz,
            UnitsFrequency::dHz,
            UnitsFrequency::cHz,
            UnitsFrequency::mHz,
            UnitsFrequency::uHz,
            UnitsFrequency::nHz,
            UnitsFrequency::pHz,
            UnitsFrequency::fHz,
            UnitsFrequency::aHz,
            UnitsFrequency::zHz,
            UnitsFrequency::yHz,
        ]
    }

    /// The place of the unit in the order of declaration.
    pub open spec fn position(self) -> int {
        match self {
            UnitsFrequency::YHz => 0,
            UnitsFrequency::ZHz => 1,
            UnitsFrequency::EHz => 2,
            UnitsFrequency::PHz => 3,
            UnitsFrequency::THz => 4,
            UnitsFrequency::GHz => 5,
            UnitsFrequency::MHz => 6,
            UnitsFrequency::kHz => 7,
            UnitsFrequency::hHz => 8,
            UnitsFrequency::daHz => 9,
            UnitsFrequency::Hz => 10,
            UnitsFrequency::dHz => 11,
            UnitsFrequency::cHz => 12,
            UnitsFrequency::mHz => 13,
            UnitsFrequency::uHz => 14,
            UnitsFrequency::nHz => 15,
            UnitsFrequency::pHz => 16,
            UnitsFrequency::fHz => 17,
            UnitsFrequency::aHz => 18,
            UnitsFrequency::zHz => 19,
            UnitsFrequency::yHz => 20,
        }
    }

    /// The symbol of the unit.
    pub fn symbol(&self) -> (symbol: &'static str)
        ensures
            symbol@ == self.symbol_spec(),
    {
        proof {
            Self::lemma_prefixed_symbols();
        }
        match self {
            UnitsFrequency::YHz => "YHz",
            UnitsFrequency::ZHz => "ZHz",
            UnitsFrequency::EHz => "EHz",
            UnitsFrequency::PHz => "PHz",
            UnitsFrequency::THz => "THz",
            UnitsFrequency::GHz => "GHz",
            UnitsFrequency::MHz => "MHz",
            UnitsFrequency::kHz => "kHz",
            UnitsFrequency::hHz => "hHz",
            UnitsFrequency::daHz => "daHz",
            UnitsFrequency::Hz => "Hz",
            UnitsFrequency::dHz => "dHz",
            UnitsFrequency::cHz => "cHz",
            UnitsFrequency::mHz => "mHz",
            UnitsFrequency::uHz => "µHz",
            UnitsFrequency::nHz => "nHz",
            UnitsFrequency::pHz => "pHz",
            UnitsFrequency::fHz => "fHz",
            UnitsFrequency::aHz => "aHz",
            UnitsFrequency::zHz => "zHz",
            UnitsFrequency::yHz => "yHz",
        }
    }

    /// Reads a unit from its symbol.  The text has to be the symbol exactly:
    /// nothing is trimmed and no case is folded.
    pub fn parse(text: &str) -> (unit: Result<Self, Error>)
        ensures
            match unit {
                Ok(unit) => Self::parse_spec(text@) == Some(unit),
                Err(error) => Self::parse_spec(text@).is_none() && error@
                    == ErrorView::UnknownUnit(text@),
            },
    {
        proof {
            Self::lemma_prefixed_symbols();
        }
        let found = if str_eq(text, "YHz") {
            Some(UnitsFrequency::YHz)
        } else if str_eq(text, "ZHz") {
            Some(UnitsFrequency::ZHz)
        } else if str_eq(text, "EHz") {
            Some(UnitsFrequency::EHz)
        } else if str_eq(text, "PHz") {
            Some(UnitsFrequency::PHz)
        } else if str_eq(text, "THz") {
            Some(UnitsFrequency::THz)
        } else if str_eq(text, "GHz") {
            Some(UnitsFrequency::GHz)
        } else if str_eq(text, "MHz") {
            Some(UnitsFrequency::MHz)
        } else if str_eq(text, "kHz") {
            Some(UnitsFrequency::kHz)
        } else if str_eq(text, "hHz") {
            Some(UnitsFrequency::hHz)
        } else if str_eq(text, "daHz") {
            Some(UnitsFrequency::daHz)
        } else if str_eq(text, "Hz") {
            Some(UnitsFrequency::Hz)
        } else if str_eq(text, "dHz") {
            Some(UnitsFrequency::dHz)
        } else if str_eq(text, "cHz") {
            Some(UnitsFrequency::cHz)
        } else if str_eq(text, "mHz") {
            Some(UnitsFrequency::mHz)
        } else if str_eq(text, "µHz") || str_eq(text, "uHz") {
            Some(UnitsFrequency::uHz)
        } else if str_eq(text, "nHz") {
            Some(UnitsFrequency::nHz)
        } else if str_eq(text, "pHz") {
            Some(UnitsFrequency::pHz)
        } else if str_eq(text, "fHz") {
            Some(UnitsFrequency::fHz)
        } else if str_eq(text, "aHz") {
            Some(UnitsFrequency::aHz)
        } else if str_eq(text, "zHz") {
            Some(UnitsFrequency::zHz)
        } else if str_eq(text, "yHz") {
            Some(UnitsFrequency::yHz)
        } else {
            None
        };
        match found {
            Some(unit) => {
                proof {
                    assert(unit.spells(text@));
                    Self::lemma_spelling_unique(
                        unit,
                        choose|other: Self| other.spells(text@),
                        text@,
                    );
                }
                Ok(unit)
            },
            None => {
                proof {
                    assert forall|unit: Self| !unit.spells(text@) by {}
                }
                Err(Error::UnknownUnit(text.to_owned()))
            },
        }
    }

    /// all possible variants of this enum that can be constructed or converted into
    pub fn variants() -> (list: Vec<Self>)
        ensures
            list@ == Self::all(),
    {
        vec![
            UnitsFrequency::YHz,
            UnitsFrequency::ZHz,
            UnitsFrequency::EHz,
            UnitsFrequency::PHz,
            UnitsFrequency::THz,
            UnitsFrequency::GHz,
            UnitsFrequency::MHz,
            UnitsFrequency::kHz,
            UnitsFrequency::hHz,
            UnitsFrequency::daHz,
            UnitsFrequency::Hz,
            UnitsFrequency::dHz,
            UnitsFrequency::cHz,
            UnitsFrequency::mHz,
            UnitsFrequency::uHz,
            UnitsFrequency::nHz,
            UnitsFrequency::pHz,
            UnitsFrequency::fHz,
            UnitsFrequency::aHz,
            UnitsFrequency::zHz,
            UnitsFrequency::yHz,
        ]
    }

    /// Each of the first 21 symbols is an SI prefix followed by the symbol of
    /// the hertz.
    pub proof fn lemma_prefixed_symbols()
        ensures
            "YHz"@ == "Y"@ + "Hz"@,
            "ZHz"@ == "Z"@ + "Hz"@,
            "EHz"@ == "E"@ + "Hz"@,
            "PHz"@ == "P"@ + "Hz"@,
            "THz"@ == "T"@ + "Hz"@,
            "GHz"@ == "G"@ + "Hz"@,
            "MHz"@ == "M"@ + "Hz"@,
            "kHz"@ == "k"@ + "Hz"@,
            "hHz"@ == "h"@ + "Hz"@,
            "daHz"@ == "da"@ + "Hz"@,
            "Hz"@ == ""@ + "Hz"@,
            "dHz"@ == "d"@ + "Hz"@,
            "cHz"@ == "c"@ + "Hz"@,
            "mHz"@ == "m"@ + "Hz"@,
            "µHz"@ == "µ"@ + "Hz"@,
            "nHz"@ == "n"@ + "Hz"@,
            "pHz"@ == "p"@ + "Hz"@,
            "fHz"@ == "f"@ + "Hz"@,
            "aHz"@ == "a"@ + "Hz"@,
            "zHz"@ == "z"@ + "Hz"@,
            "yHz"@ == "y"@ + "Hz"@,
    {
        reveal_strlit("YHz");
        reveal_strlit("Y");
        reveal_strlit("Hz");
        reveal_strlit("ZHz");
        reveal_strlit("Z");
        reveal_strlit("EHz");
        reveal_strlit("E");
        reveal_strlit("PHz");
        reveal_strlit("P");
        reveal_strlit("THz");
        reveal_strlit("T");
        reveal_strlit("GHz");
        reveal_strlit("G");
        reveal_strlit("MHz");
        reveal_strlit("M");
        reveal_strlit("kHz");
        reveal_strlit("k");
        reveal_strlit("hHz");
        reveal_strlit("h");
        reveal_strlit("daHz");
        reveal_strlit("da");
        reveal_strlit("");
        reveal_strlit("dHz");
        reveal_strlit("d");
        reveal_strlit("cHz");
        reveal_strlit("c");
        reveal_strlit("mHz");
        reveal_strlit("m");
        reveal_strlit("µHz");
        reveal_strlit("µ");
        reveal_strlit("nHz");
        reveal_strlit("n");
        reveal_strlit("pHz");
        reveal_strlit("p");
        reveal_strlit("fHz");
        reveal_strlit("f");
        reveal_strlit("aHz");
        reveal_strlit("a");
        reveal_strlit("zHz");
        reveal_strlit("z");
        reveal_strlit("yHz");
        reveal_strlit("y");
        assert("YHz"@ =~= "Y"@ + "Hz"@);
        assert("ZHz"@ =~= "Z"@ + "Hz"@);
        assert("EHz"@ =~= "E"@ + "Hz"@);
        assert("PHz"@ =~= "P"@ + "Hz"@);
        assert("THz"@ =~= "T"@ + "Hz"@);
        assert("GHz"@ =~= "G"@ + "Hz"@);
        assert("MHz"@ =~= "M"@ + "Hz"@);
        assert("kHz"@ =~= "k"@ + "Hz"@);
        assert("hHz"@ =~= "h"@ + "Hz"@);
        assert("daHz"@ =~= "da"@ + "Hz"@);
        assert("Hz"@ =~= ""@ + "Hz"@);
        assert("dHz"@ =~= "d"@ + "Hz"@);
        assert("cHz"@ =~= "c"@ + "Hz"@);
        assert("mHz"@ =~= "m"@ + "Hz"@);
        assert("µHz"@ =~= "µ"@ + "Hz"@);
        assert("nHz"@ =~= "n"@ + "Hz"@);
        assert("pHz"@ =~= "p"@ + "Hz"@);
        assert("fHz"@ =~= "f"@ + "Hz"@);
        assert("aHz"@ =~= "a"@ + "Hz"@);
        assert("zHz"@ =~= "z"@ + "Hz"@);
        assert("yHz"@ =~= "y"@ + "Hz"@);
    }

    /// No text is a way to write two different units.
    pub proof fn lemma_spelling_unique(a: Self, b: Self, text: Seq<char>)
        requires
            a.spells(text),
            b.spells(text),
        ensures
            a == b,
    {
        Self::lemma_prefixed_symbols();
        reveal_strlit("YHz");
        reveal_strlit("ZHz");
        reveal_strlit("EHz");
        reveal_strlit("PHz");
        reveal_strlit("THz");
        reveal_strlit("GHz");
        reveal_strlit("MHz");
        reveal_strlit("kHz");
        reveal_strlit("hHz");
        reveal_strlit("daHz");
        reveal_strlit("Hz");
        reveal_strlit("dHz");
        reveal_strlit("cHz");
        reveal_strlit("mHz");
        reveal_strlit("µHz");
        reveal_strlit("uHz");
        reveal_strlit("nHz");
        reveal_strlit("pHz");
        reveal_strlit("fHz");
        reveal_strlit("aHz");
        reveal_strlit("zHz");
        reveal_strlit("yHz");
        assert("YHz"@.len() == 3 && "YHz"@[0] == 'Y' && "YHz"@[1] == 'H' && "YHz"@[2] == 'z');
        assert("ZHz"@.len() == 3 && "ZHz"@[0] == 'Z' && "ZHz"@[1] == 'H' && "ZHz"@[2] == 'z');
        assert("EHz"@.len() == 3 && "EHz"@[0] == 'E' && "EHz"@[1] == 'H' && "EHz"@[2] == 'z');
        assert("PHz"@.len() == 3 && "PHz"@[0] == 'P' && "PHz"@[1] == 'H' && "PHz"@[2] == 'z');
        assert("THz"@.len() == 3 && "THz"@[0] == 'T' && "THz"@[1] == 'H' && "THz"@[2] == 'z');
        assert("GHz"@.len() == 3 && "GHz"@[0] == 'G' && "GHz"@[1] == 'H' && "GHz"@[2] == 'z');
        assert("MHz"@.len() == 3 && "MHz"@[0] == 'M' && "MHz"@[1] == 'H' && "MHz"@[2] == 'z');
        assert("kHz"@.len() == 3 && "kHz"@[0] == 'k' && "kHz"@[1] == 'H' && "kHz"@[2] == 'z');
        assert("hHz"@.len() == 3 && "hHz"@[0] == 'h' && "hHz"@[1] == 'H' && "hHz"@[2] == 'z');
        assert("daHz"@.len() == 4
            && "daHz"@[0] == 'd' && "daHz"@[1] == 'a' && "daHz"@[2] == 'H' && "daHz"@[3] == 'z');
        assert("Hz"@.len() == 2 && "Hz"@[0] == 'H' && "Hz"@[1] == 'z');
        assert("dHz"@.len() == 3 && "dHz"@[0] == 'd' && "dHz"@[1] == 'H' && "dHz"@[2] == 'z');
        assert("cHz"@.len() == 3 && "cHz"@[0] == 'c' && "cHz"@[1] == 'H' && "cHz"@[2] == 'z');
        assert("mHz"@.len() == 3 && "mHz"@[0] == 'm' && "mHz"@[1] == 'H' && "mHz"@[2] == 'z');
        assert("µHz"@.len() == 3 && "µHz"@[0] == 'µ' && "µHz"@[1] == 'H' && "µHz"@[2] == 'z');
        assert("uHz"@.len() == 3 && "uHz"@[0] == 'u' && "uHz"@[1] == 'H' && "uHz"@[2] == 'z');
        assert("nHz"@.len() == 3 && "nHz"@[0] == 'n' && "nHz"@[1] == 'H' && "nHz"@[2] == 'z');
        assert("pHz"@.len() == 3 && "pHz"@[0] == 'p' && "pHz"@[1] == 'H' && "pHz"@[2] == 'z');
        assert("fHz"@.len() == 3 && "fHz"@[0] == 'f' && "fHz"@[1] == 'H' && "fHz"@[2] == 'z');
        assert("aHz"@.len() == 3 && "aHz"@[0] == 'a' && "aHz"@[1] == 'H' && "aHz"@[2] == 'z');
        assert("zHz"@.len() == 3 && "zHz"@[0] == 'z' && "zHz"@[1] == 'H' && "zHz"@[2] == 'z');
        assert("yHz"@.len() == 3 && "yHz"@[0] == 'y' && "yHz"@[1] == 'H' && "yHz"@[2] == 'z');
    }

    /// Reading the symbol of a unit gives the unit back.
    pub proof fn lemma_parse_symbol(unit: Self)
        ensures
            Self::parse_spec(unit.symbol_spec()) == Some(unit),
    {
        let text = unit.symbol_spec();
        assert(unit.spells(text));
        Self::lemma_spelling_unique(unit, choose|other: Self| other.spells(text), text);
    }

    /// The list of variants holds each of the 21 units once, at its place.
    pub proof fn lemma_variants_complete(unit: Self)
        ensures
            Self::all().len() == 21,
            0 <= unit.position() < 21,
            Self::all()[unit.position()] == unit,
            Self::all().contains(unit),
            Self::all().no_duplicates(),
    {
        let all = Self::all();
        assert(all[unit.position()] == unit);
        assert forall|i: int| 0 <= i < all.len() implies (#[trigger] all[i]).position() == i by {}
    }

    /// The hertz is the one unit whose scale is one.
    pub proof fn lemma_base_unit(unit: Self)
        ensures
            (unit.si_factor() matches Ok(factor) && factor.is_one()) <==> unit == UnitsFrequency::Hz,
    {
        Factor::lemma_decimal_is_one(1, prefix_exponent(unit.position()));
    }

    /// A converted value, taken in hertzs, is the value that it was
    /// converted from, taken in hertzs.
    pub proof fn lemma_same_quantity(self, unit: Self, value: Rational)
        requires
            value.wf(),
        ensures
            self.conversion(&unit) matches Ok(there) && there.apply(value).times(
                unit.si_factor()->Ok_0.value(),
            ).same(value.times(self.si_factor()->Ok_0.value())),
    {
        if self != unit {
            lemma_scale_keeps_quantity(self.si_factor()->Ok_0, unit.si_factor()->Ok_0, value);
        }
    }

    /// Converting a frequency into another unit and back gives the value again.
    pub proof fn lemma_round_trip(self, unit: Self, value: Rational)
        requires
            value.wf(),
        ensures
            self.conversion(&unit) matches Ok(there) && unit.conversion(&self) matches Ok(back)
                && back.apply(there.apply(value)).same(value),
    {
        if self != unit {
            lemma_scale_round_trip(self.si_factor()->Ok_0, unit.si_factor()->Ok_0, value);
        }
    }
}

impl core::str::FromStr for UnitsFrequency {
    type Err = Error;

    /// Reads a unit from its symbol, as [`UnitsFrequency::parse`] does.
    fn from_str(text: &str) -> (unit: Result<Self, Error>)
        ensures
            match unit {
                Ok(unit) => Self::parse_spec(text@) == Some(unit),
                Err(error) => Self::parse_spec(text@).is_none() && error@
                    == ErrorView::UnknownUnit(text@),
            },
    {
        Self::parse(text)
    }
}

impl Convert for UnitsFrequency {
    /// How many hertzs the unit is: for the first 21 units the power of
    /// ten of the SI prefix.
    open spec fn si_factor(&self) -> Result<Factor, ErrorView> {
        Ok(Factor::of(1, prefix_exponent(self.position())))
    }

    open spec fn conversion(&self, unit: &Self) -> Result<Conversion, ErrorView> {
        scale_plan(self == unit, self.si_factor(), unit.si_factor())
    }

    fn as_si(&self) -> (factor: Result<Factor, Error>) {
        match self {
            UnitsFrequency::YHz => Ok(Factor::decimal(1, 24)),
            UnitsFrequency::ZHz => Ok(Factor::decimal(1, 21)),
            UnitsFrequency::EHz => Ok(Factor::decimal(1, 18)),
            UnitsFrequency::PHz => Ok(Factor::decimal(1, 15)),
            UnitsFrequency::THz => Ok(Factor::decimal(1, 12)),
            UnitsFrequency::GHz => Ok(Factor::decimal(1, 9)),
            UnitsFrequency::MHz => Ok(Factor::decimal(1, 6)),
            UnitsFrequency::kHz => Ok(Factor::decimal(1, 3)),
            UnitsFrequency::hHz => Ok(Factor::decimal(1, 2)),
            UnitsFrequency::daHz => Ok(Factor::decimal(1, 1)),
            UnitsFrequency::Hz => Ok(Factor::decimal(1, 0)),
            UnitsFrequency::dHz => Ok(Factor::decimal(1, -1)),
            UnitsFrequency::cHz => Ok(Factor::decimal(1, -2)),
            UnitsFrequency::mHz => Ok(Factor::decimal(1, -3)),
            UnitsFrequency::uHz => Ok(Factor::decimal(1, -6)),
            UnitsFrequency::nHz => Ok(Factor::decimal(1, -9)),
            UnitsFrequency::pHz => Ok(Factor::decimal(1, -12)),
            UnitsFrequency::fHz => Ok(Factor::decimal(1, -15)),
            UnitsFrequency::aHz => Ok(Factor::decimal(1, -18)),
            UnitsFrequency::zHz => Ok(Factor::decimal(1, -21)),
            UnitsFrequency::yHz => Ok(Factor::decimal(1, -24)),
        }
    }

    fn convert(&self, unit: &Self) -> (plan: Result<Conversion, Error>) {
        if *self == *unit {
            Ok(Conversion::Identity)
        } else {
            scale_between(self.as_si(), unit.as_si())
        }
    }

    proof fn lemma_same_unit(&self) {
    }
}

} // verus!
