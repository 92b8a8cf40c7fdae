use vstd::prelude::*;
use crate::convert::{
    lemma_scale_keeps_quantity, lemma_scale_round_trip, scale_between, scale_plan, Conversion,
    Convert,
};
use crate::error::{Error, ErrorView};
use crate::factor::Factor;
use crate::prefix::{prefix_exponent, prefix_symbol};
use crate::rational::Rational;
use crate::text::str_eq;

verus! {

/// The units that an electric potential is given in: the volt with each SI
/// prefix.
#[derive(Clone, Copy, Debug, PartialEq, Eq, Structural)]
pub enum UnitsElectricPotential {
    YV,
    ZV,
    EV,
    PV,
    TV,
    GV,
    MV,
    kV,
    hV,
    daV,
    V,
    dV,
    cV,
    mV,
    uV,
    nV,
    pV,
    fV,
    aV,
    zV,
    yV,
}

impl UnitsElectricPotential {
    /// The symbol that the unit is written with: for the first 21 units the
    /// SI prefix followed by the symbol of the volt.
    pub open spec fn symbol_spec(self) -> Seq<char> {
        prefix_symbol(self.position()) + "V"@
    }

    /// The text is a way to write the unit: its symbol, character for
    /// character.  The micro prefix alone has a second spelling, with the
    /// letter u in place of the micro sign.
    pub open spec fn spells(self, text: Seq<char>) -> bool {
        text == self.symbol_spec() || (self == UnitsElectricPotential::uV && text == "uV"@)
    }

    /// The unit that the text is a way to write, if there is one.
    pub open spec fn parse_spec(text: Seq<char>) -> Option<Self> {
        if exists|unit: Self| unit.spells(text) {
            Some(choose|unit: Self| unit.spells(text))
        } else {
            None
        }
    }

    /// Every unit of electric potential, in the order of declaration.
    pub open spec fn all() -> Seq<Self> {
        seq![
            UnitsElectricPotential::YV,
            UnitsElectricPotential::ZV,
            UnitsElectricPotential::EV,
            UnitsElectricPotential::PV,
            UnitsElectricPotential::TV,
            UnitsElectricPotential::GV,
            UnitsElectricPotential::MV,
            UnitsElectricPotential::kV,
            UnitsElectricPotential::hV,
            UnitsElectricPotential::daV,
            UnitsElectricPotential::V,
            UnitsElectricPotential::dV,
            UnitsElectricPotential::cV,
            UnitsElectricPotential::mV,
            UnitsElectricPotential::uV,
            UnitsElectricPotential::nV,
            UnitsElectricPotential::pV,
            UnitsElectricPotential::fV,
            UnitsElectricPotential::aV,
            UnitsElectricPotential::zV,
            UnitsElectricPotential::yV,
        ]
    }

    /// The place of the unit in the order of declaration.
    pub open spec fn position(self) -> int {
        match self {
            UnitsElectricPotential::YV => 0,
            UnitsElectricPotential::ZV => 1,
            UnitsElectricPotential::EV => 2,
            UnitsElectricPotential::PV => 3,
            UnitsElectricPotential::TV => 4,
            UnitsElectricPotential::GV => 5,
            UnitsElectricPotential::MV => 6,
            UnitsElectricPotential::kV => 7,
            UnitsElectricPotential::hV => 8,
            UnitsElectricPotential::daV => 9,
            UnitsElectricPotential::V => 10,
            UnitsElectricPotential::dV => 11,
            UnitsElectricPotential::cV => 12,
            UnitsElectricPotential::mV => 13,
            UnitsElectricPotential::uV => 14,
            UnitsElectricPotential::nV => 15,
            UnitsElectricPotential::pV => 16,
            UnitsElectricPotential::fV => 17,
            UnitsElectricPotential::aV => 18,
            UnitsElectricPotential::zV => 19,
            UnitsElectricPotential::yV => 20,
        }
    }

    /// The symbol of the unit.
    pub fn symbol(&self) -> (symbol: &'static str)
        ensures
            symbol@ == self.symbol_spec(),
    {
        proof {
            Self::lemma_prefixed_symbols();
        }
        match self {
            UnitsElectricPotential::YV => "YV",
            UnitsElectricPotential::ZV => "ZV",
            UnitsElectricPotential::EV => "EV",
            UnitsElectricPotential::PV => "PV",
            UnitsElectricPotential::TV => "TV",
            UnitsElectricPotential::GV => "GV",
            UnitsElectricPotential::MV => "MV",
            UnitsElectricPotential::kV => "kV",
            UnitsElectricPotential::hV => "hV",
            UnitsElectricPotential::daV => "daV",
            UnitsElectricPotential::V => "V",
            UnitsElectricPotential::dV => "dV",
            UnitsElectricPotential::cV => "cV",
            UnitsElectricPotential::mV => "mV",
            UnitsElectricPotential::uV => "µV",
            UnitsElectricPotential::nV => "nV",
            UnitsElectricPotential::pV => "pV",
            UnitsElectricPotential::fV => "fV",
            UnitsElectricPotential::aV => "aV",
            UnitsElectricPotential::zV => "zV",
            UnitsElectricPotential::yV => "yV",
        }
    }

    /// Reads a unit from its symbol.  The text has to be the symbol exactly:
    /// nothing is trimmed and no case is folded.
    pub fn parse(text: &str) -> (unit: Result<Self, Error>)
        ensures
            match unit {
                Ok(unit) => Self::parse_spec(text@) == Some(unit),
                Err(error) => Self::parse_spec(text@).is_none() && error@
                    == ErrorView::UnknownUnit(text@),
            },
    {
        proof {
            Self::lemma_prefixed_symbols();
        }
        let found = if str_eq(text, "YV") {
            Some(UnitsElectricPotential::YV)
        } else if str_eq(text, "ZV") {
            Some(UnitsElectricPotential::ZV)
        } else if str_eq(text, "EV") {
            Some(UnitsElectricPotential::EV)
        } else if str_eq(text, "PV") {
            Some(UnitsElectricPotential::PV)
        } else if str_eq(text, "TV") {
            Some(UnitsElectricPotential::TV)
        } else if str_eq(text, "GV") {
            Some(UnitsElectricPotential::GV)
        } else if str_eq(text, "MV") {
            Some(UnitsElectricPotential::MV)
        } else if str_eq(text, "kV") {
            Some(UnitsElectricPotential::kV)
        } else if str_eq(text, "hV") {
            Some(UnitsElectricPotential::hV)
        } else if str_eq(text, "daV") {
            Some(UnitsElectricPotential::daV)
        } else if str_eq(text, "V") {
            Some(UnitsElectricPotential::V)
        } else if str_eq(text, "dV") {
            Some(UnitsElectricPotential::dV)
        } else if str_eq(text, "cV") {
            Some(UnitsElectricPotential::cV)
        } else if str_eq(text, "mV") {
            Some(UnitsElectricPotential::mV)
        } else if str_eq(text, "µV") || str_eq(text, "uV") {
            Some(UnitsElectricPotential::uV)
        } else if str_eq(text, "nV") {
            Some(UnitsElectricPotential::nV)
        } else if str_eq(text, "pV") {
            Some(UnitsElectricPotential::pV)
        } else if str_eq(text, "fV") {
            Some(UnitsElectricPotential::fV)
        } else if str_eq(text, "aV") {
            Some(UnitsElectricPotential::aV)
        } else if str_eq(text, "zV") {
            Some(UnitsElectricPotential::zV)
        } else if str_eq(text, "yV") {
            Some(UnitsElectricPotential::yV)
        } else {
            None
        };
        match found {
            Some(unit) => {
                proof {
                    assert(unit.spells(text@));
                    Self::lemma_spelling_unique(
                        unit,
                        choose|other: Self| other.spells(text@),
                        text@,
                    );
                }
                Ok(unit)
            },
            None => {
                proof {
                    assert forall|unit: Self| !unit.spells(text@) by {}
                }
                Err(Error::UnknownUnit(text.to_owned()))
            },
        }
    }

    /// all possible variants of this enum that can be constructed or converted into
    pub fn variants() -> (list: Vec<Self>)
        ensures
            list@ == Self::all(),
    {
        vec![
            UnitsElectricPotential::YV,
            UnitsElectricPotential::ZV,
            UnitsElectricPotential::EV,
            UnitsElectricPotential::PV,
            UnitsElectricPotential::TV,
            UnitsElectricPotential::GV,
            UnitsElectricPotential::MV,
            UnitsElectricPotential::kV,
            UnitsElectricPotential::hV,
            UnitsElectricPotential::daV,
            UnitsElectricPotential::V,
            UnitsElectricPotential::dV,
            UnitsElectricPotential::cV,
            UnitsElectricPotential::mV,
            UnitsElectricPotential::uV,
            UnitsElectricPotential::nV,
            UnitsElectricPotential::pV,
            UnitsElectricPotential::fV,
            UnitsElectricPotential::aV,
            UnitsElectricPotential::zV,
            UnitsElectricPotential::yV,
        ]
    }

    /// Each of the first 21 symbols is an SI prefix followed by the symbol of
    /// the volt.
    pub proof fn lemma_prefixed_symbols()
        ensures
            "YV"@ == "Y"@ + "V"@,
            "ZV"@ == "Z"@ + "V"@,
            "EV"@ == "E"@ + "V"@,
            "PV"@ == "P"@ + "V"@,
            "TV"@ == "T"@ + "V"@,
            "GV"@ == "G"@ + "V"@,
            "MV"@ == "M"@ + "V"@,
            "kV"@ == "k"@ + "V"@,
            "hV"@ == "h"@ + "V"@,
            "daV"@ == "da"@ + "V"@,
            "V"@ == ""@ + "V"@,
            "dV"@ == "d"@ + "V"@,
            "cV"@ == "c"@ + "V"@,
            "mV"@ == "m"@ + "V"@,
            "µV"@ == "µ"@ + "V"@,
            "nV"@ == "n"@ + "V"@,
            "pV"@ == "p"@ + "V"@,
            "fV"@ == "f"@ + "V"@,
            "aV"@ == "a"@ + "V"@,
            "zV"@ == "z"@ + "V"@,
            "yV"@ == "y"@ + "V"@,
    {
        reveal_strlit("YV");
        reveal_strlit("Y");
        reveal_strlit("V");
        reveal_strlit("ZV");
        reveal_strlit("Z");
        reveal_strlit("EV");
        reveal_strlit("E");
        reveal_strlit("PV");
        reveal_strlit("P");
        reveal_strlit("TV");
        reveal_strlit("T");
        reveal_strlit("GV");
        reveal_strlit("G");
        reveal_strlit("MV");
        reveal_strlit("M");
        reveal_strlit("kV");
        reveal_strlit("k");
        reveal_strlit("hV");
        reveal_strlit("h");
        reveal_strlit("daV");
        reveal_strlit("da");
        reveal_strlit("");
        reveal_strlit("dV");
        reveal_strlit("d");
        reveal_strlit("cV");
        reveal_strlit("c");
        reveal_strlit("mV");
        reveal_strlit("m");
        reveal_strlit("µV");
        reveal_strlit("µ");
        reveal_strlit("nV");
        reveal_strlit("n");
        reveal_strlit("pV");
        reveal_strlit("p");
        reveal_strlit("fV");
        reveal_strlit("f");
        reveal_strlit("aV");
        reveal_strlit("a");
        reveal_strlit("zV");
        reveal_strlit("z");
        reveal_strlit("yV");
        reveal_strlit("y");
        assert("YV"@ =~= "Y"@ + "V"@);
        assert("ZV"@ =~= "Z"@ + "V"@);
        assert("EV"@ =~= "E"@ + "V"@);
        assert("PV"@ =~= "P"@ + "V"@);
        assert("TV"@ =~= "T"@ + "V"@);
        assert("GV"@ =~= "G"@ + "V"@);
        assert("MV"@ =~= "M"@ + "V"@);
        assert("kV"@ =~= "k"@ + "V"@);
        assert("hV"@ =~= "h"@ + "V"@);
        assert("daV"@ =~= "da"@ + "V"@);
        assert("V"@ =~= ""@ + "V"@);
        assert("dV"@ =~= "d"@ + "V"@);
        assert("cV"@ =~= "c"@ + "V"@);
        assert("mV"@ =~= "m"@ + "V"@);
        assert("µV"@ =~= "µ"@ + "V"@);
        assert("nV"@ =~= "n"@ + "V"@);
        assert("pV"@ =~= "p"@ + "V"@);
        assert("fV"@ =~= "f"@ + "V"@);
        assert("aV"@ =~= "a"@ + "V"@);
        assert("zV"@ =~= "z"@ + "V"@);
        assert("yV"@ =~= "y"@ + "V"@);
    }

    /// No text is a way to write two different units.
    pub proof fn lemma_spelling_unique(a: Self, b: Self, text: Seq<char>)
        requires
            a.spells(text),
            b.spells(text),
        ensures
            a == b,
    {
        Self::lemma_prefixed_symbols();
        reveal_strlit("YV");
        reveal_strlit("ZV");
        reveal_strlit("EV");
        reveal_strlit("PV");
        reveal_strlit("TV");
        reveal_strlit("GV");
        reveal_strlit("MV");
        reveal_strlit("kV");
        reveal_strlit("hV");
        reveal_strlit("daV");
        reveal_strlit("V");
        reveal_strlit("dV");
        reveal_strlit("cV");
        reveal_strlit("mV");
        reveal_strlit("µV");
        reveal_strlit("uV");
        reveal_strlit("nV");
        reveal_strlit("pV");
        reveal_strlit("fV");
        reveal_strlit("aV");
        reveal_strlit("zV");
        reveal_strlit("yV");
        assert("YV"@.len() == 2 && "YV"@[0] == 'Y' && "YV"@[1] == 'V');
        assert("ZV"@.len() == 2 && "ZV"@[0] == 'Z' && "ZV"@[1] == 'V');
        assert("EV"@.len() == 2 && "EV"@[0] == 'E' && "EV"@[1] == 'V');
        assert("PV"@.len() == 2 && "PV"@[0] == 'P' && "PV"@[1] == 'V');
        assert("TV"@.len() == 2 && "TV"@[0] == 'T' && "TV"@[1] == 'V');
        assert("GV"@.len() == 2 && "GV"@[0] == 'G' && "GV"@[1] == 'V');
        assert("MV"@.len() == 2 && "MV"@[0] == 'M' && "MV"@[1] == 'V');
        assert("kV"@.len() == 2 && "kV"@[0] == 'k' && "kV"@[1] == 'V');
        assert("hV"@.len() == 2 && "hV"@[0] == 'h' && "hV"@[1] == 'V');
        assert("daV"@.len() == 3 && "daV"@[0] == 'd' && "daV"@[1] == 'a' && "daV"@[2] == 'V');
        assert("V"@.len() == 1 && "V"@[0] == 'V');
        assert("dV"@.len() == 2 && "dV"@[0] == 'd' && "dV"@[1] == 'V');
        assert("cV"@.len() == 2 && "cV"@[0] == 'c' && "cV"@[1] == 'V');
        assert("mV"@.len() == 2 && "mV"@[0] == 'm' && "mV"@[1] == 'V');
        assert("µV"@.len() == 2 && "µV"@[0] == 'µ' && "µV"@[1] == 'V');
        assert("uV"@.len() == 2 && "uV"@[0] == 'u' && "uV"@[1] == 'V');
        assert("nV"@.len() == 2 && "nV"@[0] == 'n' && "nV"@[1] == 'V');
        assert("pV"@.len() == 2 && "pV"@[0] == 'p' && "pV"@[1] == 'V');
        assert("fV"@.len() == 2 && "fV"@[0] == 'f' && "fV"@[1] == 'V');
        assert("aV"@.len() == 2 && "aV"@[0] == 'a' && "aV"@[1] == 'V');
        assert("zV"@.len() == 2 && "zV"@[0] == 'z' && "zV"@[1] == 'V');
        assert("yV"@.len() == 2 && "yV"@[0] == 'y' && "yV"@[1] == 'V');
    }

    /// Reading the symbol of a unit gives the unit back.
    pub proof fn lemma_parse_symbol(unit: Self)
        ensures
            Self::parse_spec(unit.symbol_spec()) == Some(unit),
    {
        let text = unit.symbol_spec();
        assert(unit.spells(text));
        Self::lemma_spelling_unique(unit, choose|other: Self| other.spells(text), text);
    }

    /// The list of variants holds each of the 21 units once, at its place.
    pub proof fn lemma_variants_complete(unit: Self)
        ensures
            Self::all().len() == 21,
            0 <= unit.position() < 21,
            Self::all()[unit.position()] == unit,
            Self::all().contains(unit),
            Self::all().no_duplicates(),
    {
        let all = Self::all();
        assert(all[unit.position()] == unit);
        assert forall|i: int| 0 <= i < all.len() implies (#[trigger] all[i]).position() == i by {}
    }

    /// The volt is the one unit whose scale is one.
    pub proof fn lemma_base_unit(unit: Self)
        ensures
            (unit.si_factor() matches Ok(factor) && factor.is_one()) <==> unit == UnitsElectricPotential::V,
    {
        Factor::lemma_decimal_is_one(1, prefix_exponent(unit.position()));
    }

    /// A converted value, taken in volts, is the value that it was
    /// converted from, taken in volts.
    pub proof fn lemma_same_quantity(self, unit: Self, value: Rational)
        requires
            value.wf(),
        ensures
            self.conversion(&unit) matches Ok(there) && there.apply(value).times(
                unit.si_factor()->Ok_0.value(),
            ).same(value.times(self.si_factor()->Ok_0.value())),
    {
        if self != unit {
            lemma_scale_keeps_quantity(self.si_factor()->Ok_0, unit.si_factor()->Ok_0, value);
        }
    }

    /// Converting an electric potential into another unit and back gives the value again.
    pub proof fn lemma_round_trip(self, unit: Self, value: Rational)
        requires
            value.wf(),
        ensures
            self.conversion(&unit) matches Ok(there) && unit.conversion(&self) matches Ok(back)
                && back.apply(there.apply(value)).same(value),
    {
        if self != unit {
            lemma_scale_round_trip(self.si_factor()->Ok_0, unit.si_factor()->Ok_0, value);
        }
    }
}

impl core::str::FromStr for UnitsElectricPotential {
    type Err = Error;

    /// Reads a unit from its symbol, as [`UnitsElectricPotential::parse`] does.
    fn from_str(text: &str) -> (unit: Result<Self, Error>)
        ensures
            match unit {
                Ok(unit) => Self::parse_spec(text@) == Some(unit),
                Err(error) => Self::parse_spec(text@).is_none() && error@
                    == ErrorView::UnknownUnit(text@),
            },
    {
        Self::parse(text)
    }
}

impl Convert for UnitsElectricPotential {
    /// How many volts the unit is: for the first 21 units the power of
    /// ten of the SI prefix.
    open spec fn si_factor(&self) -> Result<Factor, ErrorView> {
        Ok(Factor::of(1, prefix_exponent(self.position())))
    }

    open spec fn conversion(&self, unit: &Self) -> Result<Conversion, ErrorView> {
        scale_plan(self == unit, self.si_factor(), unit.si_factor())
    }

    fn as_si(&self) -> (factor: Result<Factor, Error>) {
        match self {
            UnitsElectricPotential::YV => Ok(Factor::decimal(1, 24)),
            UnitsElectricPotential::ZV => Ok(Factor::decimal(1, 21)),
            UnitsElectricPotential::EV => Ok(Factor::decimal(1, 18)),
            UnitsElectricPotential::PV => Ok(Factor::decimal(1, 15)),
            UnitsElectricPotential::TV => Ok(Factor::decimal(1, 12)),
            UnitsElectricPotential::GV => Ok(Factor::decimal(1, 9)),
            UnitsElectricPotential::MV => Ok(Factor::decimal(1, 6)),
            UnitsElectricPotential::kV => Ok(Factor::decimal(1, 3)),
            UnitsElectricPotential::hV => Ok(Factor::decimal(1, 2)),
            UnitsElectricPotential::daV => Ok(Factor::decimal(1, 1)),
            UnitsElectricPotential::V => Ok(Factor::decimal(1, 0)),
            UnitsElectricPotential::dV => Ok(Factor::decimal(1, -1)),
            UnitsElectricPotential::cV => Ok(Factor::decimal(1, -2)),
            UnitsElectricPotential::mV => Ok(Factor::decimal(1, -3)),
            UnitsElectricPotential::uV => Ok(Factor::decimal(1, -6)),
            UnitsElectricPotential::nV => Ok(Factor::decimal(1, -9)),
            UnitsElectricPotential::pV => Ok(Factor::decimal(1, -12)),
            UnitsElectricPotential::fV => Ok(Factor::decimal(1, -15)),
            UnitsElectricPotential::aV => Ok(Factor::decimal(1, -18)),
            UnitsElectricPotential::zV => Ok(Factor::decimal(1, -21)),
            UnitsElectricPotential::yV => Ok(Factor::decimal(1, -24)),
        }
    }

    fn convert(&self, unit: &Self) -> (plan: Result<Conversion, Error>) {
        if *self == *unit {
            Ok(Conversion::Identity)
        } else {
            scale_between(self.as_si(), unit.as_si())
        }
    }

    proof fn lemma_same_unit(&self) {
    }
}

} // verus!
