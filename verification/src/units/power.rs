use vstd::prelude::*;
use crate::convert::{
    lemma_scale_keeps_quantity, lemma_scale_round_trip, scale_between, scale_plan, Conversion,
    Convert,
};
use crate::error::{Error, ErrorView};
use crate::factor::Factor;
use crate::prefix::{prefix_exponent, prefix_symbol};
use crate::rational::Rational;
use crate::text::str_eq;

verus! {

/// The units that a power is given in: the watt with each SI
/// prefix.
#[derive(Clone, Copy, Debug, PartialEq, Eq, Structural)]
pub enum UnitsPower {
    YW,
    ZW,
    EW,
    PW,
    TW,
    GW,
    MW,
    kW,
    hW,
    daW,
    W,
    dW,
    cW,
    mW,
    uW,
    nW,
    pW,
    fW,
    aW,
    zW,
    yW,
}

impl UnitsPower {
    /// The symbol that the unit is written with: for the first 21 units the
    /// SI prefix followed by the symbol of the watt.
    pub open spec fn symbol_spec(self) -> Seq<char> {
        prefix_symbol(self.position()) + "W"@
    }

    /// The text is a way to write the unit: its symbol, character for
    /// character.  The micro prefix alone has a second spelling, with the
    /// letter u in place of the micro sign.
    pub open spec fn spells(self, text: Seq<char>) -> bool {
        text == self.symbol_spec() || (self == UnitsPower::uW && text == "uW"@)
    }

    /// The unit that the text is a way to write, if there is one.
    pub open spec fn parse_spec(text: Seq<char>) -> Option<Self> {
        if exists|unit: Self| unit.spells(text) {
            Some(choose|unit: Self| unit.spells(text))
        } else {
            None
        }
    }

    /// Every unit of power, in the order of declaration.
    pub open spec fn all() -> Seq<Self> {
        seq![
            UnitsPower::YW,
            UnitsPower::ZW,
            UnitsPower::EW,
            UnitsPower::PW,
            UnitsPower::TW,
            UnitsPower::GW,
            UnitsPower::MW,
            UnitsPower::kW,
            UnitsPower::hW,
            UnitsPower::daW,
            UnitsPower::W,
            UnitsPower::dW,
            UnitsPower::cW,
            UnitsPower::mW,
            UnitsPower::uW,
            UnitsPower::nW,
            UnitsPower::pW,
            UnitsPower::fW,
            UnitsPower::aW,
            UnitsPower::zW,
            UnitsPower::yW,
        ]
    }

    /// The place of the unit in the order of declaration.
    pub open spec fn position(self) -> int {
        match self {
            UnitsPower::YW => 0,
            UnitsPower::ZW => 1,
            UnitsPower::EW => 2,
            UnitsPower::PW => 3,
            UnitsPower::TW => 4,
            UnitsPower::GW => 5,
            UnitsPower::MW => 6,
            UnitsPower::kW => 7,
            UnitsPower::hW => 8,
            UnitsPower::daW => 9,
            UnitsPower::W => 10,
            UnitsPower::dW => 11,
            UnitsPower::cW => 12,
            UnitsPower::mW => 13,
            UnitsPower::uW => 14,
            UnitsPower::nW => 15,
            UnitsPower::pW => 16,
            UnitsPower::fW => 17,
            UnitsPower::aW => 18,
            UnitsPower::zW => 19,
            UnitsPower::yW => 20,
        }
    }

    /// The symbol of the unit.
    pub fn symbol(&self) -> (symbol: &'static str)
        ensures
            symbol@ == self.symbol_spec(),
    {
        proof {
            Self::lemma_prefixed_symbols();
        }
        match self {
            UnitsPower::YW => "YW",
            UnitsPower::ZW => "ZW",
            UnitsPower::EW => "EW",
            UnitsPower::PW => "PW",
            UnitsPower::TW => "TW",
            UnitsPower::GW => "GW",
            UnitsPower::MW => "MW",
            UnitsPower::kW => "kW",
            UnitsPower::hW => "hW",
            UnitsPower::daW => "daW",
            UnitsPower::W => "W",
            UnitsPower::dW => "dW",
            UnitsPower::cW => "cW",
            UnitsPower::mW => "mW",
            UnitsPower::uW => "µW",
            UnitsPower::nW => "nW",
            UnitsPower::pW => "pW",
            UnitsPower::fW => "fW",
            UnitsPower::aW => "aW",
            UnitsPower::zW => "zW",
            UnitsPower::yW => "yW",
        }
    }

    /// Reads a unit from its symbol.  The text has to be the symbol exactly:
    /// nothing is trimmed and no case is folded.
    pub fn parse(text: &str) -> (unit: Result<Self, Error>)
        ensures
            match unit {
                Ok(unit) => Self::parse_spec(text@) == Some(unit),
                Err(error) => Self::parse_spec(text@).is_none() && error@
                    == ErrorView::UnknownUnit(text@),
            },
    {
        proof {
            Self::lemma_prefixed_symbols();
        }
        let found = if str_eq(text, "YW") {
            Some(UnitsPower::YW)
        } else if str_eq(text, "ZW") {
            Some(UnitsPower::ZW)
        } else if str_eq(text, "EW") {
            Some(UnitsPower::EW)
        } else if str_eq(text, "PW") {
            Some(UnitsPower::PW)
        } else if str_eq(text, "TW") {
            Some(UnitsPower::TW)
        } else if str_eq(text, "GW") {
            Some(UnitsPower::GW)
        } else if str_eq(text, "MW") {
            Some(UnitsPower::MW)
        } else if str_eq(text, "kW") {
            Some(UnitsPower::kW)
        } else if str_eq(text, "hW") {
            Some(UnitsPower::hW)
        } else if str_eq(text, "daW") {
            Some(UnitsPower::daW)
        } else if str_eq(text, "W") {
            Some(UnitsPower::W)
        } else if str_eq(text, "dW") {
            Some(UnitsPower::dW)
        } else if str_eq(text, "cW") {
            Some(UnitsPower::cW)
        } else if str_eq(text, "mW") {
            Some(UnitsPower::mW)
        } else if str_eq(text, "µW") || str_eq(text, "uW") {
            Some(UnitsPower::uW)
        } else if str_eq(text, "nW") {
            Some(UnitsPower::nW)
        } else if str_eq(text, "pW") {
            Some(UnitsPower::pW)
        } else if str_eq(text, "fW") {
            Some(UnitsPower::fW)
        } else if str_eq(text, "aW") {
            Some(UnitsPower::aW)
        } else if str_eq(text, "zW") {
            Some(UnitsPower::zW)
        } else if str_eq(text, "yW") {
            Some(UnitsPower::yW)
        } else {
            None
        };
        match found {
            Some(unit) => {
                proof {
                    assert(unit.spells(text@));
                    Self::lemma_spelling_unique(
                        unit,
                        choose|other: Self| other.spells(text@),
                        text@,
                    );
                }
                Ok(unit)
            },
            None => {
                proof {
                    assert forall|unit: Self| !unit.spells(text@) by {}
                }
                Err(Error::UnknownUnit(text.to_owned()))
            },
        }
    }

    /// all possible variants of this enum that can be constructed or converted into
    pub fn variants() -> (list: Vec<Self>)
        ensures
            list@ == Self::all(),
    {
        vec![
            UnitsPower::YW,
            UnitsPower::ZW,
            UnitsPower::EW,
            UnitsPower::PW,
            UnitsPower::TW,
            UnitsPower::GW,
            UnitsPower::MW,
            UnitsPower::kW,
            UnitsPower::hW,
            UnitsPower::daW,
            UnitsPower::W,
            UnitsPower::dW,
            UnitsPower::cW,
            UnitsPower::mW,
            UnitsPower::uW,
            UnitsPower::nW,
            UnitsPower::pW,
            UnitsPower::fW,
            UnitsPower::aW,
            UnitsPower::zW,
            UnitsPower::yW,
        ]
    }

    /// Each of the first 21 symbols is an SI prefix followed by the symbol of
    /// the watt.
    pub proof fn lemma_prefixed_symbols()
        ensures
            "YW"@ == "Y"@ + "W"@,
            "ZW"@ == "Z"@ + "W"@,
            "EW"@ == "E"@ + "W"@,
            "PW"@ == "P"@ + "W"@,
            "TW"@ == "T"@ + "W"@,
            "GW"@ == "G"@ + "W"@,
            "MW"@ == "M"@ + "W"@,
            "kW"@ == "k"@ + "W"@,
            "hW"@ == "h"@ + "W"@,
            "daW"@ == "da"@ + "W"@,
            "W"@ == ""@ + "W"@,
            "dW"@ == "d"@ + "W"@,
            "cW"@ == "c"@ + "W"@,
            "mW"@ == "m"@ + "W"@,
            "µW"@ == "µ"@ + "W"@,
            "nW"@ == "n"@ + "W"@,
            "pW"@ == "p"@ + "W"@,
            "fW"@ == "f"@ + "W"@,
            "aW"@ == "a"@ + "W"@,
            "zW"@ == "z"@ + "W"@,
            "yW"@ == "y"@ + "W"@,
    {
        reveal_strlit("YW");
        reveal_strlit("Y");
        reveal_strlit("W");
        reveal_strlit("ZW");
        reveal_strlit("Z");
        reveal_strlit("EW");
        reveal_strlit("E");
        reveal_strlit("PW");
        reveal_strlit("P");
        reveal_strlit("TW");
        reveal_strlit("T");
        reveal_strlit("GW");
        reveal_strlit("G");
        reveal_strlit("MW");
        reveal_strlit("M");
        reveal_strlit("kW");
        reveal_strlit("k");
        reveal_strlit("hW");
        reveal_strlit("h");
        reveal_strlit("daW");
        reveal_strlit("da");
        reveal_strlit("");
        reveal_strlit("dW");
        reveal_strlit("d");
        reveal_strlit("cW");
        reveal_strlit("c");
        reveal_strlit("mW");
        reveal_strlit("m");
        reveal_strlit("µW");
        reveal_strlit("µ");
        reveal_strlit("nW");
        reveal_strlit("n");
        reveal_strlit("pW");
        reveal_strlit("p");
        reveal_strlit("fW");
        reveal_strlit("f");
        reveal_strlit("aW");
        reveal_strlit("a");
        reveal_strlit("zW");
        reveal_strlit("z");
        reveal_strlit("yW");
        reveal_strlit("y");
        assert("YW"@ =~= "Y"@ + "W"@);
        assert("ZW"@ =~= "Z"@ + "W"@);
        assert("EW"@ =~= "E"@ + "W"@);
        assert("PW"@ =~= "P"@ + "W"@);
        assert("TW"@ =~= "T"@ + "W"@);
        assert("GW"@ =~= "G"@ + "W"@);
        assert("MW"@ =~= "M"@ + "W"@);
        assert("kW"@ =~= "k"@ + "W"@);
        assert("hW"@ =~= "h"@ + "W"@);
        assert("daW"@ =~= "da"@ + "W"@);
        assert("W"@ =~= ""@ + "W"@);
        assert("dW"@ =~= "d"@ + "W"@);
        assert("cW"@ =~= "c"@ + "W"@);
        assert("mW"@ =~= "m"@ + "W"@);
        assert("µW"@ =~= "µ"@ + "W"@);
        assert("nW"@ =~= "n"@ + "W"@);
        assert("pW"@ =~= "p"@ + "W"@);
        assert("fW"@ =~= "f"@ + "W"@);
        assert("aW"@ =~= "a"@ + "W"@);
        assert("zW"@ =~= "z"@ + "W"@);
        assert("yW"@ =~= "y"@ + "W"@);
    }

    /// No text is a way to write two different units.
    pub proof fn lemma_spelling_unique(a: Self, b: Self, text: Seq<char>)
        requires
            a.spells(text),
            b.spells(text),
        ensures
            a == b,
    {
        Self::lemma_prefixed_symbols();
        reveal_strlit("YW");
        reveal_strlit("ZW");
        reveal_strlit("EW");
        reveal_strlit("PW");
        reveal_strlit("TW");
        reveal_strlit("GW");
        reveal_strlit("MW");
        reveal_strlit("kW");
        reveal_strlit("hW");
        reveal_strlit("daW");
        reveal_strlit("W");
        reveal_strlit("dW");
        reveal_strlit("cW");
        reveal_strlit("mW");
        reveal_strlit("µW");
        reveal_strlit("uW");
        reveal_strlit("nW");
        reveal_strlit("pW");
        reveal_strlit("fW");
        reveal_strlit("aW");
        reveal_strlit("zW");
        reveal_strlit("yW");
        assert("YW"@.len() == 2 && "YW"@[0] == 'Y' && "YW"@[1] == 'W');
        assert("ZW"@.len() == 2 && "ZW"@[0] == 'Z' && "ZW"@[1] == 'W');
        assert("EW"@.len() == 2 && "EW"@[0] == 'E' && "EW"@[1] == 'W');
        assert("PW"@.len() == 2 && "PW"@[0] == 'P' && "PW"@[1] == 'W');
        assert("TW"@.len() == 2 && "TW"@[0] == 'T' && "TW"@[1] == 'W');
        assert("GW"@.len() == 2 && "GW"@[0] == 'G' && "GW"@[1] == 'W');
        assert("MW"@.len() == 2 && "MW"@[0] == 'M' && "MW"@[1] == 'W');
        assert("kW"@.len() == 2 && "kW"@[0] == 'k' && "kW"@[1] == 'W');
        assert("hW"@.len() == 2 && "hW"@[0] == 'h' && "hW"@[1] == 'W');
        assert("daW"@.len() == 3 && "daW"@[0] == 'd' && "daW"@[1] == 'a' && "daW"@[2] == 'W');
        assert("W"@.len() == 1 && "W"@[0] == 'W');
        assert("dW"@.len() == 2 && "dW"@[0] == 'd' && "dW"@[1] == 'W');
        assert("cW"@.len() == 2 && "cW"@[0] == 'c' && "cW"@[1] == 'W');
        assert("mW"@.len() == 2 && "mW"@[0] == 'm' && "mW"@[1] == 'W');
        assert("µW"@.len() == 2 && "µW"@[0] == 'µ' && "µW"@[1] == 'W');
        assert("uW"@.len() == 2 && "uW"@[0] == 'u' && "uW"@[1] == 'W');
        assert("nW"@.len() == 2 && "nW"@[0] == 'n' && "nW"@[1] == 'W');
        assert("pW"@.len() == 2 && "pW"@[0] == 'p' && "pW"@[1] == 'W');
        assert("fW"@.len() == 2 && "fW"@[0] == 'f' && "fW"@[1] == 'W');
        assert("aW"@.len() == 2 && "aW"@[0] == 'a' && "aW"@[1] == 'W');
        assert("zW"@.len() == 2 && "zW"@[0] == 'z' && "zW"@[1] == 'W');
        assert("yW"@.len() == 2 && "yW"@[0] == 'y' && "yW"@[1] == 'W');
    }

    /// Reading the symbol of a unit gives the unit back.
    pub proof fn lemma_parse_symbol(unit: Self)
        ensures
            Self::parse_spec(unit.symbol_spec()) == Some(unit),
    {
        let text = unit.symbol_spec();
        assert(unit.spells(text));
        Self::lemma_spelling_unique(unit, choose|other: Self| other.spells(text), text);
    }

    /// The list of variants holds each of the 21 units once, at its place.
    pub proof fn lemma_variants_complete(unit: Self)
        ensures
            Self::all().len() == 21,
            0 <= unit.position() < 21,
            Self::all()[unit.position()] == unit,
            Self::all().contains(unit),
            Self::all().no_duplicates(),
    {
        let all = Self::all();
        assert(all[unit.position()] == unit);
        assert forall|i: int| 0 <= i < all.len() implies (#[trigger] all[i]).position() == i by {}
    }

    /// The watt is the one unit whose scale is one.
    pub proof fn lemma_base_unit(unit: Self)
        ensures
            (unit.si_factor() matches Ok(factor) && factor.is_one()) <==> unit == UnitsPower::W,
    {
        Factor::lemma_decimal_is_one(1, prefix_exponent(unit.position()));
    }

    /// A converted value, taken in watts, is the value that it was
    /// converted from, taken in watts.
    pub proof fn lemma_same_quantity(self, unit: Self, value: Rational)
        requires
            value.wf(),
        ensures
            self.conversion(&unit) matches Ok(there) && there.apply(value).times(
                unit.si_factor()->Ok_0.value(),
            ).same(value.times(self.si_factor()->Ok_0.value())),
    {
        if self != unit {
            lemma_scale_keeps_quantity(self.si_factor()->Ok_0, unit.si_factor()->Ok_0, value);
        }
    }

    /// Converting a power into another unit and back gives the value again.
    pub proof fn lemma_round_trip(self, unit: Self, value: Rational)
        requires
            value.wf(),
        ensures
            self.conversion(&unit) matches Ok(there) && unit.conversion(&self) matches Ok(back)
                && back.apply(there.apply(value)).same(value),
    {
        if self != unit {
            lemma_scale_round_trip(self.si_factor()->Ok_0, unit.si_factor()->Ok_0, value);
        }
    }
}

impl core::str::FromStr for UnitsPower {
    type Err = Error;

    /// Reads a unit from its symbol, as [`UnitsPower::parse`] does.
    fn from_str(text: &str) -> (unit: Result<Self, Error>)
        ensures
            match unit {
                Ok(unit) => Self::parse_spec(text@) == Some(unit),
                Err(error) => Self::parse_spec(text@).is_none() && error@
                    == ErrorView::UnknownUnit(text@),
            },
    {
        Self::parse(text)
    }
}

impl Convert for UnitsPower {
    /// How many watts the unit is: for the first 21 units the power of
    /// ten of the SI prefix.
    open spec fn si_factor(&self) -> Result<Factor, ErrorView> {
        Ok(Factor::of(1, prefix_exponent(self.position())))
    }

    open spec fn conversion(&self, unit: &Self) -> Result<Conversion, ErrorView> {
        scale_plan(self == unit, self.si_factor(), unit.si_factor())
    }

    fn as_si(&self) -> (factor: Result<Factor, Error>) {
        match self {
            UnitsPower::YW => Ok(Factor::decimal(1, 24)),
            UnitsPower::ZW => Ok(Factor::decimal(1, 21)),
            UnitsPower::EW => Ok(Factor::decimal(1, 18)),
            UnitsPower::PW => Ok(Factor::decimal(1, 15)),
            UnitsPower::TW => Ok(Factor::decimal(1, 12)),
            UnitsPower::GW => Ok(Factor::decimal(1, 9)),
            UnitsPower::MW => Ok(Factor::decimal(1, 6)),
            UnitsPower::kW => Ok(Factor::decimal(1, 3)),
            UnitsPower::hW => Ok(Factor::decimal(1, 2)),
            UnitsPower::daW => Ok(Factor::decimal(1, 1)),
            UnitsPower::W => Ok(Factor::decimal(1, 0)),
            UnitsPower::dW => Ok(Factor::decimal(1, -1)),
            UnitsPower::cW => Ok(Factor::decimal(1, -2)),
            UnitsPower::mW => Ok(Factor::decimal(1, -3)),
            UnitsPower::uW => Ok(Factor::decimal(1, -6)),
            UnitsPower::nW => Ok(Factor::decimal(1, -9)),
            UnitsPower::pW => Ok(Factor::decimal(1, -12)),
            UnitsPower::fW => Ok(Factor::decimal(1, -15)),
            UnitsPower::aW => Ok(Factor::decimal(1, -18)),
            UnitsPower::zW => Ok(Factor::decimal(1, -21)),
            UnitsPower::yW => Ok(Factor::decimal(1, -24)),
        }
    }

    fn convert(&self, unit: &Self) -> (plan: Result<Conversion, Error>) {
        if *self == *unit {
            Ok(Conversion::Identity)
        } else {
            scale_between(self.as_si(), unit.as_si())
        }
    }

    proof fn lemma_same_unit(&self) {
    }
}

} // verus!
