use vstd::prelude::*;
use crate::convert::{
    lemma_scale_keeps_quantity, lemma_scale_round_trip, scale_between, scale_plan, Conversion,
    Convert,
};
use crate::error::{Error, ErrorView};
use crate::factor::Factor;
use crate::prefix::{prefix_exponent, prefix_symbol};
use crate::rational::Rational;
use crate::text::str_eq;

verus! {

/// The units that a pressure is given in: the pascal with each SI
/// prefix, and 11 units of other systems.
#[derive(Clone, Copy, Debug, PartialEq, Eq, Structural)]
pub enum UnitsPressure {
    YPa,
    ZPa,
    EPa,
    PPa,
    TPa,
    GPa,
    MPa,
    kPa,
    hPa,
    daPa,
    Pa,
    dPa,
    cPa,
    mPa,
    uPa,
    nPa,
    pPa,
    fPa,
    aPa,
    zPa,
    yPa,
    bar,
    Mbar,
    kbar,
    dbar,
    cbar,
    mbar,
    atm,
    psi,
    Torr,
    mTorr,
    mmHg,
}

impl UnitsPressure {
    /// The symbol that the unit is written with: for the first 21 units the
    /// SI prefix followed by the symbol of the pascal.
    pub open spec fn symbol_spec(self) -> Seq<char> {
        match self {
            UnitsPressure::bar => "bar"@,
            UnitsPressure::Mbar => "Mbar"@,
            UnitsPressure::kbar => "kbar"@,
            UnitsPressure::dbar => "dbar"@,
            UnitsPressure::cbar => "cbar"@,
            UnitsPressure::mbar => "mbar"@,
            UnitsPressure::atm => "atm"@,
            UnitsPressure::psi => "psi"@,
            UnitsPressure::Torr => "Torr"@,
            UnitsPressure::mTorr => "mTorr"@,
            UnitsPressure::mmHg => "mm Hg"@,
            _ => prefix_symbol(self.position()) + "Pa"@,
        }
    }

    /// The text is a way to write the unit: its symbol, character for
    /// character.  The micro prefix alone has a second spelling, with the
    /// letter u in place of the micro sign.
    pub open spec fn spells(self, text: Seq<char>) -> bool {
        text == self.symbol_spec() || (self == UnitsPressure::uPa && text == "uPa"@)
    }

    /// The unit that the text is a way to write, if there is one.
    pub open spec fn parse_spec(text: Seq<char>) -> Option<Self> {
        if exists|unit: Self| unit.spells(text) {
            Some(choose|unit: Self| unit.spells(text))
        } else {
            None
        }
    }

    /// Every unit of pressure, in the order of declaration.
    pub open spec fn all() -> Seq<Self> {
        seq![
            UnitsPressure::YPa,
            UnitsPressure::ZPa,
            UnitsPressure::EPa,
            UnitsPressure::PPa,
            UnitsPressure::TPa,
            UnitsPressure::GPa,
            UnitsPressure::MPa,
            UnitsPressure::kPa,
            UnitsPressure::hPa,
            UnitsPressure::daPa,
            UnitsPressure::Pa,
            UnitsPressure::dPa,
            UnitsPressure::cPa,
            UnitsPressure::mPa,
            UnitsPressure::uPa,
            UnitsPressure::nPa,
            UnitsPressure::pPa,
            UnitsPressure::fPa,
            UnitsPressure::aPa,
            UnitsPressure::zPa,
            UnitsPressure::yPa,
            UnitsPressure::bar,
            UnitsPressure::Mbar,
            UnitsPressure::kbar,
            UnitsPressure::dbar,
            UnitsPressure::cbar,
            UnitsPressure::mbar,
            UnitsPressure::atm,
            UnitsPressure::psi,
            UnitsPressure::Torr,
            UnitsPressure::mTorr,
            UnitsPressure::mmHg,
        ]
    }

    /// The place of the unit in the order of declaration.
    pub open spec fn position(self) -> int {
        match self {
            UnitsPressure::YPa => 0,
            UnitsPressure::ZPa => 1,
            UnitsPressure::EPa => 2,
            UnitsPressure::PPa => 3,
            UnitsPressure::TPa => 4,
            UnitsPressure::GPa => 5,
            UnitsPressure::MPa => 6,
            UnitsPressure::kPa => 7,
            UnitsPressure::hPa => 8,
            UnitsPressure::daPa => 9,
            UnitsPressure::Pa => 10,
            UnitsPressure::dPa => 11,
            UnitsPressure::cPa => 12,
            UnitsPressure::mPa => 13,
            UnitsPressure::uPa => 14,
            UnitsPressure::nPa => 15,
            UnitsPressure::pPa => 16,
            UnitsPressure::fPa => 17,
            UnitsPressure::aPa => 18,
            UnitsPressure::zPa => 19,
            UnitsPressure::yPa => 20,
            UnitsPressure::bar => 21,
            UnitsPressure::Mbar => 22,
            UnitsPressure::kbar => 23,
            UnitsPressure::dbar => 24,
            UnitsPressure::cbar => 25,
            UnitsPressure::mbar => 26,
            UnitsPressure::atm => 27,
            UnitsPressure::psi => 28,
            UnitsPressure::Torr => 29,
            UnitsPressure::mTorr => 30,
            UnitsPressure::mmHg => 31,
        }
    }

    /// The symbol of the unit.
    pub fn symbol(&self) -> (symbol: &'static str)
        ensures
            symbol@ == self.symbol_spec(),
    {
        proof {
            Self::lemma_prefixed_symbols();
        }
        match self {
            UnitsPressure::YPa => "YPa",
            UnitsPressure::ZPa => "ZPa",
            UnitsPressure::EPa => "EPa",
            UnitsPressure::PPa => "PPa",
            UnitsPressure::TPa => "TPa",
            UnitsPressure::GPa => "GPa",
            UnitsPressure::MPa => "MPa",
            UnitsPressure::kPa => "kPa",
            UnitsPressure::hPa => "hPa",
            UnitsPressure::daPa => "daPa",
            UnitsPressure::Pa => "Pa",
            UnitsPressure::dPa => "dPa",
            UnitsPressure::cPa => "cPa",
            UnitsPressure::mPa => "mPa",
            UnitsPressure::uPa => "µPa",
            UnitsPressure::nPa => "nPa",
            UnitsPressure::pPa => "pPa",
            UnitsPressure::fPa => "fPa",
            UnitsPressure::aPa => "aPa",
            UnitsPressure::zPa => "zPa",
            UnitsPressure::yPa => "yPa",
            UnitsPressure::bar => "bar",
            UnitsPressure::Mbar => "Mbar",
            UnitsPressure::kbar => "kbar",
            UnitsPressure::dbar => "dbar",
            UnitsPressure::cbar => "cbar",
            UnitsPressure::mbar => "mbar",
            UnitsPressure::atm => "atm",
            UnitsPressure::psi => "psi",
            UnitsPressure::Torr => "Torr",
            UnitsPressure::mTorr => "mTorr",
            UnitsPressure::mmHg => "mm Hg",
        }
    }

    /// Reads a unit from its symbol.  The text has to be the symbol exactly:
    /// nothing is trimmed and no case is folded.
    pub fn parse(text: &str) -> (unit: Result<Self, Error>)
        ensures
            match unit {
                Ok(unit) => Self::parse_spec(text@) == Some(unit),
                Err(error) => Self::parse_spec(text@).is_none() && error@
                    == ErrorView::UnknownUnit(text@),
            },
    {
        proof {
            Self::lemma_prefixed_symbols();
        }
        let found = if str_eq(text, "YPa") {
            Some(UnitsPressure::YPa)
        } else if str_eq(text, "ZPa") {
            Some(UnitsPressure::ZPa)
        } else if str_eq(text, "EPa") {
            Some(UnitsPressure::EPa)
        } else if str_eq(text, "PPa") {
            Some(UnitsPressure::PPa)
        } else if str_eq(text, "TPa") {
            Some(UnitsPressure::TPa)
        } else if str_eq(text, "GPa") {
            Some(UnitsPressure::GPa)
        } else if str_eq(text, "MPa") {
            Some(UnitsPressure::MPa)
        } else if str_eq(text, "kPa") {
            Some(UnitsPressure::kPa)
        } else if str_eq(text, "hPa") {
            Some(UnitsPressure::hPa)
        } else if str_eq(text, "daPa") {
            Some(UnitsPressure::daPa)
        } else if str_eq(text, "Pa") {
            Some(UnitsPressure::Pa)
        } else if str_eq(text, "dPa") {
            Some(UnitsPressure::dPa)
        } else if str_eq(text, "cPa") {
            Some(UnitsPressure::cPa)
        } else if str_eq(text, "mPa") {
            Some(UnitsPressure::mPa)
        } else if str_eq(text, "µPa") || str_eq(text, "uPa") {
            Some(UnitsPressure::uPa)
        } else if str_eq(text, "nPa") {
            Some(UnitsPressure::nPa)
        } else if str_eq(text, "pPa") {
            Some(UnitsPressure::pPa)
        } else if str_eq(text, "fPa") {
            Some(UnitsPressure::fPa)
        } else if str_eq(text, "aPa") {
            Some(UnitsPressure::aPa)
        } else if str_eq(text, "zPa") {
            Some(UnitsPressure::zPa)
        } else if str_eq(text, "yPa") {
            Some(UnitsPressure::yPa)
        } else if str_eq(text, "bar") {
            Some(UnitsPressure::bar)
        } else if str_eq(text, "Mbar") {
            Some(UnitsPressure::Mbar)
        } else if str_eq(text, "kbar") {
            Some(UnitsPressure::kbar)
        } else if str_eq(text, "dbar") {
            Some(UnitsPressure::dbar)
        } else if str_eq(text, "cbar") {
            Some(UnitsPressure::cbar)
        } else if str_eq(text, "mbar") {
            Some(UnitsPressure::mbar)
        } else if str_eq(text, "atm") {
            Some(UnitsPressure::atm)
        } else if str_eq(text, "psi") {
            Some(UnitsPressure::psi)
        } else if str_eq(text, "Torr") {
            Some(UnitsPressure::Torr)
        } else if str_eq(text, "mTorr") {
            Some(UnitsPressure::mTorr)
        } else if str_eq(text, "mm Hg") {
            Some(UnitsPressure::mmHg)
        } else {
            None
        };
        match found {
            Some(unit) => {
                proof {
                    assert(unit.spells(text@));
                    Self::lemma_spelling_unique(
                        unit,
                        choose|other: Self| other.spells(text@),
                        text@,
                    );
                }
                Ok(unit)
            },
            None => {
                proof {
                    assert forall|unit: Self| !unit.spells(text@) by {}
                }
                Err(Error::UnknownUnit(text.to_owned()))
            },
        }
    }

    /// all possible variants of this enum that can be constructed or converted into
    pub fn variants() -> (list: Vec<Self>)
        ensures
            list@ == Self::all(),
    {
        vec![
            UnitsPressure::YPa,
            UnitsPressure::ZPa,
            UnitsPressure::EPa,
            UnitsPressure::PPa,
            UnitsPressure::TPa,
            UnitsPressure::GPa,
            UnitsPressure::MPa,
            UnitsPressure::kPa,
            UnitsPressure::hPa,
            UnitsPressure::daPa,
            UnitsPressure::Pa,
            UnitsPressure::dPa,
            UnitsPressure::cPa,
            UnitsPressure::mPa,
            UnitsPressure::uPa,
            UnitsPressure::nPa,
            UnitsPressure::pPa,
            UnitsPressure::fPa,
            UnitsPressure::aPa,
            UnitsPressure::zPa,
            UnitsPressure::yPa,
            UnitsPressure::bar,
            UnitsPressure::Mbar,
            UnitsPressure::kbar,
            UnitsPressure::dbar,
            UnitsPressure::cbar,
            UnitsPressure::mbar,
            UnitsPressure::atm,
            UnitsPressure::psi,
            UnitsPressure::Torr,
            UnitsPressure::mTorr,
            UnitsPressure::mmHg,
        ]
    }

    /// Each of the first 21 symbols is an SI prefix followed by the symbol of
    /// the pascal.
    pub proof fn lemma_prefixed_symbols()
        ensures
            "YPa"@ == "Y"@ + "Pa"@,
            "ZPa"@ == "Z"@ + "Pa"@,
            "EPa"@ == "E"@ + "Pa"@,
            "PPa"@ == "P"@ + "Pa"@,
            "TPa"@ == "T"@ + "Pa"@,
            "GPa"@ == "G"@ + "Pa"@,
            "MPa"@ == "M"@ + "Pa"@,
            "kPa"@ == "k"@ + "Pa"@,
            "hPa"@ == "h"@ + "Pa"@,
            "daPa"@ == "da"@ + "Pa"@,
            "Pa"@ == ""@ + "Pa"@,
            "dPa"@ == "d"@ + "Pa"@,
            "cPa"@ == "c"@ + "Pa"@,
            "mPa"@ == "m"@ + "Pa"@,
            "µPa"@ == "µ"@ + "Pa"@,
            "nPa"@ == "n"@ + "Pa"@,
            "pPa"@ == "p"@ + "Pa"@,
            "fPa"@ == "f"@ + "Pa"@,
            "aPa"@ == "a"@ + "Pa"@,
            "zPa"@ == "z"@ + "Pa"@,
            "yPa"@ == "y"@ + "Pa"@,
    {
        reveal_strlit("YPa");
        reveal_strlit("Y");
        reveal_strlit("Pa");
        reveal_strlit("ZPa");
        reveal_strlit("Z");
        reveal_strlit("EPa");
        reveal_strlit("E");
        reveal_strlit("PPa");
        reveal_strlit("P");
        reveal_strlit("TPa");
        reveal_strlit("T");
        reveal_strlit("GPa");
        reveal_strlit("G");
        reveal_strlit("MPa");
        reveal_strlit("M");
        reveal_strlit("kPa");
        reveal_strlit("k");
        reveal_strlit("hPa");
        reveal_strlit("h");
        reveal_strlit("daPa");
        reveal_strlit("da");
        reveal_strlit("");
        reveal_strlit("dPa");
        reveal_strlit("d");
        reveal_strlit("cPa");
        reveal_strlit("c");
        reveal_strlit("mPa");
        reveal_strlit("m");
        reveal_strlit("µPa");
        reveal_strlit("µ");
        reveal_strlit("nPa");
        reveal_strlit("n");
        reveal_strlit("pPa");
        reveal_strlit("p");
        reveal_strlit("fPa");
        reveal_strlit("f");
        reveal_strlit("aPa");
        reveal_strlit("a");
        reveal_strlit("zPa");
        reveal_strlit("z");
        reveal_strlit("yPa");
        reveal_strlit("y");
        assert("YPa"@ =~= "Y"@ + "Pa"@);
        assert("ZPa"@ =~= "Z"@ + "Pa"@);
        assert("EPa"@ =~= "E"@ + "Pa"@);
        assert("PPa"@ =~= "P"@ + "Pa"@);
        assert("TPa"@ =~= "T"@ + "Pa"@);
        assert("GPa"@ =~= "G"@ + "Pa"@);
        assert("MPa"@ =~= "M"@ + "Pa"@);
        assert("kPa"@ =~= "k"@ + "Pa"@);
        assert("hPa"@ =~= "h"@ + "Pa"@);
        assert("daPa"@ =~= "da"@ + "Pa"@);
        assert("Pa"@ =~= ""@ + "Pa"@);
        assert("dPa"@ =~= "d"@ + "Pa"@);
        assert("cPa"@ =~= "c"@ + "Pa"@);
        assert("mPa"@ =~= "m"@ + "Pa"@);
        assert("µPa"@ =~= "µ"@ + "Pa"@);
        assert("nPa"@ =~= "n"@ + "Pa"@);
        assert("pPa"@ =~= "p"@ + "Pa"@);
        assert("fPa"@ =~= "f"@ + "Pa"@);
        assert("aPa"@ =~= "a"@ + "Pa"@);
        assert("zPa"@ =~= "z"@ + "Pa"@);
        assert("yPa"@ =~= "y"@ + "Pa"@);
    }

    /// No text is a way to write two different units.
    pub proof fn lemma_spelling_unique(a: Self, b: Self, text: Seq<char>)
        requires
            a.spells(text),
            b.spells(text),
        ensures
            a == b,
    {
        Self::lemma_prefixed_symbols();
        reveal_strlit("YPa");
        reveal_strlit("ZPa");
        reveal_strlit("EPa");
        reveal_strlit("PPa");
        reveal_strlit("TPa");
        reveal_strlit("GPa");
        reveal_strlit("MPa");
        reveal_strlit("kPa");
        reveal_strlit("hPa");
        reveal_strlit("daPa");
        reveal_strlit("Pa");
        reveal_strlit("dPa");
        reveal_strlit("cPa");
        reveal_strlit("mPa");
        reveal_strlit("µPa");
        reveal_strlit("uPa");
        reveal_strlit("nPa");
        reveal_strlit("pPa");
        reveal_strlit("fPa");
        reveal_strlit("aPa");
        reveal_strlit("zPa");
        reveal_strlit("yPa");
        reveal_strlit("bar");
        reveal_strlit("Mbar");
        reveal_strlit("kbar");
        reveal_strlit("dbar");
        reveal_strlit("cbar");
        reveal_strlit("mbar");
        reveal_strlit("atm");
        reveal_strlit("psi");
        reveal_strlit("Torr");
        reveal_strlit("mTorr");
        reveal_strlit("mm Hg");
        assert("YPa"@.len() == 3 && "YPa"@[0] == 'Y' && "YPa"@[1] == 'P' && "YPa"@[2] == 'a');
        assert("ZPa"@.len() == 3 && "ZPa"@[0] == 'Z' && "ZPa"@[1] == 'P' && "ZPa"@[2] == 'a');
        assert("EPa"@.len() == 3 && "EPa"@[0] == 'E' && "EPa"@[1] == 'P' && "EPa"@[2] == 'a');
        assert("PPa"@.len() == 3 && "PPa"@[0] == 'P' && "PPa"@[1] == 'P' && "PPa"@[2] == 'a');
        assert("TPa"@.len() == 3 && "TPa"@[0] == 'T' && "TPa"@[1] == 'P' && "TPa"@[2] == 'a');
        assert("GPa"@.len() == 3 && "GPa"@[0] == 'G' && "GPa"@[1] == 'P' && "GPa"@[2] == 'a');
        assert("MPa"@.len() == 3 && "MPa"@[0] == 'M' && "MPa"@[1] == 'P' && "MPa"@[2] == 'a');
        assert("kPa"@.len() == 3 && "kPa"@[0] == 'k' && "kPa"@[1] == 'P' && "kPa"@[2] == 'a');
        assert("hPa"@.len() == 3 && "hPa"@[0] == 'h' && "hPa"@[1] == 'P' && "hPa"@[2] == 'a');
        assert("daPa"@.len() == 4
            && "daPa"@[0] == 'd' && "daPa"@[1] == 'a' && "daPa"@[2] == 'P' && "daPa"@[3] == 'a');
        assert("Pa"@.len() == 2 && "Pa"@[0] == 'P' && "Pa"@[1] == 'a');
        assert("dPa"@.len() == 3 && "dPa"@[0] == 'd' && "dPa"@[1] == 'P' && "dPa"@[2] == 'a');
        assert("cPa"@.len() == 3 && "cPa"@[0] == 'c' && "cPa"@[1] == 'P' && "cPa"@[2] == 'a');
        assert("mPa"@.len() == 3 && "mPa"@[0] == 'm' && "mPa"@[1] == 'P' && "mPa"@[2] == 'a');
        assert("µPa"@.len() == 3 && "µPa"@[0] == 'µ' && "µPa"@[1] == 'P' && "µPa"@[2] == 'a');
        assert("uPa"@.len() == 3 && "uPa"@[0] == 'u' && "uPa"@[1] == 'P' && "uPa"@[2] == 'a');
        assert("nPa"@.len() == 3 && "nPa"@[0] == 'n' && "nPa"@[1] == 'P' && "nPa"@[2] == 'a');
        assert("pPa"@.len() == 3 && "pPa"@[0] == 'p' && "pPa"@[1] == 'P' && "pPa"@[2] == 'a');
        assert("fPa"@.len() == 3 && "fPa"@[0] == 'f' && "fPa"@[1] == 'P' && "fPa"@[2] == 'a');
        assert("aPa"@.len() == 3 && "aPa"@[0] == 'a' && "aPa"@[1] == 'P' && "aPa"@[2] == 'a');
        assert("zPa"@.len() == 3 && "zPa"@[0] == 'z' && "zPa"@[1] == 'P' && "zPa"@[2] == 'a');
        assert("yPa"@.len() == 3 && "yPa"@[0] == 'y' && "yPa"@[1] == 'P' && "yPa"@[2] == 'a');
        assert("bar"@.len() == 3 && "bar"@[0] == 'b' && "bar"@[1] == 'a' && "bar"@[2] == 'r');
        assert("Mbar"@.len() == 4
            && "Mbar"@[0] == 'M' && "Mbar"@[1] == 'b' && "Mbar"@[2] == 'a' && "Mbar"@[3] == 'r');
        assert("kbar"@.len() == 4
            && "kbar"@[0] == 'k' && "kbar"@[1] == 'b' && "kbar"@[2] == 'a' && "kbar"@[3] == 'r');
        assert("dbar"@.len() == 4
            && "dbar"@[0] == 'd' && "dbar"@[1] == 'b' && "dbar"@[2] == 'a' && "dbar"@[3] == 'r');
        assert("cbar"@.len() == 4
            && "cbar"@[0] == 'c' && "cbar"@[1] == 'b' && "cbar"@[2] == 'a' && "cbar"@[3] == 'r');
        assert("mbar"@.len() == 4
            && "mbar"@[0] == 'm' && "mbar"@[1] == 'b' && "mbar"@[2] == 'a' && "mbar"@[3] == 'r');
        assert("atm"@.len() == 3 && "atm"@[0] == 'a' && "atm"@[1] == 't' && "atm"@[2] == 'm');
        assert("psi"@.len() == 3 && "psi"@[0] == 'p' && "psi"@[1] == 's' && "psi"@[2] == 'i');
        assert("Torr"@.len() == 4
            && "Torr"@[0] == 'T' && "Torr"@[1] == 'o' && "Torr"@[2] == 'r' && "Torr"@[3] == 'r');
        assert("mTorr"@.len() == 5
            && "mTorr"@[0] == 'm' && "mTorr"@[1] == 'T' && "mTorr"@[2] == 'o'
            && "mTorr"@[3] == 'r' && "mTorr"@[4] == 'r');
        assert("mm Hg"@.len() == 5
            && "mm Hg"@[0] == 'm' && "mm Hg"@[1] == 'm' && "mm Hg"@[2] == ' '
            && "mm Hg"@[3] == 'H' && "mm Hg"@[4] == 'g');
    }

    /// Reading the symbol of a unit gives the unit back.
    pub proof fn lemma_parse_symbol(unit: Self)
        ensures
            Self::parse_spec(unit.symbol_spec()) == Some(unit),
    {
        let text = unit.symbol_spec();
        assert(unit.spells(text));
        Self::lemma_spelling_unique(unit, choose|other: Self| other.spells(text), text);
    }

    /// The list of variants holds each of the 32 units once, at its place.
    pub proof fn lemma_variants_complete(unit: Self)
        ensures
            Self::all().len() == 32,
            0 <= unit.position() < 32,
            Self::all()[unit.position()] == unit,
            Self::all().contains(unit),
            Self::all().no_duplicates(),
    {
        let all = Self::all();
        assert(all[unit.position()] == unit);
        assert forall|i: int| 0 <= i < all.len() implies (#[trigger] all[i]).position() == i by {}
    }

    /// The pascal is the one unit whose scale is one.
    pub proof fn lemma_base_unit(unit: Self)
        ensures
            (unit.si_factor() matches Ok(factor) && factor.is_one()) <==> unit == UnitsPressure::Pa,
    {
        match unit {
            UnitsPressure::bar => Factor::lemma_decimal_is_one(1, 5),
            UnitsPressure::Mbar => Factor::lemma_decimal_is_one(1, 11),
            UnitsPressure::kbar => Factor::lemma_decimal_is_one(1, 8),
            UnitsPressure::dbar => Factor::lemma_decimal_is_one(1, 4),
            UnitsPressure::cbar => Factor::lemma_decimal_is_one(1, 3),
            UnitsPressure::mbar => Factor::lemma_decimal_is_one(1, 2),
            UnitsPressure::atm => Factor::lemma_decimal_is_one(101325, 0),
            UnitsPressure::psi => Factor::lemma_decimal_is_one(689476, -2),
            UnitsPressure::Torr => Factor::lemma_decimal_is_one(133322, -3),
            UnitsPressure::mTorr => Factor::lemma_decimal_is_one(133322, -6),
            UnitsPressure::mmHg => Factor::lemma_decimal_is_one(133322, -3),
            _ => Factor::lemma_decimal_is_one(1, prefix_exponent(unit.position())),
        }
    }

    /// A converted value, taken in pascals, is the value that it was
    /// converted from, taken in pascals.
    pub proof fn lemma_same_quantity(self, unit: Self, value: Rational)
        requires
            value.wf(),
        ensures
            self.conversion(&unit) matches Ok(there) && there.apply(value).times(
                unit.si_factor()->Ok_0.value(),
            ).same(value.times(self.si_factor()->Ok_0.value())),
    {
        if self != unit {
            lemma_scale_keeps_quantity(self.si_factor()->Ok_0, unit.si_factor()->Ok_0, value);
        }
    }

    /// Converting a pressure into another unit and back gives the value again.
    pub proof fn lemma_round_trip(self, unit: Self, value: Rational)
        requires
            value.wf(),
        ensures
            self.conversion(&unit) matches Ok(there) && unit.conversion(&self) matches Ok(back)
                && back.apply(there.apply(value)).same(value),
    {
        if self != unit {
            lemma_scale_round_trip(self.si_factor()->Ok_0, unit.si_factor()->Ok_0, value);
        }
    }
}

impl core::str::FromStr for UnitsPressure {
    type Err = Error;

    /// Reads a unit from its symbol, as [`UnitsPressure::parse`] does.
    fn from_str(text: &str) -> (unit: Result<Self, Error>)
        ensures
            match unit {
                Ok(unit) => Self::parse_spec(text@) == Some(unit),
                Err(error) => Self::parse_spec(text@).is_none() && error@
                    == ErrorView::UnknownUnit(text@),
            },
    {
        Self::parse(text)
    }
}

impl Convert for UnitsPressure {
    /// How many pascals the unit is: for the first 21 units the power of
    /// ten of the SI prefix.
    open spec fn si_factor(&self) -> Result<Factor, ErrorView> {
        match self {
            UnitsPressure::bar => Ok(Factor::of(1, 5)),
            UnitsPressure::Mbar => Ok(Factor::of(1, 11)),
            UnitsPressure::kbar => Ok(Factor::of(1, 8)),
            UnitsPressure::dbar => Ok(Factor::of(1, 4)),
            UnitsPressure::cbar => Ok(Factor::of(1, 3)),
            UnitsPressure::mbar => Ok(Factor::of(1, 2)),
            UnitsPressure::atm => Ok(Factor::of(101325, 0)),
            UnitsPressure::psi => Ok(Factor::of(689476, -2)),
            UnitsPressure::Torr => Ok(Factor::of(133322, -3)),
            UnitsPressure::mTorr => Ok(Factor::of(133322, -6)),
            UnitsPressure::mmHg => Ok(Factor::of(133322, -3)),
            _ => Ok(Factor::of(1, prefix_exponent(self.position()))),
        }
    }

    open spec fn conversion(&self, unit: &Self) -> Result<Conversion, ErrorView> {
        scale_plan(self == unit, self.si_factor(), unit.si_factor())
    }

    fn as_si(&self) -> (factor: Result<Factor, Error>) {
        match self {
            UnitsPressure::YPa => Ok(Factor::decimal(1, 24)),
            UnitsPressure::ZPa => Ok(Factor::decimal(1, 21)),
            UnitsPressure::EPa => Ok(Factor::decimal(1, 18)),
            UnitsPressure::PPa => Ok(Factor::decimal(1, 15)),
            UnitsPressure::TPa => Ok(Factor::decimal(1, 12)),
            UnitsPressure::GPa => Ok(Factor::decimal(1, 9)),
            UnitsPressure::MPa => Ok(Factor::decimal(1, 6)),
            UnitsPressure::kPa => Ok(Factor::decimal(1, 3)),
            UnitsPressure::hPa => Ok(Factor::decimal(1, 2)),
            UnitsPressure::daPa => Ok(Factor::decimal(1, 1)),
            UnitsPressure::Pa => Ok(Factor::decimal(1, 0)),
            UnitsPressure::dPa => Ok(Factor::decimal(1, -1)),
            UnitsPressure::cPa => Ok(Factor::decimal(1, -2)),
            UnitsPressure::mPa => Ok(Factor::decimal(1, -3)),
            UnitsPressure::uPa => Ok(Factor::decimal(1, -6)),
            UnitsPressure::nPa => Ok(Factor::decimal(1, -9)),
            UnitsPressure::pPa => Ok(Factor::decimal(1, -12)),
            UnitsPressure::fPa => Ok(Factor::decimal(1, -15)),
            UnitsPressure::aPa => Ok(Factor::decimal(1, -18)),
            UnitsPressure::zPa => Ok(Factor::decimal(1, -21)),
            UnitsPressure::yPa => Ok(Factor::decimal(1, -24)),
            UnitsPressure::bar => Ok(Factor::decimal(1, 5)),
            UnitsPressure::Mbar => Ok(Factor::decimal(1, 11)),
            UnitsPressure::kbar => Ok(Factor::decimal(1, 8)),
            UnitsPressure::dbar => Ok(Factor::decimal(1, 4)),
            UnitsPressure::cbar => Ok(Factor::decimal(1, 3)),
            UnitsPressure::mbar => Ok(Factor::decimal(1, 2)),
            UnitsPressure::atm => Ok(Factor::decimal(101325, 0)),
            UnitsPressure::psi => Ok(Factor::decimal(689476, -2)),
            UnitsPressure::Torr => Ok(Factor::decimal(133322, -3)),
            UnitsPressure::mTorr => Ok(Factor::decimal(133322, -6)),
            UnitsPressure::mmHg => Ok(Factor::decimal(133322, -3)),
        }
    }

    fn convert(&self, unit: &Self) -> (plan: Result<Conversion, Error>) {
        if *self == *unit {
            Ok(Conversion::Identity)
        } else {
            scale_between(self.as_si(), unit.as_si())
        }
    }

    proof fn lemma_same_unit(&self) {
    }
}

} // verus!
