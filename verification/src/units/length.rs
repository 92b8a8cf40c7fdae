use vstd::prelude::*;
use crate::convert::{
    lemma_scale_keeps_quantity, lemma_scale_round_trip, scale_between, scale_plan, Conversion,
    Convert,
};
use crate::error::{Error, ErrorView};
use crate::factor::Factor;
use crate::prefix::{prefix_exponent, prefix_symbol};
use crate::rational::Rational;
use crate::text::str_eq;

verus! {

/// The units that a length is given in: the metre with each SI
/// prefix, and 13 units of other systems.
#[derive(Clone, Copy, Debug, PartialEq, Eq, Structural)]
pub enum UnitsLength {
    Ym,
    Zm,
    Em,
    Pm,
    Tm,
    Gm,
    Mm,
    km,
    hm,
    dam,
    m,
    dm,
    cm,
    mm,
    um,
    nm,
    pm,
    fm,
    am,
    zm,
    ym,
    A,
    Thou,
    Li,
    In,
    Ft,
    Yd,
    Mi,
    Ua,
    Ly,
    Pc,
    Pt,
    Pixel,
    ReferenceFrame,
}

impl UnitsLength {
    /// The symbol that the unit is written with: for the first 21 units the
    /// SI prefix followed by the symbol of the metre.
    pub open spec fn symbol_spec(self) -> Seq<char> {
        match self {
            UnitsLength::A => "Å"@,
            UnitsLength::Thou => "thou"@,
            UnitsLength::Li => "li"@,
            UnitsLength::In => "in"@,
            UnitsLength::Ft => "ft"@,
            UnitsLength::Yd => "yd"@,
            UnitsLength::Mi => "mi"@,
            UnitsLength::Ua => "ua"@,
            UnitsLength::Ly => "ly"@,
            UnitsLength::Pc => "pc"@,
            UnitsLength::Pt => "pt"@,
            UnitsLength::Pixel => "pixel"@,
            UnitsLength::ReferenceFrame => "reference frame"@,
            _ => prefix_symbol(self.position()) + "m"@,
        }
    }

    /// The text is a way to write the unit: its symbol, character for
    /// character.  The micro prefix alone has a second spelling, with the
    /// letter u in place of the micro sign.
    pub open spec fn spells(self, text: Seq<char>) -> bool {
        text == self.symbol_spec() || (self == UnitsLength::um && text == "um"@)
    }

    /// The unit that the text is a way to write, if there is one.
    pub open spec fn parse_spec(text: Seq<char>) -> Option<Self> {
        if exists|unit: Self| unit.spells(text) {
            Some(choose|unit: Self| unit.spells(text))
        } else {
            None
        }
    }

    /// Every unit of length, in the order of declaration.
    pub open spec fn all() -> Seq<Self> {
        seq![
            UnitsLength::Ym,
            UnitsLength::Zm,
            UnitsLength::Em,
            UnitsLength::Pm,
            UnitsLength::Tm,
            UnitsLength::Gm,
            UnitsLength::Mm,
            UnitsLength::km,
            UnitsLength::hm,
            UnitsLength::dam,
            UnitsLength::m,
            UnitsLength::dm,
            UnitsLength::cm,
            UnitsLength::mm,
            UnitsLength::um,
            UnitsLength::nm,
            UnitsLength::pm,
            UnitsLength::fm,
            UnitsLength::am,
            UnitsLength::zm,
            UnitsLength::ym,
            UnitsLength::A,
            UnitsLength::Thou,
            UnitsLength::Li,
            UnitsLength::In,
            UnitsLength::Ft,
            UnitsLength::Yd,
            UnitsLength::Mi,
            UnitsLength::Ua,
            UnitsLength::Ly,
            UnitsLength::Pc,
            UnitsLength::Pt,
            UnitsLength::Pixel,
            UnitsLength::ReferenceFrame,
        ]
    }

    /// The place of the unit in the order of declaration.
    pub open spec fn position(self) -> int {
        match self {
            UnitsLength::Ym => 0,
            UnitsLength::Zm => 1,
            UnitsLength::Em => 2,
            UnitsLength::Pm => 3,
            UnitsLength::Tm => 4,
            UnitsLength::Gm => 5,
            UnitsLength::Mm => 6,
            UnitsLength::km => 7,
            UnitsLength::hm => 8,
            UnitsLength::dam => 9,
            UnitsLength::m => 10,
            UnitsLength::dm => 11,
            UnitsLength::cm => 12,
            UnitsLength::mm => 13,
            UnitsLength::um => 14,
            UnitsLength::nm => 15,
            UnitsLength::pm => 16,
            UnitsLength::fm => 17,
            UnitsLength::am => 18,
            UnitsLength::zm => 19,
            UnitsLength::ym => 20,
            UnitsLength::A => 21,
            UnitsLength::Thou => 22,
            UnitsLength::Li => 23,
            UnitsLength::In => 24,
            UnitsLength::Ft => 25,
            UnitsLength::Yd => 26,
            UnitsLength::Mi => 27,
            UnitsLength::Ua => 28,
            UnitsLength::Ly => 29,
            UnitsLength::Pc => 30,
            UnitsLength::Pt => 31,
            UnitsLength::Pixel => 32,
            UnitsLength::ReferenceFrame => 33,
        }
    }

    /// The symbol of the unit.
    pub fn symbol(&self) -> (symbol: &'static str)
        ensures
            symbol@ == self.symbol_spec(),
    {
        proof {
            Self::lemma_prefixed_symbols();
        }
        match self {
            UnitsLength::Ym => "Ym",
            UnitsLength::Zm => "Zm",
            UnitsLength::Em => "Em",
            UnitsLength::Pm => "Pm",
            UnitsLength::Tm => "Tm",
            UnitsLength::Gm => "Gm",
            UnitsLength::Mm => "Mm",
            UnitsLength::km => "km",
            UnitsLength::hm => "hm",
            UnitsLength::dam => "dam",
            UnitsLength::m => "m",
            UnitsLength::dm => "dm",
            UnitsLength::cm => "cm",
            UnitsLength::mm => "mm",
            UnitsLength::um => "µm",
            UnitsLength::nm => "nm",
            UnitsLength::pm => "pm",
            UnitsLength::fm => "fm",
            UnitsLength::am => "am",
            UnitsLength::zm => "zm",
            UnitsLength::ym => "ym",
            UnitsLength::A => "Å",
            UnitsLength::Thou => "thou",
            UnitsLength::Li => "li",
            UnitsLength::In => "in",
            UnitsLength::Ft => "ft",
            UnitsLength::Yd => "yd",
            UnitsLength::Mi => "mi",
            UnitsLength::Ua => "ua",
            UnitsLength::Ly => "ly",
            UnitsLength::Pc => "pc",
            UnitsLength::Pt => "pt",
            UnitsLength::Pixel => "pixel",
            UnitsLength::ReferenceFrame => "reference frame",
        }
    }

    /// Reads a unit from its symbol.  The text has to be the symbol exactly:
    /// nothing is trimmed and no case is folded.
    pub fn parse(text: &str) -> (unit: Result<Self, Error>)
        ensures
            match unit {
                Ok(unit) => Self::parse_spec(text@) == Some(unit),
                Err(error) => Self::parse_spec(text@).is_none() && error@
                    == ErrorView::UnknownUnit(text@),
            },
    {
        proof {
            Self::lemma_prefixed_symbols();
        }
        let found = if str_eq(text, "Ym") {
            Some(UnitsLength::Ym)
        } else if str_eq(text, "Zm") {
            Some(UnitsLength::Zm)
        } else if str_eq(text, "Em") {
            Some(UnitsLength::Em)
        } else if str_eq(text, "Pm") {
            Some(UnitsLength::Pm)
        } else if str_eq(text, "Tm") {
            Some(UnitsLength::Tm)
        } else if str_eq(text, "Gm") {
            Some(UnitsLength::Gm)
        } else if str_eq(text, "Mm") {
            Some(UnitsLength::Mm)
        } else if str_eq(text, "km") {
            Some(UnitsLength::km)
        } else if str_eq(text, "hm") {
            Some(UnitsLength::hm)
        } else if str_eq(text, "dam") {
            Some(UnitsLength::dam)
        } else if str_eq(text, "m") {
            Some(UnitsLength::m)
        } else if str_eq(text, "dm") {
            Some(UnitsLength::dm)
        } else if str_eq(text, "cm") {
            Some(UnitsLength::cm)
        } else if str_eq(text, "mm") {
            Some(UnitsLength::mm)
        } else if str_eq(text, "µm") || str_eq(text, "um") {
            Some(UnitsLength::um)
        } else if str_eq(text, "nm") {
            Some(UnitsLength::nm)
        } else if str_eq(text, "pm") {
            Some(UnitsLength::pm)
        } else if str_eq(text, "fm") {
            Some(UnitsLength::fm)
        } else if str_eq(text, "am") {
            Some(UnitsLength::am)
        } else if str_eq(text, "zm") {
            Some(UnitsLength::zm)
        } else if str_eq(text, "ym") {
            Some(UnitsLength::ym)
        } else if str_eq(text, "Å") {
            Some(UnitsLength::A)
        } else if str_eq(text, "thou") {
            Some(UnitsLength::Thou)
        } else if str_eq(text, "li") {
            Some(UnitsLength::Li)
        } else if str_eq(text, "in") {
            Some(UnitsLength::In)
        } else if str_eq(text, "ft") {
            Some(UnitsLength::Ft)
        } else if str_eq(text, "yd") {
            Some(UnitsLength::Yd)
        } else if str_eq(text, "mi") {
            Some(UnitsLength::Mi)
        } else if str_eq(text, "ua") {
            Some(UnitsLength::Ua)
        } else if str_eq(text, "ly") {
            Some(UnitsLength::Ly)
        } else if str_eq(text, "pc") {
            Some(UnitsLength::Pc)
        } else if str_eq(text, "pt") {
            Some(UnitsLength::Pt)
        } else if str_eq(text, "pixel") {
            Some(UnitsLength::Pixel)
        } else if str_eq(text, "reference frame") {
            Some(UnitsLength::ReferenceFrame)
        } else {
            None
        };
        match found {
            Some(unit) => {
                proof {
                    assert(unit.spells(text@));
                    Self::lemma_spelling_unique(
                        unit,
                        choose|other: Self| other.spells(text@),
                        text@,
                    );
                }
                Ok(unit)
            },
            None => {
                proof {
                    assert forall|unit: Self| !unit.spells(text@) by {}
                }
                Err(Error::UnknownUnit(text.to_owned()))
            },
        }
    }

    /// all possible variants of this enum that can be constructed or converted into
    pub fn variants() -> (list: Vec<Self>)
        ensures
            list@ == Self::all(),
    {
        vec![
            UnitsLength::Ym,
            UnitsLength::Zm,
            UnitsLength::Em,
            UnitsLength::Pm,
            UnitsLength::Tm,
            UnitsLength::Gm,
            UnitsLength::Mm,
            UnitsLength::km,
            UnitsLength::hm,
            UnitsLength::dam,
            UnitsLength::m,
            UnitsLength::dm,
            UnitsLength::cm,
            UnitsLength::mm,
            UnitsLength::um,
            UnitsLength::nm,
            UnitsLength::pm,
            UnitsLength::fm,
            UnitsLength::am,
            UnitsLength::zm,
            UnitsLength::ym,
            UnitsLength::A,
            UnitsLength::Thou,
            UnitsLength::Li,
            UnitsLength::In,
            UnitsLength::Ft,
            UnitsLength::Yd,
            UnitsLength::Mi,
            UnitsLength::Ua,
            UnitsLength::Ly,
            UnitsLength::Pc,
            UnitsLength::Pt,
            UnitsLength::Pixel,
            UnitsLength::ReferenceFrame,
        ]
    }

    /// Each of the first 21 symbols is an SI prefix followed by the symbol of
    /// the metre.
    pub proof fn lemma_prefixed_symbols()
        ensures
            "Ym"@ == "Y"@ + "m"@,
            "Zm"@ == "Z"@ + "m"@,
            "Em"@ == "E"@ + "m"@,
            "Pm"@ == "P"@ + "m"@,
            "Tm"@ == "T"@ + "m"@,
            "Gm"@ == "G"@ + "m"@,
            "Mm"@ == "M"@ + "m"@,
            "km"@ == "k"@ + "m"@,
            "hm"@ == "h"@ + "m"@,
            "dam"@ == "da"@ + "m"@,
            "m"@ == ""@ + "m"@,
            "dm"@ == "d"@ + "m"@,
            "cm"@ == "c"@ + "m"@,
            "mm"@ == "m"@ + "m"@,
            "µm"@ == "µ"@ + "m"@,
            "nm"@ == "n"@ + "m"@,
            "pm"@ == "p"@ + "m"@,
            "fm"@ == "f"@ + "m"@,
            "am"@ == "a"@ + "m"@,
            "zm"@ == "z"@ + "m"@,
            "ym"@ == "y"@ + "m"@,
    {
        reveal_strlit("Ym");
        reveal_strlit("Y");
        reveal_strlit("m");
        reveal_strlit("Zm");
        reveal_strlit("Z");
        reveal_strlit("Em");
        reveal_strlit("E");
        reveal_strlit("Pm");
        reveal_strlit("P");
        reveal_strlit("Tm");
        reveal_strlit("T");
        reveal_strlit("Gm");
        reveal_strlit("G");
        reveal_strlit("Mm");
        reveal_strlit("M");
        reveal_strlit("km");
        reveal_strlit("k");
        reveal_strlit("hm");
        reveal_strlit("h");
        reveal_strlit("dam");
        reveal_strlit("da");
        reveal_strlit("");
        reveal_strlit("dm");
        reveal_strlit("d");
        reveal_strlit("cm");
        reveal_strlit("c");
        reveal_strlit("mm");
        reveal_strlit("µm");
        reveal_strlit("µ");
        reveal_strlit("nm");
        reveal_strlit("n");
        reveal_strlit("pm");
        reveal_strlit("p");
        reveal_strlit("fm");
        reveal_strlit("f");
        reveal_strlit("am");
        reveal_strlit("a");
        reveal_strlit("zm");
        reveal_strlit("z");
        reveal_strlit("ym");
        reveal_strlit("y");
        assert("Ym"@ =~= "Y"@ + "m"@);
        assert("Zm"@ =~= "Z"@ + "m"@);
        assert("Em"@ =~= "E"@ + "m"@);
        assert("Pm"@ =~= "P"@ + "m"@);
        assert("Tm"@ =~= "T"@ + "m"@);
        assert("Gm"@ =~= "G"@ + "m"@);
        assert("Mm"@ =~= "M"@ + "m"@);
        assert("km"@ =~= "k"@ + "m"@);
        assert("hm"@ =~= "h"@ + "m"@);
        assert("dam"@ =~= "da"@ + "m"@);
        assert("m"@ =~= ""@ + "m"@);
        assert("dm"@ =~= "d"@ + "m"@);
        assert("cm"@ =~= "c"@ + "m"@);
        assert("mm"@ =~= "m"@ + "m"@);
        assert("µm"@ =~= "µ"@ + "m"@);
        assert("nm"@ =~= "n"@ + "m"@);
        assert("pm"@ =~= "p"@ + "m"@);
        assert("fm"@ =~= "f"@ + "m"@);
        assert("am"@ =~= "a"@ + "m"@);
        assert("zm"@ =~= "z"@ + "m"@);
        assert("ym"@ =~= "y"@ + "m"@);
    }

    /// No text is a way to write two different units.
    pub proof fn lemma_spelling_unique(a: Self, b: Self, text: Seq<char>)
        requires
            a.spells(text),
            b.spells(text),
        ensures
            a == b,
    {
        Self::lemma_prefixed_symbols();
        reveal_strlit("Ym");
        reveal_strlit("Zm");
        reveal_strlit("Em");
        reveal_strlit("Pm");
        reveal_strlit("Tm");
        reveal_strlit("Gm");
        reveal_strlit("Mm");
        reveal_strlit("km");
        reveal_strlit("hm");
        reveal_strlit("dam");
        reveal_strlit("m");
        reveal_strlit("dm");
        reveal_strlit("cm");
        reveal_strlit("mm");
        reveal_strlit("µm");
        reveal_strlit("um");
        reveal_strlit("nm");
        reveal_strlit("pm");
        reveal_strlit("fm");
        reveal_strlit("am");
        reveal_strlit("zm");
        reveal_strlit("ym");
        reveal_strlit("Å");
        reveal_strlit("thou");
        reveal_strlit("li");
        reveal_strlit("in");
        reveal_strlit("ft");
        reveal_strlit("yd");
        reveal_strlit("mi");
        reveal_strlit("ua");
        reveal_strlit("ly");
        reveal_strlit("pc");
        reveal_strlit("pt");
        reveal_strlit("pixel");
        reveal_strlit("reference frame");
        assert("Ym"@.len() == 2 && "Ym"@[0] == 'Y' && "Ym"@[1] == 'm');
        assert("Zm"@.len() == 2 && "Zm"@[0] == 'Z' && "Zm"@[1] == 'm');
        assert("Em"@.len() == 2 && "Em"@[0] == 'E' && "Em"@[1] == 'm');
        assert("Pm"@.len() == 2 && "Pm"@[0] == 'P' && "Pm"@[1] == 'm');
        assert("Tm"@.len() == 2 && "Tm"@[0] == 'T' && "Tm"@[1] == 'm');
        assert("Gm"@.len() == 2 && "Gm"@[0] == 'G' && "Gm"@[1] == 'm');
        assert("Mm"@.len() == 2 && "Mm"@[0] == 'M' && "Mm"@[1] == 'm');
        assert("km"@.len() == 2 && "km"@[0] == 'k' && "km"@[1] == 'm');
        assert("hm"@.len() == 2 && "hm"@[0] == 'h' && "hm"@[1] == 'm');
        assert("dam"@.len() == 3 && "dam"@[0] == 'd' && "dam"@[1] == 'a' && "dam"@[2] == 'm');
        assert("m"@.len() == 1 && "m"@[0] == 'm');
        assert("dm"@.len() == 2 && "dm"@[0] == 'd' && "dm"@[1] == 'm');
        assert("cm"@.len() == 2 && "cm"@[0] == 'c' && "cm"@[1] == 'm');
        assert("mm"@.len() == 2 && "mm"@[0] == 'm' && "mm"@[1] == 'm');
        assert("µm"@.len() == 2 && "µm"@[0] == 'µ' && "µm"@[1] == 'm');
        assert("um"@.len() == 2 && "um"@[0] == 'u' && "um"@[1] == 'm');
        assert("nm"@.len() == 2 && "nm"@[0] == 'n' && "nm"@[1] == 'm');
        assert("pm"@.len() == 2 && "pm"@[0] == 'p' && "pm"@[1] == 'm');
        assert("fm"@.len() == 2 && "fm"@[0] == 'f' && "fm"@[1] == 'm');
        assert("am"@.len() == 2 && "am"@[0] == 'a' && "am"@[1] == 'm');
        assert("zm"@.len() == 2 && "zm"@[0] == 'z' && "zm"@[1] == 'm');
        assert("ym"@.len() == 2 && "ym"@[0] == 'y' && "ym"@[1] == 'm');
        assert("Å"@.len() == 1 && "Å"@[0] == 'Å');
        assert("thou"@.len() == 4
            && "thou"@[0] == 't' && "thou"@[1] == 'h' && "thou"@[2] == 'o' && "thou"@[3] == 'u');
        assert("li"@.len() == 2 && "li"@[0] == 'l' && "li"@[1] == 'i');
        assert("in"@.len() == 2 && "in"@[0] == 'i' && "in"@[1] == 'n');
        assert("ft"@.len() == 2 && "ft"@[0] == 'f' && "ft"@[1] == 't');
        assert("yd"@.len() == 2 && "yd"@[0] == 'y' && "yd"@[1] == 'd');
        assert("mi"@.len() == 2 && "mi"@[0] == 'm' && "mi"@[1] == 'i');
        assert("ua"@.len() == 2 && "ua"@[0] == 'u' && "ua"@[1] == 'a');
        assert("ly"@.len() == 2 && "ly"@[0] == 'l' && "ly"@[1] == 'y');
        assert("pc"@.len() == 2 && "pc"@[0] == 'p' && "pc"@[1] == 'c');
        assert("pt"@.len() == 2 && "pt"@[0] == 'p' && "pt"@[1] == 't');
        assert("pixel"@.len() == 5
            && "pixel"@[0] == 'p' && "pixel"@[1] == 'i' && "pixel"@[2] == 'x'
            && "pixel"@[3] == 'e' && "pixel"@[4] == 'l');
        assert("reference frame"@.len() == 15
            && "reference frame"@[0] == 'r' && "reference frame"@[1] == 'e'
            && "reference frame"@[2] == 'f' && "reference frame"@[3] == 'e'
            && "reference frame"@[4] == 'r' && "reference frame"@[5] == 'e'
            && "reference frame"@[6] == 'n' && "reference frame"@[7] == 'c'
            && "reference frame"@[8] == 'e' && "reference frame"@[9] == ' '
            && "reference frame"@[10] == 'f' && "reference frame"@[11] == 'r'
            && "reference frame"@[12] == 'a' && "reference frame"@[13] == 'm'
            && "reference frame"@[14] == 'e');
    }

    /// Reading the symbol of a unit gives the unit back.
    pub proof fn lemma_parse_symbol(unit: Self)
        ensures
            Self::parse_spec(unit.symbol_spec()) == Some(unit),
    {
        let text = unit.symbol_spec();
        assert(unit.spells(text));
        Self::lemma_spelling_unique(unit, choose|other: Self| other.spells(text), text);
    }

    /// The list of variants holds each of the 34 units once, at its place.
    pub proof fn lemma_variants_complete(unit: Self)
        ensures
            Self::all().len() == 34,
            0 <= unit.position() < 34,
            Self::all()[unit.position()] == unit,
            Self::all().contains(unit),
            Self::all().no_duplicates(),
    {
        let all = Self::all();
        assert(all[unit.position()] == unit);
        assert forall|i: int| 0 <= i < all.len() implies (#[trigger] all[i]).position() == i by {}
    }

    /// The metre is the one unit whose scale is one.
    pub proof fn lemma_base_unit(unit: Self)
        ensures
            (unit.si_factor() matches Ok(factor) && factor.is_one()) <==> unit == UnitsLength::m,
    {
        match unit {
            UnitsLength::A => Factor::lemma_decimal_is_one(1, -10),
            UnitsLength::Thou => Factor::lemma_decimal_is_one(254, -7),
            UnitsLength::Li => Factor::lemma_decimal_is_one(5, 2),
            UnitsLength::In => Factor::lemma_decimal_is_one(254, -4),
            UnitsLength::Ft => Factor::lemma_decimal_is_one(305, -3),
            UnitsLength::Yd => Factor::lemma_decimal_is_one(914, -3),
            UnitsLength::Mi => Factor::lemma_decimal_is_one(1609344, -3),
            UnitsLength::Ua => Factor::lemma_decimal_is_one(1496, 8),
            UnitsLength::Ly => Factor::lemma_decimal_is_one(9461, 12),
            UnitsLength::Pc => Factor::lemma_decimal_is_one(3086, 13),
            UnitsLength::Pt => Factor::lemma_decimal_is_one(352778, -9),
            UnitsLength::Pixel => {},
            UnitsLength::ReferenceFrame => {},
            _ => Factor::lemma_decimal_is_one(1, prefix_exponent(unit.position())),
        }
    }

    /// A converted value, taken in metres, is the value that it was
    /// converted from, taken in metres, whenever both units have a fixed size.
    pub proof fn lemma_same_quantity(self, unit: Self, value: Rational)
        requires
            self.si_factor() is Ok,
            unit.si_factor() is Ok,
            value.wf(),
        ensures
            self.conversion(&unit) matches Ok(there) && there.apply(value).times(
                unit.si_factor()->Ok_0.value(),
            ).same(value.times(self.si_factor()->Ok_0.value())),
    {
        if self != unit {
            lemma_scale_keeps_quantity(self.si_factor()->Ok_0, unit.si_factor()->Ok_0, value);
        }
    }

    /// Converting a length into another unit and back gives the value again,
    /// whenever both units have a fixed size.
    pub proof fn lemma_round_trip(self, unit: Self, value: Rational)
        requires
            self.si_factor() is Ok,
            unit.si_factor() is Ok,
            value.wf(),
        ensures
            self.conversion(&unit) matches Ok(there) && unit.conversion(&self) matches Ok(back)
                && back.apply(there.apply(value)).same(value),
    {
        if self != unit {
            lemma_scale_round_trip(self.si_factor()->Ok_0, unit.si_factor()->Ok_0, value);
        }
    }
}

impl core::str::FromStr for UnitsLength {
    type Err = Error;

    /// Reads a unit from its symbol, as [`UnitsLength::parse`] does.
    fn from_str(text: &str) -> (unit: Result<Self, Error>)
        ensures
            match unit {
                Ok(unit) => Self::parse_spec(text@) == Some(unit),
                Err(error) => Self::parse_spec(text@).is_none() && error@
                    == ErrorView::UnknownUnit(text@),
            },
    {
        Self::parse(text)
    }
}

impl Convert for UnitsLength {
    /// How many metres the unit is: for the first 21 units the power of
    /// ten of the SI prefix.
    open spec fn si_factor(&self) -> Result<Factor, ErrorView> {
        match self {
            UnitsLength::A => Ok(Factor::of(1, -10)),
            UnitsLength::Thou => Ok(Factor::of(254, -7)),
            UnitsLength::Li => Ok(Factor::of(5, 2)),
            UnitsLength::In => Ok(Factor::of(254, -4)),
            UnitsLength::Ft => Ok(Factor::of(305, -3)),
            UnitsLength::Yd => Ok(Factor::of(914, -3)),
            UnitsLength::Mi => Ok(Factor::of(1609344, -3)),
            UnitsLength::Ua => Ok(Factor::of(1496, 8)),
            UnitsLength::Ly => Ok(Factor::of(9461, 12)),
            UnitsLength::Pc => Ok(Factor::of(3086, 13)),
            UnitsLength::Pt => Ok(Factor::of(352778, -9)),
            UnitsLength::Pixel => Err(ErrorView::SizeOfUnknown(self.symbol_spec())),
            UnitsLength::ReferenceFrame => Err(ErrorView::SizeOfUnknown(self.symbol_spec())),
            _ => Ok(Factor::of(1, prefix_exponent(self.position()))),
        }
    }

    open spec fn conversion(&self, unit: &Self) -> Result<Conversion, ErrorView> {
        scale_plan(self == unit, self.si_factor(), unit.si_factor())
    }

    fn as_si(&self) -> (factor: Result<Factor, Error>) {
        match self {
            UnitsLength::Ym => Ok(Factor::decimal(1, 24)),
            UnitsLength::Zm => Ok(Factor::decimal(1, 21)),
            UnitsLength::Em => Ok(Factor::decimal(1, 18)),
            UnitsLength::Pm => Ok(Factor::decimal(1, 15)),
            UnitsLength::Tm => Ok(Factor::decimal(1, 12)),
            UnitsLength::Gm => Ok(Factor::decimal(1, 9)),
            UnitsLength::Mm => Ok(Factor::decimal(1, 6)),
            UnitsLength::km => Ok(Factor::decimal(1, 3)),
            UnitsLength::hm => Ok(Factor::decimal(1, 2)),
            UnitsLength::dam => Ok(Factor::decimal(1, 1)),
            UnitsLength::m => Ok(Factor::decimal(1, 0)),
            UnitsLength::dm => Ok(Factor::decimal(1, -1)),
            UnitsLength::cm => Ok(Factor::decimal(1, -2)),
            UnitsLength::mm => Ok(Factor::decimal(1, -3)),
            UnitsLength::um => Ok(Factor::decimal(1, -6)),
            UnitsLength::nm => Ok(Factor::decimal(1, -9)),
            UnitsLength::pm => Ok(Factor::decimal(1, -12)),
            UnitsLength::fm => Ok(Factor::decimal(1, -15)),
            UnitsLength::am => Ok(Factor::decimal(1, -18)),
            UnitsLength::zm => Ok(Factor::decimal(1, -21)),
            UnitsLength::ym => Ok(Factor::decimal(1, -24)),
            UnitsLength::A => Ok(Factor::decimal(1, -10)),
            UnitsLength::Thou => Ok(Factor::decimal(254, -7)),
            UnitsLength::Li => Ok(Factor::decimal(5, 2)),
            UnitsLength::In => Ok(Factor::decimal(254, -4)),
            UnitsLength::Ft => Ok(Factor::decimal(305, -3)),
            UnitsLength::Yd => Ok(Factor::decimal(914, -3)),
            UnitsLength::Mi => Ok(Factor::decimal(1609344, -3)),
            UnitsLength::Ua => Ok(Factor::decimal(1496, 8)),
            UnitsLength::Ly => Ok(Factor::decimal(9461, 12)),
            UnitsLength::Pc => Ok(Factor::decimal(3086, 13)),
            UnitsLength::Pt => Ok(Factor::decimal(352778, -9)),
            UnitsLength::Pixel => Err(Error::SizeOfUnknown(self.symbol().to_owned())),
            UnitsLength::ReferenceFrame => Err(Error::SizeOfUnknown(self.symbol().to_owned())),
        }
    }

    fn convert(&self, unit: &Self) -> (plan: Result<Conversion, Error>) {
        if *self == *unit {
            Ok(Conversion::Identity)
        } else {
            scale_between(self.as_si(), unit.as_si())
        }
    }

    proof fn lemma_same_unit(&self) {
    }
}

} // verus!
