use vstd::prelude::*;
use crate::convert::{
    lemma_scale_keeps_quantity, lemma_scale_round_trip, scale_between, scale_plan, Conversion,
    Convert,
};
use crate::error::{Error, ErrorView};
use crate::factor::Factor;
use crate::prefix::{prefix_exponent, prefix_symbol};
use crate::rational::Rational;
use crate::text::str_eq;

verus! {

/// The units that a time is given in: the second with each SI
/// prefix, and 3 units of other systems.
#[derive(Clone, Copy, Debug, PartialEq, Eq, Structural)]
pub enum UnitsTime {
    Ys,
    Zs,
    Es,
    Ps,
    Ts,
    Gs,
    Ms,
    ks,
    hs,
    das,
    s,
    ds,
    cs,
    ms,
    us,
    ns,
    ps,
    fs,
    as_,
    zs,
    ys,
    min,
    h,
    d,
}

impl UnitsTime {
    /// The symbol that the unit is written with: for the first 21 units the
    /// SI prefix followed by the symbol of the second.
    pub open spec fn symbol_spec(self) -> Seq<char> {
        match self {
            UnitsTime::min => "min"@,
            UnitsTime::h => "h"@,
            UnitsTime::d => "d"@,
            _ => prefix_symbol(self.position()) + "s"@,
        }
    }

    /// The text is a way to write the unit: its symbol, character for
    /// character.  The micro prefix alone has a second spelling, with the
    /// letter u in place of the micro sign.
    pub open spec fn spells(self, text: Seq<char>) -> bool {
        text == self.symbol_spec() || (self == UnitsTime::us && text == "us"@)
    }

    /// The unit that the text is a way to write, if there is one.
    pub open spec fn parse_spec(text: Seq<char>) -> Option<Self> {
        if exists|unit: Self| unit.spells(text) {
            Some(choose|unit: Self| unit.spells(text))
        } else {
            None
        }
    }

    /// Every unit of time, in the order of declaration.
    pub open spec fn all() -> Seq<Self> {
        seq![
            UnitsTime::Ys,
            UnitsTime::Zs,
            UnitsTime::Es,
            UnitsTime::Ps,
            UnitsTime::Ts,
            UnitsTime::Gs,
            UnitsTime::Ms,
            UnitsTime::ks,
            UnitsTime::hs,
            UnitsTime::das,
            UnitsTime::s,
            UnitsTime::ds,
            UnitsTime::cs,
            UnitsTime::ms,
            UnitsTime::us,
            UnitsTime::ns,
            UnitsTime::ps,
            UnitsTime::fs,
            UnitsTime::as_,
            UnitsTime::zs,
            UnitsTime::ys,
            UnitsTime::min,
            UnitsTime::h,
            UnitsTime::d,
        ]
    }

    /// The place of the unit in the order of declaration.
    pub open spec fn position(self) -> int {
        match self {
            UnitsTime::Ys => 0,
            UnitsTime::Zs => 1,
            UnitsTime::Es => 2,
            UnitsTime::Ps => 3,
            UnitsTime::Ts => 4,
            UnitsTime::Gs => 5,
            UnitsTime::Ms => 6,
            UnitsTime::ks => 7,
            UnitsTime::hs => 8,
            UnitsTime::das => 9,
            UnitsTime::s => 10,
            UnitsTime::ds => 11,
            UnitsTime::cs => 12,
            UnitsTime::ms => 13,
            UnitsTime::us => 14,
            UnitsTime::ns => 15,
            UnitsTime::ps => 16,
            UnitsTime::fs => 17,
            UnitsTime::as_ => 18,
            UnitsTime::zs => 19,
            UnitsTime::ys => 20,
            UnitsTime::min => 21,
            UnitsTime::h => 22,
            UnitsTime::d => 23,
        }
    }

    /// The symbol of the unit.
    pub fn symbol(&self) -> (symbol: &'static str)
        ensures
            symbol@ == self.symbol_spec(),
    {
        proof {
            Self::lemma_prefixed_symbols();
        }
        match self {
            UnitsTime::Ys => "Ys",
            UnitsTime::Zs => "Zs",
            UnitsTime::Es => "Es",
            UnitsTime::Ps => "Ps",
            UnitsTime::Ts => "Ts",
            UnitsTime::Gs => "Gs",
            UnitsTime::Ms => "Ms",
            UnitsTime::ks => "ks",
            UnitsTime::hs => "hs",
            UnitsTime::das => "das",
            UnitsTime::s => "s",
            UnitsTime::ds => "ds",
            UnitsTime::cs => "cs",
            UnitsTime::ms => "ms",
            UnitsTime::us => "µs",
            UnitsTime::ns => "ns",
            UnitsTime::ps => "ps",
            UnitsTime::fs => "fs",
            UnitsTime::as_ => "as",
            UnitsTime::zs => "zs",
            UnitsTime::ys => "ys",
            UnitsTime::min => "min",
            UnitsTime::h => "h",
            UnitsTime::d => "d",
        }
    }

    /// Reads a unit from its symbol.  The text has to be the symbol exactly:
    /// nothing is trimmed and no case is folded.
    pub fn parse(text: &str) -> (unit: Result<Self, Error>)
        ensures
            match unit {
                Ok(unit) => Self::parse_spec(text@) == Some(unit),
                Err(error) => Self::parse_spec(text@).is_none() && error@
                    == ErrorView::UnknownUnit(text@),
            },
    {
        proof {
            Self::lemma_prefixed_symbols();
        }
        let found = if str_eq(text, "Ys") {
            Some(UnitsTime::Ys)
        } else if str_eq(text, "Zs") {
            Some(UnitsTime::Zs)
        } else if str_eq(text, "Es") {
            Some(UnitsTime::Es)
        } else if str_eq(text, "Ps") {
            Some(UnitsTime::Ps)
        } else if str_eq(text, "Ts") {
            Some(UnitsTime::Ts)
        } else if str_eq(text, "Gs") {
            Some(UnitsTime::Gs)
        } else if str_eq(text, "Ms") {
            Some(UnitsTime::Ms)
        } else if str_eq(text, "ks") {
            Some(UnitsTime::ks)
        } else if str_eq(text, "hs") {
            Some(UnitsTime::hs)
        } else if str_eq(text, "das") {
            Some(UnitsTime::das)
        } else if str_eq(text, "s") {
            Some(UnitsTime::s)
        } else if str_eq(text, "ds") {
            Some(UnitsTime::ds)
        } else if str_eq(text, "cs") {
            Some(UnitsTime::cs)
        } else if str_eq(text, "ms") {
            Some(UnitsTime::ms)
        } else if str_eq(text, "µs") || str_eq(text, "us") {
            Some(UnitsTime::us)
        } else if str_eq(text, "ns") {
            Some(UnitsTime::ns)
        } else if str_eq(text, "ps") {
            Some(UnitsTime::ps)
        } else if str_eq(text, "fs") {
            Some(UnitsTime::fs)
        } else if str_eq(text, "as") {
            Some(UnitsTime::as_)
        } else if str_eq(text, "zs") {
            Some(UnitsTime::zs)
        } else if str_eq(text, "ys") {
            Some(UnitsTime::ys)
        } else if str_eq(text, "min") {
            Some(UnitsTime::min)
        } else if str_eq(text, "h") {
            Some(UnitsTime::h)
        } else if str_eq(text, "d") {
            Some(UnitsTime::d)
        } else {
            None
        };
        match found {
            Some(unit) => {
                proof {
                    assert(unit.spells(text@));
                    Self::lemma_spelling_unique(
                        unit,
                        choose|other: Self| other.spells(text@),
                        text@,
                    );
                }
                Ok(unit)
            },
            None => {
                proof {
                    assert forall|unit: Self| !unit.spells(text@) by {}
                }
                Err(Error::UnknownUnit(text.to_owned()))
            },
        }
    }

    /// all possible variants of this enum that can be constructed or converted into
    pub fn variants() -> (list: Vec<Self>)
        ensures
            list@ == Self::all(),
    {
        vec![
            UnitsTime::Ys,
            UnitsTime::Zs,
            UnitsTime::Es,
            UnitsTime::Ps,
            UnitsTime::Ts,
            UnitsTime::Gs,
            UnitsTime::Ms,
            UnitsTime::ks,
            UnitsTime::hs,
            UnitsTime::das,
            UnitsTime::s,
            UnitsTime::ds,
            UnitsTime::cs,
            UnitsTime::ms,
            UnitsTime::us,
            UnitsTime::ns,
            UnitsTime::ps,
            UnitsTime::fs,
            UnitsTime::as_,
            UnitsTime::zs,
            UnitsTime::ys,
            UnitsTime::min,
            UnitsTime::h,
            UnitsTime::d,
        ]
    }

    /// Each of the first 21 symbols is an SI prefix followed by the symbol of
    /// the second.
    pub proof fn lemma_prefixed_symbols()
        ensures
            "Ys"@ == "Y"@ + "s"@,
            "Zs"@ == "Z"@ + "s"@,
            "Es"@ == "E"@ + "s"@,
            "Ps"@ == "P"@ + "s"@,
            "Ts"@ == "T"@ + "s"@,
            "Gs"@ == "G"@ + "s"@,
            "Ms"@ == "M"@ + "s"@,
            "ks"@ == "k"@ + "s"@,
            "hs"@ == "h"@ + "s"@,
            "das"@ == "da"@ + "s"@,
            "s"@ == ""@ + "s"@,
            "ds"@ == "d"@ + "s"@,
            "cs"@ == "c"@ + "s"@,
            "ms"@ == "m"@ + "s"@,
            "µs"@ == "µ"@ + "s"@,
            "ns"@ == "n"@ + "s"@,
            "ps"@ == "p"@ + "s"@,
            "fs"@ == "f"@ + "s"@,
            "as"@ == "a"@ + "s"@,
            "zs"@ == "z"@ + "s"@,
            "ys"@ == "y"@ + "s"@,
    {
        reveal_strlit("Ys");
        reveal_strlit("Y");
        reveal_strlit("s");
        reveal_strlit("Zs");
        reveal_strlit("Z");
        reveal_strlit("Es");
        reveal_strlit("E");
        reveal_strlit("Ps");
        reveal_strlit("P");
        reveal_strlit("Ts");
        reveal_strlit("T");
        reveal_strlit("Gs");
        reveal_strlit("G");
        reveal_strlit("Ms");
        reveal_strlit("M");
        reveal_strlit("ks");
        reveal_strlit("k");
        reveal_strlit("hs");
        reveal_strlit("h");
        reveal_strlit("das");
        reveal_strlit("da");
        reveal_strlit("");
        reveal_strlit("ds");
        reveal_strlit("d");
        reveal_strlit("cs");
        reveal_strlit("c");
        reveal_strlit("ms");
        reveal_strlit("m");
        reveal_strlit("µs");
        reveal_strlit("µ");
        reveal_strlit("ns");
        reveal_strlit("n");
        reveal_strlit("ps");
        reveal_strlit("p");
        reveal_strlit("fs");
        reveal_strlit("f");
        reveal_strlit("as");
        reveal_strlit("a");
        reveal_strlit("zs");
        reveal_strlit("z");
        reveal_strlit("ys");
        reveal_strlit("y");
        assert("Ys"@ =~= "Y"@ + "s"@);
        assert("Zs"@ =~= "Z"@ + "s"@);
        assert("Es"@ =~= "E"@ + "s"@);
        assert("Ps"@ =~= "P"@ + "s"@);
        assert("Ts"@ =~= "T"@ + "s"@);
        assert("Gs"@ =~= "G"@ + "s"@);
        assert("Ms"@ =~= "M"@ + "s"@);
        assert("ks"@ =~= "k"@ + "s"@);
        assert("hs"@ =~= "h"@ + "s"@);
        assert("das"@ =~= "da"@ + "s"@);
        assert("s"@ =~= ""@ + "s"@);
        assert("ds"@ =~= "d"@ + "s"@);
        assert("cs"@ =~= "c"@ + "s"@);
        assert("ms"@ =~= "m"@ + "s"@);
        assert("µs"@ =~= "µ"@ + "s"@);
        assert("ns"@ =~= "n"@ + "s"@);
        assert("ps"@ =~= "p"@ + "s"@);
        assert("fs"@ =~= "f"@ + "s"@);
        assert("as"@ =~= "a"@ + "s"@);
        assert("zs"@ =~= "z"@ + "s"@);
        assert("ys"@ =~= "y"@ + "s"@);
    }

    /// No text is a way to write two different units.
    pub proof fn lemma_spelling_unique(a: Self, b: Self, text: Seq<char>)
        requires
            a.spells(text),
            b.spells(text),
        ensures
            a == b,
    {
        Self::lemma_prefixed_symbols();
        reveal_strlit("Ys");
        reveal_strlit("Zs");
        reveal_strlit("Es");
        reveal_strlit("Ps");
        reveal_strlit("Ts");
        reveal_strlit("Gs");
        reveal_strlit("Ms");
        reveal_strlit("ks");
        reveal_strlit("hs");
        reveal_strlit("das");
        reveal_strlit("s");
        reveal_strlit("ds");
        reveal_strlit("cs");
        reveal_strlit("ms");
        reveal_strlit("µs");
        reveal_strlit("us");
        reveal_strlit("ns");
        reveal_strlit("ps");
        reveal_strlit("fs");
        reveal_strlit("as");
        reveal_strlit("zs");
        reveal_strlit("ys");
        reveal_strlit("min");
        reveal_strlit("h");
        reveal_strlit("d");
        assert("Ys"@.len() == 2 && "Ys"@[0] == 'Y' && "Ys"@[1] == 's');
        assert("Zs"@.len() == 2 && "Zs"@[0] == 'Z' && "Zs"@[1] == 's');
        assert("Es"@.len() == 2 && "Es"@[0] == 'E' && "Es"@[1] == 's');
        assert("Ps"@.len() == 2 && "Ps"@[0] == 'P' && "Ps"@[1] == 's');
        assert("Ts"@.len() == 2 && "Ts"@[0] == 'T' && "Ts"@[1] == 's');
        assert("Gs"@.len() == 2 && "Gs"@[0] == 'G' && "Gs"@[1] == 's');
        assert("Ms"@.len() == 2 && "Ms"@[0] == 'M' && "Ms"@[1] == 's');
        assert("ks"@.len() == 2 && "ks"@[0] == 'k' && "ks"@[1] == 's');
        assert("hs"@.len() == 2 && "hs"@[0] == 'h' && "hs"@[1] == 's');
        assert("das"@.len() == 3 && "das"@[0] == 'd' && "das"@[1] == 'a' && "das"@[2] == 's');
        assert("s"@.len() == 1 && "s"@[0] == 's');
        assert("ds"@.len() == 2 && "ds"@[0] == 'd' && "ds"@[1] == 's');
        assert("cs"@.len() == 2 && "cs"@[0] == 'c' && "cs"@[1] == 's');
        assert("ms"@.len() == 2 && "ms"@[0] == 'm' && "ms"@[1] == 's');
        assert("µs"@.len() == 2 && "µs"@[0] == 'µ' && "µs"@[1] == 's');
        assert("us"@.len() == 2 && "us"@[0] == 'u' && "us"@[1] == 's');
        assert("ns"@.len() == 2 && "ns"@[0] == 'n' && "ns"@[1] == 's');
        assert("ps"@.len() == 2 && "ps"@[0] == 'p' && "ps"@[1] == 's');
        assert("fs"@.len() == 2 && "fs"@[0] == 'f' && "fs"@[1] == 's');
        assert("as"@.len() == 2 && "as"@[0] == 'a' && "as"@[1] == 's');
        assert("zs"@.len() == 2 && "zs"@[0] == 'z' && "zs"@[1] == 's');
        assert("ys"@.len() == 2 && "ys"@[0] == 'y' && "ys"@[1] == 's');
        assert("min"@.len() == 3 && "min"@[0] == 'm' && "min"@[1] == 'i' && "min"@[2] == 'n');
        assert("h"@.len() == 1 && "h"@[0] == 'h');
        assert("d"@.len() == 1 && "d"@[0] == 'd');
    }

    /// Reading the symbol of a unit gives the unit back.
    pub proof fn lemma_parse_symbol(unit: Self)
        ensures
            Self::parse_spec(unit.symbol_spec()) == Some(unit),
    {
        let text = unit.symbol_spec();
        assert(unit.spells(text));
        Self::lemma_spelling_unique(unit, choose|other: Self| other.spells(text), text);
    }

    /// The list of variants holds each of the 24 units once, at its place.
    pub proof fn lemma_variants_complete(unit: Self)
        ensures
            Self::all().len() == 24,
            0 <= unit.position() < 24,
            Self::all()[unit.position()] == unit,
            Self::all().contains(unit),
            Self::all().no_duplicates(),
    {
        let all = Self::all();
        assert(all[unit.position()] == unit);
        assert forall|i: int| 0 <= i < all.len() implies (#[trigger] all[i]).position() == i by {}
    }

    /// The second is the one unit whose scale is one.
    pub proof fn lemma_base_unit(unit: Self)
        ensures
            (unit.si_factor() matches Ok(factor) && factor.is_one()) <==> unit == UnitsTime::s,
    {
        match unit {
            UnitsTime::min => Factor::lemma_decimal_is_one(6, 1),
            UnitsTime::h => Factor::lemma_decimal_is_one(36, 2),
            UnitsTime::d => Factor::lemma_decimal_is_one(864, 2),
            _ => Factor::lemma_decimal_is_one(1, prefix_exponent(unit.position())),
        }
    }

    /// A converted value, taken in seconds, is the value that it was
    /// converted from, taken in seconds.
    pub proof fn lemma_same_quantity(self, unit: Self, value: Rational)
        requires
            value.wf(),
        ensures
            self.conversion(&unit) matches Ok(there) && there.apply(value).times(
                unit.si_factor()->Ok_0.value(),
            ).same(value.times(self.si_factor()->Ok_0.value())),
    {
        if self != unit {
            lemma_scale_keeps_quantity(self.si_factor()->Ok_0, unit.si_factor()->Ok_0, value);
        }
    }

    /// Converting a time into another unit and back gives the value again.
    pub proof fn lemma_round_trip(self, unit: Self, value: Rational)
        requires
            value.wf(),
        ensures
            self.conversion(&unit) matches Ok(there) && unit.conversion(&self) matches Ok(back)
                && back.apply(there.apply(value)).same(value),
    {
        if self != unit {
            lemma_scale_round_trip(self.si_factor()->Ok_0, unit.si_factor()->Ok_0, value);
        }
    }
}

impl core::str::FromStr for UnitsTime {
    type Err = Error;

    /// Reads a unit from its symbol, as [`UnitsTime::parse`] does.
    fn from_str(text: &str) -> (unit: Result<Self, Error>)
        ensures
            match unit {
                Ok(unit) => Self::parse_spec(text@) == Some(unit),
                Err(error) => Self::parse_spec(text@).is_none() && error@
                    == ErrorView::UnknownUnit(text@),
            },
    {
        Self::parse(text)
    }
}

impl Convert for UnitsTime {
    /// How many seconds the unit is: for the first 21 units the power of
    /// ten of the SI prefix.
    open spec fn si_factor(&self) -> Result<Factor, ErrorView> {
        match self {
            UnitsTime::min => Ok(Factor::of(6, 1)),
            UnitsTime::h => Ok(Factor::of(36, 2)),
            UnitsTime::d => Ok(Factor::of(864, 2)),
            _ => Ok(Factor::of(1, prefix_exponent(self.position()))),
        }
    }

    open spec fn conversion(&self, unit: &Self) -> Result<Conversion, ErrorView> {
        scale_plan(self == unit, self.si_factor(), unit.si_factor())
    }

    fn as_si(&self) -> (factor: Result<Factor, Error>) {
        match self {
            UnitsTime::Ys => Ok(Factor::decimal(1, 24)),
            UnitsTime::Zs => Ok(Factor::decimal(1, 21)),
            UnitsTime::Es => Ok(Factor::decimal(1, 18)),
            UnitsTime::Ps => Ok(Factor::decimal(1, 15)),
            UnitsTime::Ts => Ok(Factor::decimal(1, 12)),
            UnitsTime::Gs => Ok(Factor::decimal(1, 9)),
            UnitsTime::Ms => Ok(Factor::decimal(1, 6)),
            UnitsTime::ks => Ok(Factor::decimal(1, 3)),
            UnitsTime::hs => Ok(Factor::decimal(1, 2)),
            UnitsTime::das => Ok(Factor::decimal(1, 1)),
            UnitsTime::s => Ok(Factor::decimal(1, 0)),
            UnitsTime::ds => Ok(Factor::decimal(1, -1)),
            UnitsTime::cs => Ok(Factor::decimal(1, -2)),
            UnitsTime::ms => Ok(Factor::decimal(1, -3)),
            UnitsTime::us => Ok(Factor::decimal(1, -6)),
            UnitsTime::ns => Ok(Factor::decimal(1, -9)),
            UnitsTime::ps => Ok(Factor::decimal(1, -12)),
            UnitsTime::fs => Ok(Factor::decimal(1, -15)),
            UnitsTime::as_ => Ok(Factor::decimal(1, -18)),
            UnitsTime::zs => Ok(Factor::decimal(1, -21)),
            UnitsTime::ys => Ok(Factor::decimal(1, -24)),
            UnitsTime::min => Ok(Factor::decimal(6, 1)),
            UnitsTime::h => Ok(Factor::decimal(36, 2)),
            UnitsTime::d => Ok(Factor::decimal(864, 2)),
        }
    }

    fn convert(&self, unit: &Self) -> (plan: Result<Conversion, Error>) {
        if *self == *unit {
            Ok(Conversion::Identity)
        } else {
            scale_between(self.as_si(), unit.as_si())
        }
    }

    proof fn lemma_same_unit(&self) {
    }
}

} // verus!
