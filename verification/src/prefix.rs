use vstd::prelude::*;

verus! {

/// The symbol of the SI prefix at a place in the list of prefixes, which
/// runs from yotta at place 0 down to yocto at place 20.  The empty prefix,
/// that of the base unit, stands at place 10.
pub open spec fn prefix_symbol(place: int) -> Seq<char> {
    if place == 0 {
        "Y"@
    } else if place == 1 {
        "Z"@
    } else if place == 2 {
        "E"@
    } else if place == 3 {
        "P"@
    } else if place == 4 {
        "T"@
    } else if place == 5 {
        "G"@
    } else if place == 6 {
        "M"@
    } else if place == 7 {
        "k"@
    } else if place == 8 {
        "h"@
    } else if place == 9 {
        "da"@
    } else if place == 10 {
        ""@
    } else if place == 11 {
        "d"@
    } else if place == 12 {
        "c"@
    } else if place == 13 {
        "m"@
    } else if place == 14 {
        "µ"@
    } else if place == 15 {
        "n"@
    } else if place == 16 {
        "p"@
    } else if place == 17 {
        "f"@
    } else if place == 18 {
        "a"@
    } else if place == 19 {
        "z"@
    } else {
        "y"@
    }
}

/// The power of ten that the SI prefix at a place stands for.
pub open spec fn prefix_exponent(place: int) -> int {
    if place <= 7 {
        24 - 3 * place
    } else if place <= 13 {
        10 - place
    } else {
        36 - 3 * place
    }
}

} // verus!
