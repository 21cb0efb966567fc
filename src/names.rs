//! The pool of argument names.
use vstd::prelude::*;

verus! {

/// How many arguments an aggregate may take.
pub const MAX_ARGS: usize = 32;

/// The name given to the argument at position `i` (from zero).
pub open spec fn arg_name(i: int) -> Seq<char> {
    if i == 0 {
        "arg_one"@
    } else if i == 1 {
        "arg_two"@
    } else if i == 2 {
        "arg_three"@
    } else if i == 3 {
        "arg_four"@
    } else if i == 4 {
        "arg_five"@
    } else if i == 5 {
        "arg_six"@
    } else if i == 6 {
        "arg_seven"@
    } else if i == 7 {
        "arg_eight"@
    } else if i == 8 {
        "arg_nine"@
    } else if i == 9 {
        "arg_ten"@
    } else if i == 10 {
        "arg_eleven"@
    } else if i == 11 {
        "arg_twelve"@
    } else if i == 12 {
        "arg_thirteen"@
    } else if i == 13 {
        "arg_fourteen"@
    } else if i == 14 {
        "arg_fifteen"@
    } else if i == 15 {
        "arg_sixteen"@
    } else if i == 16 {
        "arg_seventeen"@
    } else if i == 17 {
        "arg_eighteen"@
    } else if i == 18 {
        "arg_nineteen"@
    } else if i == 19 {
        "arg_twenty"@
    } else if i == 20 {
        "arg_twenty_one"@
    } else if i == 21 {
        "arg_twenty_two"@
    } else if i == 22 {
        "arg_twenty_three"@
    } else if i == 23 {
        "arg_twenty_four"@
    } else if i == 24 {
        "arg_twenty_five"@
    } else if i == 25 {
        "arg_twenty_six"@
    } else if i == 26 {
        "arg_twenty_seven"@
    } else if i == 27 {
        "arg_twenty_eight"@
    } else if i == 28 {
        "arg_twenty_nine"@
    } else if i == 29 {
        "arg_thirty"@
    } else if i == 30 {
        "arg_thirty_one"@
    } else {
        "arg_thirty_two"@
    }
}

/// The name of the argument at position `i`.
pub fn arg_name_at(i: usize) -> (r: &'static str)
    requires
        i < MAX_ARGS,
    ensures
        r@ == arg_name(i as int),
{
    match i {
        0 => "arg_one",
        1 => "arg_two",
        2 => "arg_three",
        3 => "arg_four",
        4 => "arg_five",
        5 => "arg_six",
        6 => "arg_seven",
        7 => "arg_eight",
        8 => "arg_nine",
        9 => "arg_ten",
        10 => "arg_eleven",
        11 => "arg_twelve",
        12 => "arg_thirteen",
        13 => "arg_fourteen",
        14 => "arg_fifteen",
        15 => "arg_sixteen",
        16 => "arg_seventeen",
        17 => "arg_eighteen",
        18 => "arg_nineteen",
        19 => "arg_twenty",
        20 => "arg_twenty_one",
        21 => "arg_twenty_two",
        22 => "arg_twenty_three",
        23 => "arg_twenty_four",
        24 => "arg_twenty_five",
        25 => "arg_twenty_six",
        26 => "arg_twenty_seven",
        27 => "arg_twenty_eight",
        28 => "arg_twenty_nine",
        29 => "arg_thirty",
        30 => "arg_thirty_one",
        _ => "arg_thirty_two",
    }
}

} // verus!
