//! Names of the weather codes that the schedule carries.
use vstd::prelude::*;

verus! {

pub open spec fn weather_name(w: u64) -> Seq<char> {
    if w == 0 {
        "Void"@
    } else if w == 1 {
        "Sun 2"@
    } else if w == 2 {
        "Overcast"@
    } else if w == 3 {
        "Rainy"@
    } else if w == 4 {
        "Sandstorm"@
    } else if w == 5 {
        "Snowy"@
    } else if w == 6 {
        "Acidic"@
    } else if w == 7 {
        "Solar Eclipse"@
    } else if w == 8 {
        "Glitter"@
    } else if w == 9 {
        "Blooddrain"@
    } else if w == 10 {
        "Peanuts"@
    } else if w == 11 {
        "Lots of Birds"@
    } else if w == 12 {
        "Feedback"@
    } else if w == 13 {
        "Reverb"@
    } else if w == 14 {
        "Black Hole"@
    } else {
        "?"@
    }
}

/// The display name of a weather code; `?` for an unknown code.
pub fn weather(w: u64) -> (r: String)
    ensures
        r@ == weather_name(w),
{
    let name = match w {
        0 => "Void",
        1 => "Sun 2",  // formerly Sunny
        2 => "Overcast",
        3 => "Rainy",
        4 => "Sandstorm",
        5 => "Snowy",
        6 => "Acidic",
        7 => "Solar Eclipse",
        8 => "Glitter",
        9 => "Blooddrain",
        10 => "Peanuts",
        11 => "Lots of Birds",
        12 => "Feedback",
        13 => "Reverb",
        14 => "Black Hole",
        _ => "?",
    };
    String::from_str(name)
}

} // verus!
