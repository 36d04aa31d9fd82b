use vstd::prelude::*;

verus! {

/// How strongly a condition label is highlighted.
#[derive(Clone, Copy, PartialEq, Eq, Structural, Debug)]
pub enum Emphasis {
    Plain,
    Notice,
    Alert,
}

/// The arrow that points where the wind blows to, by the direction it comes
/// from, in degrees: eight sectors of the compass, north first, and `?` past
/// 360.
pub open spec fn spec_wind_arrow(degrees: u64) -> char {
    if degrees < 45 || degrees == 360 {
        '↓'
    } else if degrees < 90 {
        '↙'
    } else if degrees < 135 {
        '←'
    } else if degrees < 180 {
        '↖'
    } else if degrees < 225 {
        '↑'
    } else if degrees < 270 {
        '↗'
    } else if degrees < 315 {
        '→'
    } else if degrees < 360 {
        '↘'
    } else {
        '?'
    }
}

/// The arrow for a wind direction.
pub fn wind_direction_arrow(degrees: u64) -> (r: char)
    ensures
        r == spec_wind_arrow(degrees),
{
    if degrees < 45 || degrees == 360 {
        '↓'
    } else if degrees < 90 {
        '↙'
    } else if degrees < 135 {
        '←'
    } else if degrees < 180 {
        '↖'
    } else if degrees < 225 {
        '↑'
    } else if degrees < 270 {
        '↗'
    } else if degrees < 315 {
        '→'
    } else if degrees < 360 {
        '↘'
    } else {
        '?'
    }
}

/// The label for a WMO condition code; empty for a code the table does not
/// know.
pub open spec fn spec_wmo_label(code: u64) -> Seq<char> {
    if code == 0 {
        "CLEAR SKY"@
    } else if code == 1 {
        "MAINLY CLEAR"@
    } else if code == 2 {
        "PARTLY CLOUDY"@
    } else if code == 3 {
        "OVERCAST"@
    } else if code == 45 || code == 48 {
        "FOG"@
    } else if code == 51 {
        "LIGHT DRIZZLE"@
    } else if code == 53 {
        "MODERATE DRIZZLE"@
    } else if code == 56 {
        "FREEZING DRIZZLE (LIGHT)"@
    } else if code == 57 {
        "FREEZING DRIZZLE (DENSE)"@
    } else if code == 61 {
        "SLIGHT RAIN"@
    } else if code == 63 {
        "MODERATE RAIN"@
    } else if code == 65 {
        "HEAVY RAIN"@
    } else if code == 66 {
        "FREEZING RAIN (LIGHT)"@
    } else if code == 67 {
        "FREEZING RAIN (HEAVY)"@
    } else if code == 71 {
        "SLIGHT SNOW"@
    } else if code == 73 {
        "MODERATE SNOW"@
    } else if code == 75 {
        "HEAVY SNOW"@
    } else if code == 77 {
        "SNOW GRAINS"@
    } else if code == 80 {
        "RAIN SHOWERS (SLIGHT)"@
    } else if code == 81 {
        "RAIN SHOWERS (MODERATE)"@
    } else if code == 82 {
        "RAIN SHOWERS (VIOLENT)"@
    } else if code == 85 {
        "SNOW SHOWERS (SLIGHT)"@
    } else if code == 86 {
        "SNOW SHOWERS (HEAVY)"@
    } else if code == 95 {
        "THUNDERSTORM"@
    } else if code == 96 {
        "THUNDERSTORM (SLIGHT HAIL)"@
    } else if code == 99 {
        "THUNDERSTORM (HEAVY HAIL)"@
    } else {
        Seq::<char>::empty()
    }
}

/// How a WMO condition code's label is highlighted: fog and the lighter
/// kinds of rain, drizzle and snow are a notice, the heavy kinds an alert,
/// clear and cloudy skies plain.
pub open spec fn spec_wmo_emphasis(code: u64) -> Emphasis {
    if code <= 3 {
        Emphasis::Plain
    } else if code == 45 || code == 48 || code == 51 || code == 53 || code == 56 || code == 61
        || code == 63 || code == 66 || code == 71 || code == 80 || code == 81 || code == 85 {
        Emphasis::Notice
    } else if code == 57 || code == 65 || code == 67 || code == 73 || code == 75 || code == 77
        || code == 82 || code == 86 || code == 95 || code == 96 || code == 99 {
        Emphasis::Alert
    } else {
        Emphasis::Plain
    }
}

/// The label and the highlighting for a WMO condition code.
pub fn wmo_code_to_text(code: u64) -> (r: (String, Emphasis))
    ensures
        r.0@ == spec_wmo_label(code),
        r.1 == spec_wmo_emphasis(code),
{
    let r = if code == 0 {
        (String::from_str("CLEAR SKY"), Emphasis::Plain)
    } else if code == 1 {
        (String::from_str("MAINLY CLEAR"), Emphasis::Plain)
    } else if code == 2 {
        (String::from_str("PARTLY CLOUDY"), Emphasis::Plain)
    } else if code == 3 {
        (String::from_str("OVERCAST"), Emphasis::Plain)
    } else if code == 45 || code == 48 {
        (String::from_str("FOG"), Emphasis::Notice)
    } else if code == 51 {
        (String::from_str("LIGHT DRIZZLE"), Emphasis::Notice)
    } else if code == 53 {
        (String::from_str("MODERATE DRIZZLE"), Emphasis::Notice)
    } else if code == 56 {
        (String::from_str("FREEZING DRIZZLE (LIGHT)"), Emphasis::Notice)
    } else if code == 57 {
        (String::from_str("FREEZING DRIZZLE (DENSE)"), Emphasis::Alert)
    } else if code == 61 {
        (String::from_str("SLIGHT RAIN"), Emphasis::Notice)
    } else if code == 63 {
        (String::from_str("MODERATE RAIN"), Emphasis::Notice)
    } else if code == 65 {
        (String::from_str("HEAVY RAIN"), Emphasis::Alert)
    } else if code == 66 {
        (String::from_str("FREEZING RAIN (LIGHT)"), Emphasis::Notice)
    } else if code == 67 {
        (String::from_str("FREEZING RAIN (HEAVY)"), Emphasis::Alert)
    } else if code == 71 {
        (String::from_str("SLIGHT SNOW"), Emphasis::Notice)
    } else if code == 73 {
        (String::from_str("MODERATE SNOW"), Emphasis::Alert)
    } else if code == 75 {
        (String::from_str("HEAVY SNOW"), Emphasis::Alert)
    } else if code == 77 {
        (String::from_str("SNOW GRAINS"), Emphasis::Alert)
    } else if code == 80 {
        (String::from_str("RAIN SHOWERS (SLIGHT)"), Emphasis::Notice)
    } else if code == 81 {
        (String::from_str("RAIN SHOWERS (MODERATE)"), Emphasis::Notice)
    } else if code == 82 {
        (String::from_str("RAIN SHOWERS (VIOLENT)"), Emphasis::Alert)
    } else if code == 85 {
        (String::from_str("SNOW SHOWERS (SLIGHT)"), Emphasis::Notice)
    } else if code == 86 {
        (String::from_str("SNOW SHOWERS (HEAVY)"), Emphasis::Alert)
    } else if code == 95 {
        (String::from_str("THUNDERSTORM"), Emphasis::Alert)
    } else if code == 96 {
        (String::from_str("THUNDERSTORM (SLIGHT HAIL)"), Emphasis::Alert)
    } else if code == 99 {
        (String::from_str("THUNDERSTORM (HEAVY HAIL)"), Emphasis::Alert)
    } else {
        (String::new(), Emphasis::Plain)
    };
    r
}

} // verus!
