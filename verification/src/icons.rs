//! The icon translator: a total, one-to-one mapping from upstream forecast
//! condition codes to glyph identifiers in the display icon font.

use vstd::prelude::*;

use crate::text::str_eq;

verus! {

/// Condition codes that the upstream forecast data may carry.
/// The enumeration is closed: the upstream schema defines exactly these.
#[derive(Clone, Copy, Debug, PartialEq, Eq, Structural)]
pub enum ForecastIcon {
    ClearDay,
    ClearNight,
    Cloudy,
    Fog,
    Hail,
    PartlyCloudyDay,
    PartlyCloudyNight,
    Rain,
    Sleet,
    Snow,
    Thunderstorm,
    Tornado,
    Wind,
}

/// Glyph identifiers in the display icon font: one for each forecast
/// condition code, plus `Na`, the sentinel shown when no data is available.
#[derive(Clone, Copy, Debug, PartialEq, Eq, Structural)]
pub enum DisplayIcon {
    ClearDay,
    ClearNight,
    Cloudy,
    Fog,
    Hail,
    PartlyCloudyDay,
    PartlyCloudyNight,
    Rain,
    Sleet,
    Snow,
    Thunderstorm,
    Tornado,
    Wind,
    Na,
}

/// The fixed mapping from forecast codes to display glyphs.
pub open spec fn icon_for(icon: ForecastIcon) -> DisplayIcon {
    match icon {
        ForecastIcon::ClearDay => DisplayIcon::ClearDay,
        ForecastIcon::ClearNight => DisplayIcon::ClearNight,
        ForecastIcon::Cloudy => DisplayIcon::Cloudy,
        ForecastIcon::Fog => DisplayIcon::Fog,
        ForecastIcon::Hail => DisplayIcon::Hail,
        ForecastIcon::PartlyCloudyDay => DisplayIcon::PartlyCloudyDay,
        ForecastIcon::PartlyCloudyNight => DisplayIcon::PartlyCloudyNight,
        ForecastIcon::Rain => DisplayIcon::Rain,
        ForecastIcon::Sleet => DisplayIcon::Sleet,
        ForecastIcon::Snow => DisplayIcon::Snow,
        ForecastIcon::Thunderstorm => DisplayIcon::Thunderstorm,
        ForecastIcon::Tornado => DisplayIcon::Tornado,
        ForecastIcon::Wind => DisplayIcon::Wind,
    }
}

/// Translate a forecast condition code to its display glyph.
///
/// The match is exhaustive over the closed input enumeration, so the
/// function is total and never yields the `Na` sentinel.
pub fn get_icon(icon: ForecastIcon) -> (r: DisplayIcon)
    ensures
        r == icon_for(icon),
        r != DisplayIcon::Na,
{
    match icon {
        ForecastIcon::ClearDay => DisplayIcon::ClearDay,
        ForecastIcon::ClearNight => DisplayIcon::ClearNight,
        ForecastIcon::Cloudy => DisplayIcon::Cloudy,
        ForecastIcon::Fog => DisplayIcon::Fog,
        ForecastIcon::Hail => DisplayIcon::Hail,
        ForecastIcon::PartlyCloudyDay => DisplayIcon::PartlyCloudyDay,
        ForecastIcon::PartlyCloudyNight => DisplayIcon::PartlyCloudyNight,
        ForecastIcon::Rain => DisplayIcon::Rain,
        ForecastIcon::Sleet => DisplayIcon::Sleet,
        ForecastIcon::Snow => DisplayIcon::Snow,
        ForecastIcon::Thunderstorm => DisplayIcon::Thunderstorm,
        ForecastIcon::Tornado => DisplayIcon::Tornado,
        ForecastIcon::Wind => DisplayIcon::Wind,
    }
}

/// The condition-code string that the upstream schema uses for each
/// forecast icon.
pub open spec fn code_seq(icon: ForecastIcon) -> Seq<char> {
    match icon {
        ForecastIcon::ClearDay => "clear-day"@,
        ForecastIcon::ClearNight => "clear-night"@,
        ForecastIcon::Cloudy => "cloudy"@,
        ForecastIcon::Fog => "fog"@,
        ForecastIcon::Hail => "hail"@,
        ForecastIcon::PartlyCloudyDay => "partly-cloudy-day"@,
        ForecastIcon::PartlyCloudyNight => "partly-cloudy-night"@,
        ForecastIcon::Rain => "rain"@,
        ForecastIcon::Sleet => "sleet"@,
        ForecastIcon::Snow => "snow"@,
        ForecastIcon::Thunderstorm => "thunderstorm"@,
        ForecastIcon::Tornado => "tornado"@,
        ForecastIcon::Wind => "wind"@,
    }
}

/// The forecast icon denoted by an upstream condition-code string, if any.
pub open spec fn icon_of_code(s: Seq<char>) -> Option<ForecastIcon> {
    if s == "clear-day"@ {
        Some(ForecastIcon::ClearDay)
    } else if s == "clear-night"@ {
        Some(ForecastIcon::ClearNight)
    } else if s == "cloudy"@ {
        Some(ForecastIcon::Cloudy)
    } else if s == "fog"@ {
        Some(ForecastIcon::Fog)
    } else if s == "hail"@ {
        Some(ForecastIcon::Hail)
    } else if s == "partly-cloudy-day"@ {
        Some(ForecastIcon::PartlyCloudyDay)
    } else if s == "partly-cloudy-night"@ {
        Some(ForecastIcon::PartlyCloudyNight)
    } else if s == "rain"@ {
        Some(ForecastIcon::Rain)
    } else if s == "sleet"@ {
        Some(ForecastIcon::Sleet)
    } else if s == "snow"@ {
        Some(ForecastIcon::Snow)
    } else if s == "thunderstorm"@ {
        Some(ForecastIcon::Thunderstorm)
    } else if s == "tornado"@ {
        Some(ForecastIcon::Tornado)
    } else if s == "wind"@ {
        Some(ForecastIcon::Wind)
    } else {
        None
    }
}

impl ForecastIcon {
    /// The upstream condition-code string for this icon.
    pub fn code(self) -> (r: &'static str)
        ensures
            r@ == code_seq(self),
    {
        match self {
            ForecastIcon::ClearDay => "clear-day",
            ForecastIcon::ClearNight => "clear-night",
            ForecastIcon::Cloudy => "cloudy",
            ForecastIcon::Fog => "fog",
            ForecastIcon::Hail => "hail",
            ForecastIcon::PartlyCloudyDay => "partly-cloudy-day",
            ForecastIcon::PartlyCloudyNight => "partly-cloudy-night",
            ForecastIcon::Rain => "rain",
            ForecastIcon::Sleet => "sleet",
            ForecastIcon::Snow => "snow",
            ForecastIcon::Thunderstorm => "thunderstorm",
            ForecastIcon::Tornado => "tornado",
            ForecastIcon::Wind => "wind",
        }
    }

    /// Parse an upstream condition-code string; `None` for any string
    /// outside the closed set of codes.
    pub fn from_code(s: &str) -> (r: Option<ForecastIcon>)
        ensures
            r == icon_of_code(s@),
    {
        if str_eq(s, "clear-day") {
            Some(ForecastIcon::ClearDay)
        } else if str_eq(s, "clear-night") {
            Some(ForecastIcon::ClearNight)
        } else if str_eq(s, "cloudy") {
            Some(ForecastIcon::Cloudy)
        } else if str_eq(s, "fog") {
            Some(ForecastIcon::Fog)
        } else if str_eq(s, "hail") {
            Some(ForecastIcon::Hail)
        } else if str_eq(s, "partly-cloudy-day") {
            Some(ForecastIcon::PartlyCloudyDay)
        } else if str_eq(s, "partly-cloudy-night") {
            Some(ForecastIcon::PartlyCloudyNight)
        } else if str_eq(s, "rain") {
            Some(ForecastIcon::Rain)
        } else if str_eq(s, "sleet") {
            Some(ForecastIcon::Sleet)
        } else if str_eq(s, "snow") {
            Some(ForecastIcon::Snow)
        } else if str_eq(s, "thunderstorm") {
            Some(ForecastIcon::Thunderstorm)
        } else if str_eq(s, "tornado") {
            Some(ForecastIcon::Tornado)
        } else if str_eq(s, "wind") {
            Some(ForecastIcon::Wind)
        } else {
            None
        }
    }
}

/// The glyph in the display icon font for each display icon, as a
/// one-character string.
pub open spec fn glyph_seq(icon: DisplayIcon) -> Seq<char> {
    match icon {
        DisplayIcon::ClearDay => "\u{f00d}"@,
        DisplayIcon::ClearNight => "\u{f02e}"@,
        DisplayIcon::Cloudy => "\u{f013}"@,
        DisplayIcon::Fog => "\u{f014}"@,
        DisplayIcon::Hail => "\u{f015}"@,
        DisplayIcon::PartlyCloudyDay => "\u{f002}"@,
        DisplayIcon::PartlyCloudyNight => "\u{f031}"@,
        DisplayIcon::Rain => "\u{f019}"@,
        DisplayIcon::Sleet => "\u{f0b5}"@,
        DisplayIcon::Snow => "\u{f01b}"@,
        DisplayIcon::Thunderstorm => "\u{f01e}"@,
        DisplayIcon::Tornado => "\u{f056}"@,
        DisplayIcon::Wind => "\u{f050}"@,
        DisplayIcon::Na => "\u{f07b}"@,
    }
}

impl DisplayIcon {
    /// The glyph for this display icon, as a one-character string.
    pub fn glyph(self) -> (r: &'static str)
        ensures
            r@ == glyph_seq(self),
    {
        match self {
            DisplayIcon::ClearDay => "\u{f00d}",
            DisplayIcon::ClearNight => "\u{f02e}",
            DisplayIcon::Cloudy => "\u{f013}",
            DisplayIcon::Fog => "\u{f014}",
            DisplayIcon::Hail => "\u{f015}",
            DisplayIcon::PartlyCloudyDay => "\u{f002}",
            DisplayIcon::PartlyCloudyNight => "\u{f031}",
            DisplayIcon::Rain => "\u{f019}",
            DisplayIcon::Sleet => "\u{f0b5}",
            DisplayIcon::Snow => "\u{f01b}",
            DisplayIcon::Thunderstorm => "\u{f01e}",
            DisplayIcon::Tornado => "\u{f056}",
            DisplayIcon::Wind => "\u{f050}",
            DisplayIcon::Na => "\u{f07b}",
        }
    }
}

/// Condition codes denote the forecast icons faithfully: decoding the
/// code of an icon yields that icon again.
pub proof fn lemma_icon_code_round_trip(icon: ForecastIcon)
    ensures
        icon_of_code(code_seq(icon)) == Some(icon),
{
    reveal_strlit("clear-day");
    reveal_strlit("clear-night");
    reveal_strlit("cloudy");
    reveal_strlit("fog");
    reveal_strlit("hail");
    reveal_strlit("partly-cloudy-day");
    reveal_strlit("partly-cloudy-night");
    reveal_strlit("rain");
    reveal_strlit("sleet");
    reveal_strlit("snow");
    reveal_strlit("thunderstorm");
    reveal_strlit("tornado");
    reveal_strlit("wind");
    assert("clear-day"@.len() == 9);
    assert("clear-night"@.len() == 11);
    assert("cloudy"@.len() == 6);
    assert("fog"@.len() == 3);
    assert("hail"@.len() == 4);
    assert("partly-cloudy-day"@.len() == 17);
    assert("partly-cloudy-night"@.len() == 19);
    assert("rain"@.len() == 4);
    assert("sleet"@.len() == 5);
    assert("snow"@.len() == 4);
    assert("thunderstorm"@.len() == 12);
    assert("tornado"@.len() == 7);
    assert("wind"@.len() == 4);
    assert("hail"@[0] == 'h' && "rain"@[0] == 'r' && "snow"@[0] == 's' && "wind"@[0] == 'w');
    match icon {
        ForecastIcon::ClearDay => assert(icon_of_code(code_seq(icon)) == Some(icon)),
        ForecastIcon::ClearNight => assert(icon_of_code(code_seq(icon)) == Some(icon)),
        ForecastIcon::Cloudy => assert(icon_of_code(code_seq(icon)) == Some(icon)),
        ForecastIcon::Fog => assert(icon_of_code(code_seq(icon)) == Some(icon)),
        ForecastIcon::Hail => assert(icon_of_code(code_seq(icon)) == Some(icon)),
        ForecastIcon::PartlyCloudyDay => assert(icon_of_code(code_seq(icon)) == Some(icon)),
        ForecastIcon::PartlyCloudyNight => assert(icon_of_code(code_seq(icon)) == Some(icon)),
        ForecastIcon::Rain => assert(icon_of_code(code_seq(icon)) == Some(icon)),
        ForecastIcon::Sleet => assert(icon_of_code(code_seq(icon)) == Some(icon)),
        ForecastIcon::Snow => assert(icon_of_code(code_seq(icon)) == Some(icon)),
        ForecastIcon::Thunderstorm => assert(icon_of_code(code_seq(icon)) == Some(icon)),
        ForecastIcon::Tornado => assert(icon_of_code(code_seq(icon)) == Some(icon)),
        ForecastIcon::Wind => assert(icon_of_code(code_seq(icon)) == Some(icon)),
    }
}

/// Condition codes are distinct: no two forecast icons share one.
pub proof fn lemma_icon_code_injective(a: ForecastIcon, b: ForecastIcon)
    requires
        code_seq(a) == code_seq(b),
    ensures
        a == b,
{
    lemma_icon_code_round_trip(a);
    lemma_icon_code_round_trip(b);
}

/// The display icon a font glyph stands for, if any.
pub open spec fn icon_of_glyph(s: Seq<char>) -> Option<DisplayIcon> {
    if s == "\u{f00d}"@ {
        Some(DisplayIcon::ClearDay)
    } else if s == "\u{f02e}"@ {
        Some(DisplayIcon::ClearNight)
    } else if s == "\u{f013}"@ {
        Some(DisplayIcon::Cloudy)
    } else if s == "\u{f014}"@ {
        Some(DisplayIcon::Fog)
    } else if s == "\u{f015}"@ {
        Some(DisplayIcon::Hail)
    } else if s == "\u{f002}"@ {
        Some(DisplayIcon::PartlyCloudyDay)
    } else if s == "\u{f031}"@ {
        Some(DisplayIcon::PartlyCloudyNight)
    } else if s == "\u{f019}"@ {
        Some(DisplayIcon::Rain)
    } else if s == "\u{f0b5}"@ {
        Some(DisplayIcon::Sleet)
    } else if s == "\u{f01b}"@ {
        Some(DisplayIcon::Snow)
    } else if s == "\u{f01e}"@ {
        Some(DisplayIcon::Thunderstorm)
    } else if s == "\u{f056}"@ {
        Some(DisplayIcon::Tornado)
    } else if s == "\u{f050}"@ {
        Some(DisplayIcon::Wind)
    } else if s == "\u{f07b}"@ {
        Some(DisplayIcon::Na)
    } else {
        None
    }
}

/// Each glyph stands for its own display icon alone.
pub proof fn lemma_glyph_round_trip(icon: DisplayIcon)
    ensures
        icon_of_glyph(glyph_seq(icon)) == Some(icon),
{
    reveal_strlit("\u{f00d}");
    reveal_strlit("\u{f02e}");
    reveal_strlit("\u{f013}");
    reveal_strlit("\u{f014}");
    reveal_strlit("\u{f015}");
    reveal_strlit("\u{f002}");
    reveal_strlit("\u{f031}");
    reveal_strlit("\u{f019}");
    reveal_strlit("\u{f0b5}");
    reveal_strlit("\u{f01b}");
    reveal_strlit("\u{f01e}");
    reveal_strlit("\u{f056}");
    reveal_strlit("\u{f050}");
    reveal_strlit("\u{f07b}");
    assert("\u{f00d}"@.len() == 1);
    assert("\u{f00d}"@[0] == '\u{f00d}');
    assert("\u{f02e}"@.len() == 1);
    assert("\u{f02e}"@[0] == '\u{f02e}');
    assert("\u{f013}"@.len() == 1);
    assert("\u{f013}"@[0] == '\u{f013}');
    assert("\u{f014}"@.len() == 1);
    assert("\u{f014}"@[0] == '\u{f014}');
    assert("\u{f015}"@.len() == 1);
    assert("\u{f015}"@[0] == '\u{f015}');
    assert("\u{f002}"@.len() == 1);
    assert("\u{f002}"@[0] == '\u{f002}');
    assert("\u{f031}"@.len() == 1);
    assert("\u{f031}"@[0] == '\u{f031}');
    assert("\u{f019}"@.len() == 1);
    assert("\u{f019}"@[0] == '\u{f019}');
    assert("\u{f0b5}"@.len() == 1);
    assert("\u{f0b5}"@[0] == '\u{f0b5}');
    assert("\u{f01b}"@.len() == 1);
    assert("\u{f01b}"@[0] == '\u{f01b}');
    assert("\u{f01e}"@.len() == 1);
    assert("\u{f01e}"@[0] == '\u{f01e}');
    assert("\u{f056}"@.len() == 1);
    assert("\u{f056}"@[0] == '\u{f056}');
    assert("\u{f050}"@.len() == 1);
    assert("\u{f050}"@[0] == '\u{f050}');
    assert("\u{f07b}"@.len() == 1);
    assert("\u{f07b}"@[0] == '\u{f07b}');
    match icon {
        DisplayIcon::ClearDay => assert(icon_of_glyph(glyph_seq(icon)) == Some(icon)),
        DisplayIcon::ClearNight => assert(icon_of_glyph(glyph_seq(icon)) == Some(icon)),
        DisplayIcon::Cloudy => assert(icon_of_glyph(glyph_seq(icon)) == Some(icon)),
        DisplayIcon::Fog => assert(icon_of_glyph(glyph_seq(icon)) == Some(icon)),
        DisplayIcon::Hail => assert(icon_of_glyph(glyph_seq(icon)) == Some(icon)),
        DisplayIcon::PartlyCloudyDay => assert(icon_of_glyph(glyph_seq(icon)) == Some(icon)),
        DisplayIcon::PartlyCloudyNight => assert(icon_of_glyph(glyph_seq(icon)) == Some(icon)),
        DisplayIcon::Rain => assert(icon_of_glyph(glyph_seq(icon)) == Some(icon)),
        DisplayIcon::Sleet => assert(icon_of_glyph(glyph_seq(icon)) == Some(icon)),
        DisplayIcon::Snow => assert(icon_of_glyph(glyph_seq(icon)) == Some(icon)),
        DisplayIcon::Thunderstorm => assert(icon_of_glyph(glyph_seq(icon)) == Some(icon)),
        DisplayIcon::Tornado => assert(icon_of_glyph(glyph_seq(icon)) == Some(icon)),
        DisplayIcon::Wind => assert(icon_of_glyph(glyph_seq(icon)) == Some(icon)),
        DisplayIcon::Na => assert(icon_of_glyph(glyph_seq(icon)) == Some(icon)),
    }
}

/// Glyphs are distinct: no two display icons share one in the font.
pub proof fn lemma_glyph_injective(a: DisplayIcon, b: DisplayIcon)
    requires
        glyph_seq(a) == glyph_seq(b),
    ensures
        a == b,
{
    lemma_glyph_round_trip(a);
    lemma_glyph_round_trip(b);
}

/// The mapping is injective: distinct forecast codes are shown with
/// distinct display glyphs, so over the defined set it is one-to-one.
pub proof fn lemma_icon_for_injective(a: ForecastIcon, b: ForecastIcon)
    requires
        icon_for(a) == icon_for(b),
    ensures
        a == b,
{
}

/// The mapping never yields the `Na` sentinel: every forecast code has a
/// glyph of its own.
pub proof fn lemma_icon_for_total(a: ForecastIcon)
    ensures
        icon_for(a) != DisplayIcon::Na,
{
}

/// The translation is deterministic: any two results of translating the
/// same forecast code are the same glyph, since `get_icon` returns exactly
/// `icon_for` of its argument.
pub proof fn lemma_icon_for_deterministic(a: ForecastIcon, r1: DisplayIcon, r2: DisplayIcon)
    requires
        r1 == icon_for(a),
        r2 == icon_for(a),
    ensures
        r1 == r2,
{
}

} // verus!
