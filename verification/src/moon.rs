//! Moon-phase glyphs of the display icon font.  A lunation is modelled
//! as 28 days; each day has its own glyph, and day 28 wraps around to
//! the new moon.  Turning a fractional phase into a day number is the
//! caller's concern.

use vstd::prelude::*;

verus! {

/// The glyph for each day of the 28-day lunation; day 28 is the new
/// moon again.
pub open spec fn moon_glyph(day: int) -> char
    recommends
        0 <= day <= 28,
{
    if day == 0 || day == 28 {
        '\u{f095}'
    } else if day == 1 {
        '\u{f096}'
    } else if day == 2 {
        '\u{f097}'
    } else if day == 3 {
        '\u{f098}'
    } else if day == 4 {
        '\u{f099}'
    } else if day == 5 {
        '\u{f09a}'
    } else if day == 6 {
        '\u{f09b}'
    } else if day == 7 {
        '\u{f09c}'
    } else if day == 8 {
        '\u{f09d}'
    } else if day == 9 {
        '\u{f09e}'
    } else if day == 10 {
        '\u{f09f}'
    } else if day == 11 {
        '\u{f0a0}'
    } else if day == 12 {
        '\u{f0a1}'
    } else if day == 13 {
        '\u{f0a2}'
    } else if day == 14 {
        '\u{f0a3}'
    } else if day == 15 {
        '\u{f0a4}'
    } else if day == 16 {
        '\u{f0a5}'
    } else if day == 17 {
        '\u{f0a6}'
    } else if day == 18 {
        '\u{f0a7}'
    } else if day == 19 {
        '\u{f0a8}'
    } else if day == 20 {
        '\u{f0a9}'
    } else if day == 21 {
        '\u{f0aa}'
    } else if day == 22 {
        '\u{f0ab}'
    } else if day == 23 {
        '\u{f0ac}'
    } else if day == 24 {
        '\u{f0ad}'
    } else if day == 25 {
        '\u{f0ae}'
    } else if day == 26 {
        '\u{f0af}'
    } else {
        '\u{f0b0}'
    }
}

/// The moon-phase glyph for a day of the lunation.  Days past the
/// lunation's end are not meaningful, so they are ruled out here; a
/// caller with an unchecked day number uses `moon_phase_checked`.
pub fn moon_phase(day: u8) -> (c: char)
    requires
        day <= 28,
    ensures
        c == moon_glyph(day as int),
{
    if day == 0 || day == 28 {
        '\u{f095}'
    } else if day == 1 {
        '\u{f096}'
    } else if day == 2 {
        '\u{f097}'
    } else if day == 3 {
        '\u{f098}'
    } else if day == 4 {
        '\u{f099}'
    } else if day == 5 {
        '\u{f09a}'
    } else if day == 6 {
        '\u{f09b}'
    } else if day == 7 {
        '\u{f09c}'
    } else if day == 8 {
        '\u{f09d}'
    } else if day == 9 {
        '\u{f09e}'
    } else if day == 10 {
        '\u{f09f}'
    } else if day == 11 {
        '\u{f0a0}'
    } else if day == 12 {
        '\u{f0a1}'
    } else if day == 13 {
        '\u{f0a2}'
    } else if day == 14 {
        '\u{f0a3}'
    } else if day == 15 {
        '\u{f0a4}'
    } else if day == 16 {
        '\u{f0a5}'
    } else if day == 17 {
        '\u{f0a6}'
    } else if day == 18 {
        '\u{f0a7}'
    } else if day == 19 {
        '\u{f0a8}'
    } else if day == 20 {
        '\u{f0a9}'
    } else if day == 21 {
        '\u{f0aa}'
    } else if day == 22 {
        '\u{f0ab}'
    } else if day == 23 {
        '\u{f0ac}'
    } else if day == 24 {
        '\u{f0ad}'
    } else if day == 25 {
        '\u{f0ae}'
    } else if day == 26 {
        '\u{f0af}'
    } else {
        '\u{f0b0}'
    }
}

/// The moon-phase glyph for any day number: `None` past the lunation's
/// end.
pub fn moon_phase_checked(day: u8) -> (r: Option<char>)
    ensures
        match r {
            Some(c) => day <= 28 && c == moon_glyph(day as int),
            None => day > 28,
        },
{
    if day <= 28 {
        Some(moon_phase(day))
    } else {
        None
    }
}

} // verus!
