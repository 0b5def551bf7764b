//! Selection of a Unicode clock-face glyph from an (hour, minute) pair.
//!
//! The minute is bucketed to the nearest half hour with a three-way split:
//! minutes 0..=14 round down to :00, minutes 15..=44 round to :30, and
//! minutes 45..=59 round up to :00 of the next hour. The hour is reduced
//! mod 12, with 0 standing for the 12 o'clock face.

use vstd::prelude::*;
use vstd::arithmetic::div_mod::lemma_add_mod_noop;

verus! {

/// The minute bucket used for glyph lookup: 0 for a :00 face, 30 for a :30
/// face. Minutes of 45 and above round up to the next hour's :00 face.
pub open spec fn minute_bucket(minute: u32) -> int {
    if minute < 15 {
        0
    } else if minute < 45 {
        30
    } else {
        0
    }
}

/// The hour (mod 12) whose face is shown: advanced by one when the minute
/// rounds up to the next hour.
pub open spec fn display_hour(hour: u32, minute: u32) -> int {
    if minute >= 45 {
        (hour % 12 + 1) % 12
    } else {
        (hour % 12) as int
    }
}

/// Maps the residue of an hour mod 12 to the dial number, where 0 stands
/// for the 12 o'clock face.
pub open spec fn to_twelve(h: int) -> int {
    if h == 0 {
        12
    } else {
        h
    }
}

/// The fixed table of the 24 clock faces: one glyph for each dial hour in
/// 1..=12, at :00 (`half` false) or :30 (`half` true).
pub open spec fn face_glyph(h12: int, half: bool) -> Seq<char> {
    if half {
        if h12 == 1 {
            "\u{1F55C}"@
        } else if h12 == 2 {
            "\u{1F55D}"@
        } else if h12 == 3 {
            "\u{1F55E}"@
        } else if h12 == 4 {
            "\u{1F55F}"@
        } else if h12 == 5 {
            "\u{1F560}"@
        } else if h12 == 6 {
            "\u{1F561}"@
        } else if h12 == 7 {
            "\u{1F562}"@
        } else if h12 == 8 {
            "\u{1F563}"@
        } else if h12 == 9 {
            "\u{1F564}"@
        } else if h12 == 10 {
            "\u{1F565}"@
        } else if h12 == 11 {
            "\u{1F566}"@
        } else {
            "\u{1F567}"@
        }
    } else {
        if h12 == 1 {
            "\u{1F550}"@
        } else if h12 == 2 {
            "\u{1F551}"@
        } else if h12 == 3 {
            "\u{1F552}"@
        } else if h12 == 4 {
            "\u{1F553}"@
        } else if h12 == 5 {
            "\u{1F554}"@
        } else if h12 == 6 {
            "\u{1F555}"@
        } else if h12 == 7 {
            "\u{1F556}"@
        } else if h12 == 8 {
            "\u{1F557}"@
        } else if h12 == 9 {
            "\u{1F558}"@
        } else if h12 == 10 {
            "\u{1F559}"@
        } else if h12 == 11 {
            "\u{1F55A}"@
        } else {
            "\u{1F55B}"@
        }
    }
}

/// The glyph shown for a wall-clock (hour, minute) pair.
pub open spec fn glyph_spec(hour: u32, minute: u32) -> Seq<char> {
    face_glyph(to_twelve(display_hour(hour, minute)), minute_bucket(minute) == 30)
}

/// True of the 24 defined clock-face glyphs and of nothing else.
pub open spec fn is_clock_glyph(s: Seq<char>) -> bool {
    exists|h12: int, half: bool| 1 <= h12 <= 12 && s == face_glyph(h12, half)
}

/// Selects the clock-face glyph that approximates the given wall-clock time
/// to the nearest half hour. Total over all inputs; every result is one of
/// the 24 defined glyphs.
pub fn get_accurate_clock_icon(hour: u32, minute: u32) -> (r: &'static str)
    ensures
        r@ == glyph_spec(hour, minute),
        is_clock_glyph(r@),
{
    let rounded_minute: u32 = if minute < 15 {
        0
    } else if minute < 45 {
        30
    } else {
        0
    };

    let display_hour: u32 = if minute >= 45 {
        (hour % 12 + 1) % 12
    } else {
        hour % 12
    };

    let r = match (display_hour, rounded_minute) {
        (12, 0) | (0, 0) => "\u{1F55B}",
        (12, 30) | (0, 30) => "\u{1F567}",
        (1, 0) => "\u{1F550}",
        (1, 30) => "\u{1F55C}",
        (2, 0) => "\u{1F551}",
        (2, 30) => "\u{1F55D}",
        (3, 0) => "\u{1F552}",
        (3, 30) => "\u{1F55E}",
        (4, 0) => "\u{1F553}",
        (4, 30) => "\u{1F55F}",
        (5, 0) => "\u{1F554}",
        (5, 30) => "\u{1F560}",
        (6, 0) => "\u{1F555}",
        (6, 30) => "\u{1F561}",
        (7, 0) => "\u{1F556}",
        (7, 30) => "\u{1F562}",
        (8, 0) => "\u{1F557}",
        (8, 30) => "\u{1F563}",
        (9, 0) => "\u{1F558}",
        (9, 30) => "\u{1F564}",
        (10, 0) => "\u{1F559}",
        (10, 30) => "\u{1F565}",
        (11, 0) => "\u{1F55A}",
        (11, 30) => "\u{1F566}",
        _ => "\u{1F55B}",
    };
    proof {
        let dh = to_twelve(crate::glyph::display_hour(hour, minute));
        let half = minute_bucket(minute) == 30;
        assert(1 <= dh <= 12);
        assert(glyph_spec(hour, minute) == face_glyph(dh, half));
        assert(is_clock_glyph(glyph_spec(hour, minute)));
    }
    r
}

/// Law: for every minute in 0..=14 the selected glyph is the :00 face of
/// the current hour reduced mod 12, with 0 standing for the 12 face — the
/// exact minute has no influence beyond the bucket.
pub proof fn lemma_rounds_down_to_hour(hour: u32, minute: u32)
    requires
        minute <= 14,
    ensures
        glyph_spec(hour, minute) == face_glyph(to_twelve((hour % 12) as int), false),
{
}

/// Law: for every minute in 15..=44 the selected glyph is the :30 face of
/// the current hour reduced mod 12, with 0 standing for the 12 face.
pub proof fn lemma_rounds_to_half_hour(hour: u32, minute: u32)
    requires
        15 <= minute <= 44,
    ensures
        glyph_spec(hour, minute) == face_glyph(to_twelve((hour % 12) as int), true),
{
}

/// Law: for every minute in 45..=59 the selected glyph is the :00 face of
/// the next hour reduced mod 12, with 0 standing for the 12 face.
pub proof fn lemma_rounds_up_to_next_hour(hour: u32, minute: u32)
    requires
        45 <= minute <= 59,
    ensures
        glyph_spec(hour, minute) == face_glyph(to_twelve((hour as int + 1) % 12), false),
{
    lemma_add_mod_noop(hour as int, 1, 12);
}

} // verus!
