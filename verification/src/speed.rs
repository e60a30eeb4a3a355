//! The value of a `maxspeed` tag, read as kilometres per hour.
//!
//! A value is a magnitude, optionally followed by a space and a unit:
//! `60`, `50 mph`, `10 knots`, `none`, `walk`, or a zone code such as
//! `FR:urban`. [`kmph`] says what each value means; [`to_kmph`] computes it.

use crate::text::{
    after_first_word, first_word, is_whitespace, lemma_number_has_no_space, lemma_trimmed_already,
    lemma_trimmed_twice, lemma_word_len, parse_i32, parse_int, spells, split_word, to_uppercase,
    trim, trimmed, uppercase,
};
use vstd::prelude::*;

verus! {

/// The speed of a way whose speed no tag gives.
pub const UNSET: i32 = -1;

/// The speed that stands for "no legal limit".
pub const NO_LIMIT: i32 = -99;

/// Walking pace, in km/h.
pub const WALKING_PACE: i32 = 5;

/// The speed limit of a zone, in km/h, by its code: a country, a colon and
/// the kind of zone, in small or capital letters. `None` for a code that the
/// table does not hold.
pub open spec fn known_zone(code: Seq<char>) -> Option<i32> {
    let name = uppercase(code);
    if name == "FR:RURAL"@ {
        Some(80i32)
    } else if name == "FR:URBAN"@ {
        Some(50i32)
    } else if name == "FR:ZONE30"@ {
        Some(30i32)
    } else if name == "FR:WALK"@ {
        Some(5i32)
    } else {
        None
    }
}

/// The speed limit of the zone `code`, or [`UNSET`] where the code is not
/// known.
pub open spec fn zone_speed(code: Seq<char>) -> i32 {
    match known_zone(code) {
        Some(limit) => limit,
        None => UNSET,
    }
}

/// The number that the first word of a speed stands for: the two words
/// `none` and `walk`, a whole number, or else a zone code.
pub open spec fn magnitude(word: Seq<char>) -> i32 {
    if word == "none"@ {
        NO_LIMIT
    } else if word == "walk"@ {
        WALKING_PACE
    } else {
        match parse_i32(word) {
            Some(number) => number,
            None => zone_speed(word),
        }
    }
}

/// `x / d` rounded toward zero, for a positive `d`.
pub open spec fn toward_zero(x: int, d: int) -> int {
    if x >= 0 {
        x / d
    } else {
        -((-x) / d)
    }
}

/// The 32-bit integer nearest to `x`.
pub open spec fn nearest_i32(x: int) -> i32 {
    if x > i32::MAX {
        i32::MAX
    } else if x < i32::MIN {
        i32::MIN
    } else {
        x as i32
    }
}

/// `m * num / den`, rounded toward zero and kept within 32 bits.
pub open spec fn scaled(m: i32, num: int, den: int) -> i32 {
    nearest_i32(toward_zero(m * num, den))
}

/// The speed `m`, given in `unit`, in km/h: a knot is 1.852 km/h and a mile
/// per hour 1.60934 km/h; under any other unit `m` is in km/h already.
pub open spec fn in_kmph(m: i32, unit: Seq<char>) -> i32 {
    if unit == "knots"@ {
        scaled(m, 1852, 1000)
    } else if unit == "mph"@ {
        scaled(m, 160934, 100000)
    } else {
        m
    }
}

/// The speed that `text` gives, in km/h. White space around `text` does not
/// count. Its first word is the magnitude, its second word, if there is one,
/// the unit; what follows a second space is not read.
pub open spec fn kmph(text: Seq<char>) -> i32 {
    let inner = trimmed(text);
    let m = magnitude(first_word(inner));
    match after_first_word(inner) {
        Some(rest) => in_kmph(m, first_word(rest)),
        None => m,
    }
}

/// The zone code that `text` gives for its magnitude and that the table
/// does not hold: the first word of `text`, where that word is neither
/// `none` nor `walk`, nor a whole number, nor a known zone. Such a speed is
/// read as [`UNSET`], and its code is worth reporting.
pub open spec fn unknown_code(text: Seq<char>) -> Option<Seq<char>> {
    let word = first_word(trimmed(text));
    if word != "none"@ && word != "walk"@ && parse_i32(word) is None && known_zone(word) is None {
        Some(word)
    } else {
        None
    }
}

/// Looks the zone `code` up in the table of speed limits.
pub fn zone_limit(code: &[char]) -> (limit: Option<i32>)
    ensures
        limit == known_zone(code@),
{
    let name = to_uppercase(code);
    if spells(name.as_slice(), "FR:RURAL") {
        Some(80)
    } else if spells(name.as_slice(), "FR:URBAN") {
        Some(50)
    } else if spells(name.as_slice(), "FR:ZONE30") {
        Some(30)
    } else if spells(name.as_slice(), "FR:WALK") {
        Some(5)
    } else {
        None
    }
}

/// The number that `word`, the first word of a speed, stands for.
pub fn magnitude_of(word: &[char]) -> (m: i32)
    ensures
        m == magnitude(word@),
{
    if spells(word, "none") {
        NO_LIMIT
    } else if spells(word, "walk") {
        WALKING_PACE
    } else {
        match parse_int(word) {
            Some(number) => number,
            None => match zone_limit(word) {
                Some(limit) => limit,
                None => UNSET,
            },
        }
    }
}

/// Multiplies `m` by `num / den`, rounding toward zero and stopping at the
/// ends of 32 bits.
pub fn scale(m: i32, num: u32, den: u32) -> (r: i32)
    requires
        den > 0,
    ensures
        r == scaled(m, num as int, den as int),
{
    assert(-0x8000_0000 * 0xffff_ffff <= m * num <= 0x8000_0000 * 0xffff_ffff) by (nonlinear_arith)
        requires
            -0x8000_0000 <= m <= 0x8000_0000,
            0 <= num <= 0xffff_ffff,
    ;
    let wide: i64 = (m as i64) * (num as i64);
    let parts: i64 = if wide >= 0 {
        wide / (den as i64)
    } else {
        -((-wide) / (den as i64))
    };
    if parts > 0x7fff_ffff {
        i32::MAX
    } else if parts < -0x8000_0000 {
        i32::MIN
    } else {
        parts as i32
    }
}

/// The speed `m`, given in `unit`, in km/h.
pub fn convert(m: i32, unit: &[char]) -> (r: i32)
    ensures
        r == in_kmph(m, unit@),
{
    if spells(unit, "knots") {
        scale(m, 1852, 1000)
    } else if spells(unit, "mph") {
        scale(m, 160934, 100000)
    } else {
        m
    }
}

/// The speed that `text` gives, in km/h.
pub fn to_kmph(text: &[char]) -> (r: i32)
    ensures
        r == kmph(text@),
{
    let (word, rest) = split_word(trim(text));
    let m = magnitude_of(word);
    match rest {
        Some(rest) => {
            let (unit, _) = split_word(rest);
            convert(m, unit)
        },
        None => m,
    }
}

/// The zone code that `text` gives for its magnitude, where the table does
/// not hold it.
pub fn find_unknown_code(text: &[char]) -> (code: Option<&[char]>)
    ensures
        match code {
            Some(word) => unknown_code(text@) == Some(word@),
            None => unknown_code(text@) is None,
        },
{
    let (word, _) = split_word(trim(text));
    if spells(word, "none") || spells(word, "walk") {
        None
    } else if parse_int(word).is_some() {
        None
    } else if zone_limit(word).is_some() {
        None
    } else {
        Some(word)
    }
}

/// The table of zones does not tell small letters from capitals.
pub proof fn lemma_zone_ignores_case(a: Seq<char>, b: Seq<char>)
    requires
        uppercase(a) == uppercase(b),
    ensures
        known_zone(a) == known_zone(b),
        zone_speed(a) == zone_speed(b),
{
}

/// A speed with a zone code that the table does not hold is read as
/// [`UNSET`], whatever its unit.
pub proof fn lemma_unknown_code_is_unset(text: Seq<char>)
    requires
        unknown_code(text) is Some,
    ensures
        magnitude(first_word(trimmed(text))) == UNSET,
        kmph(text) == UNSET,
{
}

/// White space around a speed does not count.
pub proof fn lemma_kmph_ignores_outer_space(text: Seq<char>)
    ensures
        kmph(trimmed(text)) == kmph(text),
{
    lemma_trimmed_twice(text);
}

/// A whole number alone is a speed in km/h.
pub proof fn lemma_plain_number(text: Seq<char>)
    requires
        parse_i32(text) is Some,
    ensures
        kmph(text) == parse_i32(text)->0,
{
    lemma_number_has_no_space(text);
    lemma_trimmed_already(text);
    lemma_word_len(text, text.len() as int);
    assert(first_word(text) =~= text);
    reveal_strlit("none");
    reveal_strlit("walk");
}

/// A whole number, a space and a unit are a speed in that unit: in knots,
/// in miles per hour, or else in km/h.
pub proof fn lemma_number_with_unit(number: Seq<char>, unit: Seq<char>)
    requires
        parse_i32(number) is Some,
        unit.len() > 0,
        !is_whitespace(unit.last()),
        forall|i: int| 0 <= i < unit.len() ==> unit[i] != ' ',
    ensures
        kmph(number + seq![' '] + unit) == in_kmph(parse_i32(number)->0, unit),
{
    let text = number + seq![' '] + unit;
    let n = number.len() as int;
    lemma_number_has_no_space(number);
    lemma_trimmed_already(text);
    assert(forall|i: int| 0 <= i < n ==> text[i] == number[i]);
    lemma_word_len(text, n);
    assert(first_word(text) =~= number);
    assert(text.skip(n + 1) =~= unit);
    lemma_word_len(unit, unit.len() as int);
    assert(first_word(unit) =~= unit);
    reveal_strlit("none");
    reveal_strlit("walk");
}

} // verus!
