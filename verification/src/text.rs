//! Text as a sequence of characters: comparing, trimming, splitting at
//! spaces, upper-casing and reading decimal numbers.
//!
//! Each operation is a spec function over `Seq<char>` and an executable
//! function over `&[char]` that computes it.

use vstd::prelude::*;
use vstd::slice::slice_subrange;

verus! {

/// The characters of `s`, in order.
pub fn chars_of(s: &str) -> (chars: Vec<char>)
    ensures
        chars@ == s@,
{
    let mut chars: Vec<char> = Vec::new();
    for c in it: s.chars()
        invariant
            it.seq() == s@,
            chars@ == s@.take(it.index() as int),
    {
        chars.push(c);
    }
    chars
}

/// Whether `chars` spells exactly `word`.
pub fn spells(chars: &[char], word: &str) -> (same: bool)
    ensures
        same == (chars@ == word@),
{
    let mut i: usize = 0;
    for c in it: word.chars()
        invariant
            it.seq() == word@,
            i == it.index(),
            i <= chars@.len(),
            chars@.take(i as int) == word@.take(i as int),
    {
        if i >= chars.len() || chars[i] != c {
            return false;
        }
        i += 1;
    }
    assert(word@.take(i as int) == word@);
    assert(i == chars@.len() ==> chars@.take(i as int) == chars@);
    i == chars.len()
}

/// White space, as Unicode defines it (the property `White_Space`).
pub open spec fn is_whitespace(c: char) -> bool {
    ||| '\u{9}' <= c <= '\u{d}'
    ||| c == ' '
    ||| c == '\u{85}'
    ||| c == '\u{a0}'
    ||| c == '\u{1680}'
    ||| '\u{2000}' <= c <= '\u{200a}'
    ||| c == '\u{2028}'
    ||| c == '\u{2029}'
    ||| c == '\u{202f}'
    ||| c == '\u{205f}'
    ||| c == '\u{3000}'
}

/// `s` without the white space it begins with.
pub open spec fn trim_front(s: Seq<char>) -> Seq<char>
    decreases s.len(),
{
    if s.len() > 0 && is_whitespace(s.first()) {
        trim_front(s.drop_first())
    } else {
        s
    }
}

/// `s` without the white space it ends with.
pub open spec fn trim_back(s: Seq<char>) -> Seq<char>
    decreases s.len(),
{
    if s.len() > 0 && is_whitespace(s.last()) {
        trim_back(s.drop_last())
    } else {
        s
    }
}

/// `s` without the white space at either end.
pub open spec fn trimmed(s: Seq<char>) -> Seq<char> {
    trim_back(trim_front(s))
}

/// What `trim_front` leaves is the end of `s`, and begins with a character
/// that is no white space unless it is empty.
pub proof fn lemma_trim_front(s: Seq<char>)
    ensures
        trim_front(s).len() <= s.len(),
        trim_front(s) == s.skip(s.len() - trim_front(s).len()),
        trim_front(s).len() > 0 ==> !is_whitespace(trim_front(s).first()),
    decreases s.len(),
{
    if s.len() > 0 && is_whitespace(s.first()) {
        lemma_trim_front(s.drop_first());
    }
}

/// What `trim_back` leaves is the beginning of `s`, and ends with a
/// character that is no white space unless it is empty.
pub proof fn lemma_trim_back(s: Seq<char>)
    ensures
        trim_back(s).len() <= s.len(),
        trim_back(s) == s.take(trim_back(s).len() as int),
        trim_back(s).len() > 0 ==> !is_whitespace(trim_back(s).last()),
    decreases s.len(),
{
    if s.len() > 0 && is_whitespace(s.last()) {
        lemma_trim_back(s.drop_last());
    }
}

/// Trimming what is trimmed already changes nothing.
pub proof fn lemma_trimmed_twice(s: Seq<char>)
    ensures
        trimmed(trimmed(s)) == trimmed(s),
{
    lemma_trim_front(s);
    lemma_trim_back(trim_front(s));
}

/// A text that neither begins nor ends with white space is trimmed.
pub proof fn lemma_trimmed_already(s: Seq<char>)
    requires
        s.len() > 0 ==> !is_whitespace(s.first()) && !is_whitespace(s.last()),
    ensures
        trimmed(s) == s,
{
}

/// Whether `c` is white space.
pub fn whitespace(c: char) -> (yes: bool)
    ensures
        yes == is_whitespace(c),
{
    ('\u{9}' <= c && c <= '\u{d}') || c == ' ' || c == '\u{85}' || c == '\u{a0}' || c
        == '\u{1680}' || ('\u{2000}' <= c && c <= '\u{200a}') || c == '\u{2028}' || c
        == '\u{2029}' || c == '\u{202f}' || c == '\u{205f}' || c == '\u{3000}'
}

/// The part of `chars` that is left when the white space at both ends is
/// taken away.
pub fn trim(chars: &[char]) -> (inner: &[char])
    ensures
        inner@ == trimmed(chars@),
{
    let n = chars.len();
    let mut start: usize = 0;
    assert(chars@.skip(0) =~= chars@);
    while start < n && whitespace(chars[start])
        invariant
            start <= n == chars@.len(),
            trim_front(chars@) == trim_front(chars@.skip(start as int)),
        decreases n - start,
    {
        assert(chars@.skip(start as int).drop_first() =~= chars@.skip(start + 1));
        start += 1;
    }
    let mut end: usize = n;
    while end > start && whitespace(chars[end - 1])
        invariant
            start <= end <= n == chars@.len(),
            trim_front(chars@) == chars@.skip(start as int),
            trimmed(chars@) == trim_back(chars@.subrange(start as int, end as int)),
        decreases end - start,
    {
        assert(chars@.subrange(start as int, end as int).drop_last() =~= chars@.subrange(
            start as int,
            end - 1,
        ));
        end -= 1;
    }
    slice_subrange(chars, start, end)
}

/// How many characters of `s` stand before its first space (all of them
/// where `s` has no space).
pub open spec fn word_len(s: Seq<char>) -> nat
    decreases s.len(),
{
    if s.len() == 0 || s.first() == ' ' {
        0
    } else {
        1 + word_len(s.drop_first())
    }
}

/// The piece of `s` before its first space.
pub open spec fn first_word(s: Seq<char>) -> Seq<char> {
    s.take(word_len(s) as int)
}

/// What follows the first space of `s`, if `s` has a space.
pub open spec fn after_first_word(s: Seq<char>) -> Option<Seq<char>> {
    if word_len(s) < s.len() {
        Some(s.skip(word_len(s) as int + 1))
    } else {
        None
    }
}

/// `word_len(s)` is the position of the first space of `s`, or the length
/// of `s` where it has none.
pub proof fn lemma_word_len(s: Seq<char>, n: int)
    requires
        0 <= n <= s.len(),
        forall|i: int| 0 <= i < n ==> s[i] != ' ',
        n < s.len() ==> s[n] == ' ',
    ensures
        word_len(s) == n,
    decreases n,
{
    if n > 0 {
        lemma_word_len(s.drop_first(), n - 1);
    }
}

/// Splits `chars` at its first space: the piece before it, and what follows
/// it where there is a space.
pub fn split_word(chars: &[char]) -> (pieces: (&[char], Option<&[char]>))
    ensures
        pieces.0@ == first_word(chars@),
        match pieces.1 {
            Some(rest) => after_first_word(chars@) == Some(rest@),
            None => after_first_word(chars@) is None,
        },
{
    let n = chars.len();
    let mut i: usize = 0;
    while i < n && chars[i] != ' '
        invariant
            i <= n == chars@.len(),
            forall|k: int| 0 <= k < i ==> chars@[k] != ' ',
        decreases n - i,
    {
        i += 1;
    }
    proof {
        lemma_word_len(chars@, i as int);
    }
    let word = slice_subrange(chars, 0, i);
    if i < n {
        (word, Some(slice_subrange(chars, i + 1, n)))
    } else {
        (word, None)
    }
}

/// The capital letter of a small ASCII letter; any other character as it is.
pub open spec fn upper(c: char) -> char {
    if 'a' <= c <= 'z' {
        ((c as u8) - 32) as char
    } else {
        c
    }
}

/// `s` with each small ASCII letter replaced by its capital.
pub open spec fn uppercase(s: Seq<char>) -> Seq<char> {
    Seq::new(s.len(), |i: int| upper(s[i]))
}

/// The capital letter of `c` where `c` is a small ASCII letter, else `c`.
pub fn to_upper(c: char) -> (up: char)
    ensures
        up == upper(c),
{
    if 'a' <= c && c <= 'z' {
        ((c as u8) - 32) as char
    } else {
        c
    }
}

/// `chars` in capital letters.
pub fn to_uppercase(chars: &[char]) -> (up: Vec<char>)
    ensures
        up@ == uppercase(chars@),
{
    let mut up: Vec<char> = Vec::new();
    let mut i: usize = 0;
    while i < chars.len()
        invariant
            i <= chars@.len(),
            up@ == uppercase(chars@.take(i as int)),
        decreases chars@.len() - i,
    {
        up.push(to_upper(chars[i]));
        i += 1;
    }
    up
}

/// Whether `c` is one of the digits `0` to `9`.
pub open spec fn is_digit(c: char) -> bool {
    '0' <= c <= '9'
}

/// The number that the digit `c` stands for.
pub open spec fn digit_value(c: char) -> int {
    c as int - '0' as int
}

/// Whether `s` holds digits only.
pub open spec fn all_digits(s: Seq<char>) -> bool {
    forall|i: int| 0 <= i < s.len() ==> is_digit(#[trigger] s[i])
}

/// The number that the digits of `s` write in base ten; 0 for no digits.
pub open spec fn decimal(s: Seq<char>) -> int
    decreases s.len(),
{
    if s.len() == 0 {
        0
    } else {
        10 * decimal(s.drop_last()) + digit_value(s.last())
    }
}

/// The 32-bit integer that the digits of `s` write, taken below zero where
/// `negative` is set. `None` where `s` is empty or holds anything but
/// digits, or the number does not fit in 32 bits.
pub open spec fn digits_i32(s: Seq<char>, negative: bool) -> Option<i32> {
    let value = if negative {
        -decimal(s)
    } else {
        decimal(s)
    };
    if s.len() > 0 && all_digits(s) && i32::MIN <= value <= i32::MAX {
        Some(value as i32)
    } else {
        None
    }
}

/// The 32-bit integer that `s` writes: an optional sign, `+` or `-`, then
/// one digit or more, and nothing else. `None` where `s` is not of that form
/// or the number does not fit in 32 bits.
pub open spec fn parse_i32(s: Seq<char>) -> Option<i32> {
    if s.len() > 0 && s.first() == '-' {
        digits_i32(s.drop_first(), true)
    } else if s.len() > 0 && s.first() == '+' {
        digits_i32(s.drop_first(), false)
    } else {
        digits_i32(s, false)
    }
}

/// More digits never write a smaller number.
pub proof fn lemma_decimal_grows(s: Seq<char>, k: int)
    requires
        0 <= k <= s.len(),
        all_digits(s),
    ensures
        0 <= decimal(s.take(k)) <= decimal(s),
    decreases s.len(),
{
    if k == s.len() {
        assert(s.take(k) =~= s);
        if k > 0 {
            lemma_decimal_grows(s.drop_last(), k - 1);
        }
    } else {
        lemma_decimal_grows(s.drop_last(), k);
        assert(s.drop_last().take(k) =~= s.take(k));
    }
}

/// A text that reads as a number holds neither a space nor other white
/// space, and begins with a sign or a digit.
pub proof fn lemma_number_has_no_space(s: Seq<char>)
    requires
        parse_i32(s) is Some,
    ensures
        s.len() > 0,
        s.first() == '-' || s.first() == '+' || is_digit(s.first()),
        forall|i: int| 0 <= i < s.len() ==> !is_whitespace(#[trigger] s[i]),
{
    let signed = s.first() == '-' || s.first() == '+';
    assert forall|i: int| 0 <= i < s.len() implies !is_whitespace(#[trigger] s[i]) by {
        if signed && i > 0 {
            assert(is_digit(s.drop_first()[i - 1]));
        }
    }
}

/// Reads the digits `chars` as a 32-bit integer in base ten, below zero
/// where `negative` is set.
pub fn parse_digits(chars: &[char], negative: bool) -> (number: Option<i32>)
    ensures
        number == digits_i32(chars@, negative),
{
    let n = chars.len();
    if n == 0 {
        return None;
    }
    let mut value: i64 = 0;
    let mut i: usize = 0;
    while i < n
        invariant
            i <= n == chars@.len(),
            all_digits(chars@.take(i as int)),
            value == decimal(chars@.take(i as int)),
            0 <= value <= 0x8000_0000,
        decreases n - i,
    {
        let c = chars[i];
        if !('0' <= c && c <= '9') {
            return None;
        }
        let ghost shorter = chars@.take(i as int);
        let ghost longer = chars@.take(i + 1);
        assert(longer.drop_last() =~= shorter);
        assert forall|k: int| 0 <= k < longer.len() implies is_digit(#[trigger] longer[k]) by {
            assert(k < shorter.len() ==> longer[k] == shorter[k]);
        }
        value = value * 10 + ((c as u8 - 48) as i64);
        if value > 0x8000_0000 {
            proof {
                if all_digits(chars@) {
                    lemma_decimal_grows(chars@, i + 1);
                }
            }
            return None;
        }
        i += 1;
    }
    assert(chars@.take(i as int) =~= chars@);
    if negative {
        Some((-value) as i32)
    } else if value > 0x7fff_ffff {
        None
    } else {
        Some(value as i32)
    }
}

/// Reads `chars` as a 32-bit integer in base ten, with or without a sign.
pub fn parse_int(chars: &[char]) -> (number: Option<i32>)
    ensures
        number == parse_i32(chars@),
{
    let n = chars.len();
    if n > 0 && (chars[0] == '-' || chars[0] == '+') {
        let digits = slice_subrange(chars, 1, n);
        parse_digits(digits, chars[0] == '-')
    } else {
        parse_digits(chars, false)
    }
}

} // verus!
