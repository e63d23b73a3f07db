//! Colours as 8-bit RGB triples, and the texts that terminals write them in.
//!
//! Four forms are read, all of them after white space at the two ends has
//! been cut off:
//!
//! - `rgb:H/H/H` and `rgb:H/H/H/H`: the X11 form, each `H` two or four
//!   hexadecimal digits, a fourth field ignored;
//! - `rgba:H/H/H/H` and `rgba:H/H/H`: the same with `rgba:` in front;
//! - `#RRGGBB` and `#RRGGBBAA`: two hexadecimal digits per channel, the last
//!   two ignored; the text is seven or nine bytes long;
//! - `rgb(D,D,D)`: decimal channels, white space allowed behind each comma.
//!
//! A colour is dark or light by its relative luminance, which is held in
//! fixed point: [`LUMINANCE_ONE`] units make up the luminance of white.

use crate::exact::{is_dark_exactly, lemma_class_is_exact};
use crate::srgb::{lemma_linear_grows, linear, LINEAR, LINEAR_ONE};
use crate::text::{
    all_digits, all_hex_digits, chars_of, cut, decimal_value, digits_end, encoded_len_of,
    hex_digit, hex_number, is_digit, is_hex_digit, lemma_digits_end, lemma_encoded_len,
    skip_digits, skip_spaces, spaces_end, split, split_ranges, trim, trimmed,
};
use vstd::prelude::*;
use vstd::utf8::encode_utf8;

verus! {

/// Luminance one, that of white, in the units of [`luminance`].
pub const LUMINANCE_ONE: u64 = 10_000_000_000_000;

/// The luminance below which a colour is dark: one half.
pub const DARK_THRESHOLD: u64 = 5_000_000_000_000;

/// The share of red in luminance, in parts of ten thousand.
pub const RED_WEIGHT: u64 = 2126;

/// The share of green in luminance, in parts of ten thousand.
pub const GREEN_WEIGHT: u64 = 7152;

/// The share of blue in luminance, in parts of ten thousand.
pub const BLUE_WEIGHT: u64 = 722;

/// An sRGB colour with 8 bits per channel and no alpha.
#[derive(Debug, Clone, Copy, PartialEq, Eq, Structural)]
pub struct RGB {
    /// Red channel.
    pub r: u8,
    /// Green channel.
    pub g: u8,
    /// Blue channel.
    pub b: u8,
}

/// Why a text is not a colour.
#[derive(Debug, Clone, Copy, PartialEq, Eq, Structural)]
pub enum ParseError {
    /// A hexadecimal field is neither two nor four characters long.
    InvalidHexLength,
    /// A hexadecimal field holds a character that is no hexadecimal digit.
    InvalidHexDigit,
    /// The X11 form has fewer than three or more than four fields.
    WrongFieldCount,
    /// A decimal channel is greater than 255.
    ChannelOutOfRange,
    /// The text has none of the forms.
    UnrecognizedFormat,
}

impl RGB {
    /// The colour with the given channels.
    #[must_use]
    pub fn new(r: u8, g: u8, b: u8) -> (rgb: Self)
        ensures
            rgb == (RGB { r, g, b }),
    {
        Self { r, g, b }
    }

    /// The colour whose channels are the members of `rgb`: red, green, blue.
    #[must_use]
    pub fn from_tuple(rgb: (u8, u8, u8)) -> (color: Self)
        ensures
            color == (RGB { r: rgb.0, g: rgb.1, b: rgb.2 }),
    {
        Self { r: rgb.0, g: rgb.1, b: rgb.2 }
    }

    /// The channels of the colour: red, green, blue.
    #[must_use]
    pub fn to_tuple(self) -> (rgb: (u8, u8, u8))
        ensures
            rgb == (self.r, self.g, self.b),
    {
        (self.r, self.g, self.b)
    }
}

/// `n / d` rounded to the nearest integer, a half rounded upwards.
pub open spec fn round_div(n: int, d: int) -> int
    recommends
        d > 0,
{
    (2 * n + d) / (2 * d)
}

/// A 16-bit channel brought to 8 bits: `v / 65535 * 255`, rounded.
pub open spec fn scale_16_to_8(v: int) -> int {
    round_div(255 * v, 65535)
}

/// The channel that a hexadecimal field writes. Two digits are the channel
/// itself; four are a 16-bit channel, which is scaled to 8 bits.
pub open spec fn hex_channel(field: Seq<char>) -> Result<u8, ParseError> {
    if field.len() != 2 && field.len() != 4 {
        Err(ParseError::InvalidHexLength)
    } else if !all_hex_digits(field) {
        Err(ParseError::InvalidHexDigit)
    } else if field.len() == 2 {
        Ok(hex_number(field) as u8)
    } else {
        Ok(scale_16_to_8(hex_number(field)) as u8)
    }
}

/// The channel that a run of decimal digits writes.
pub open spec fn decimal_channel(digits: Seq<char>) -> Result<u8, ParseError> {
    if decimal_value(digits) < 256 {
        Ok(decimal_value(digits) as u8)
    } else {
        Err(ParseError::ChannelOutOfRange)
    }
}

/// The colour of three channels, or the error of the first that has one.
pub open spec fn from_channels(
    r: Result<u8, ParseError>,
    g: Result<u8, ParseError>,
    b: Result<u8, ParseError>,
) -> Result<RGB, ParseError> {
    match (r, g, b) {
        (Ok(r), Ok(g), Ok(b)) => Ok(RGB { r, g, b }),
        (Err(e), _, _) => Err(e),
        (_, Err(e), _) => Err(e),
        (_, _, Err(e)) => Err(e),
    }
}

/// Whether `s` begins with `prefix`.
pub open spec fn starts_with(s: Seq<char>, prefix: Seq<char>) -> bool {
    prefix.len() <= s.len() && s.take(prefix.len() as int) == prefix
}

/// Where the fields of the X11 form begin in `t`, if `t` begins with `rgb:`
/// or `rgba:`.
pub open spec fn x11_fields_start(t: Seq<char>) -> Option<int> {
    if starts_with(t, seq!['r', 'g', 'b', ':']) {
        Some(4)
    } else if starts_with(t, seq!['r', 'g', 'b', 'a', ':']) {
        Some(5)
    } else {
        None
    }
}

/// The colour that the fields of the X11 form write: there are three or
/// four of them between slashes, and the first three are the channels.
pub open spec fn parse_x11_fields(body: Seq<char>) -> Result<RGB, ParseError> {
    let fields = split(body, '/');
    if fields.len() == 3 || fields.len() == 4 {
        from_channels(hex_channel(fields[0]), hex_channel(fields[1]), hex_channel(fields[2]))
    } else {
        Err(ParseError::WrongFieldCount)
    }
}

/// Whether `t` has the shape of the `#` form: it begins with `#`, has at
/// least seven characters, and is seven or nine bytes long in UTF-8.
///
/// The length is that of the bytes, not of the characters. A `#` with six
/// or eight ASCII characters behind it has the shape. So has a `#` with six
/// ASCII characters and one character of two bytes behind it, which stands
/// where the two that are not looked at would stand. A `#` with eight
/// characters behind it of which one is not ASCII has ten bytes or more,
/// and has not the shape.
pub open spec fn has_hash_shape(t: Seq<char>) -> bool {
    &&& t.len() >= 7
    &&& t[0] == '#'
    &&& (encode_utf8(t).len() == 7 || encode_utf8(t).len() == 9)
}

/// The colour that a text of the shape of the `#` form writes: the six
/// characters behind the `#` are the three channels, two for each.
pub open spec fn parse_hash(t: Seq<char>) -> Result<RGB, ParseError>
    recommends
        has_hash_shape(t),
{
    from_channels(
        hex_channel(t.subrange(1, 3)),
        hex_channel(t.subrange(3, 5)),
        hex_channel(t.subrange(5, 7)),
    )
}

/// Where the three runs of digits of the decimal form lie in `t`, if `t`
/// has that form: `rgb(`, digits, a comma, white space, digits, a comma,
/// white space, digits, `)`, with at least one digit in each run and the
/// white space optional.
pub open spec fn decimal_ranges(t: Seq<char>) -> Option<((int, int), (int, int), (int, int))> {
    let r0 = 4;
    let r1 = digits_end(t, r0);
    let g0 = spaces_end(t, r1 + 1);
    let g1 = digits_end(t, g0);
    let b0 = spaces_end(t, g1 + 1);
    let b1 = digits_end(t, b0);
    if starts_with(t, seq!['r', 'g', 'b', '(']) && r0 < r1 < t.len() && t[r1] == ',' && g0 < g1
        < t.len() && t[g1] == ',' && b0 < b1 && b1 + 1 == t.len() && t[b1] == ')' {
        Some(((r0, r1), (g0, g1), (b0, b1)))
    } else {
        None
    }
}

/// The colour that a text without white space at its ends writes.
pub open spec fn parse_trimmed(t: Seq<char>) -> Result<RGB, ParseError> {
    if let Some(start) = x11_fields_start(t) {
        parse_x11_fields(t.skip(start))
    } else if has_hash_shape(t) {
        parse_hash(t)
    } else if let Some((r, g, b)) = decimal_ranges(t) {
        from_channels(
            decimal_channel(t.subrange(r.0, r.1)),
            decimal_channel(t.subrange(g.0, g.1)),
            decimal_channel(t.subrange(b.0, b.1)),
        )
    } else {
        Err(ParseError::UnrecognizedFormat)
    }
}

/// The colour that `s` writes: that of `s` without the white space at its
/// ends.
pub open spec fn parse_color(s: Seq<char>) -> Result<RGB, ParseError> {
    parse_trimmed(trim(s))
}

/// The relative luminance of `rgb` in units of [`LUMINANCE_ONE`]: the
/// linear-light values of the three channels, each rounded down as
/// [`LINEAR`] holds it, weighted with 0.2126 for red, 0.7152 for green and
/// 0.0722 for blue. It is at most the exact luminance and less than
/// ten thousand units below it, as [`crate::exact`] proves.
pub open spec fn luminance_of(rgb: RGB) -> int {
    RED_WEIGHT * LINEAR[rgb.r as int] + GREEN_WEIGHT * LINEAR[rgb.g as int] + BLUE_WEIGHT
        * LINEAR[rgb.b as int]
}

/// Whether `rgb` is dark: its luminance is below one half.
pub open spec fn is_dark(rgb: RGB) -> bool {
    luminance_of(rgb) < DARK_THRESHOLD
}

/// The name of the class of `rgb`.
pub open spec fn class_name(rgb: RGB) -> Seq<char> {
    if is_dark(rgb) {
        "dark"@
    } else {
        "light"@
    }
}

/// Luminance lies between nothing and one: black has none, white has one,
/// and pure red, green and blue have their weights.
pub proof fn lemma_luminance_range(rgb: RGB)
    ensures
        0 <= luminance_of(rgb) <= LUMINANCE_ONE,
        luminance_of(RGB { r: 0, g: 0, b: 0 }) == 0,
        luminance_of(RGB { r: 255, g: 255, b: 255 }) == LUMINANCE_ONE,
        luminance_of(RGB { r: 255, g: 0, b: 0 }) == RED_WEIGHT * LINEAR_ONE,
        luminance_of(RGB { r: 0, g: 255, b: 0 }) == GREEN_WEIGHT * LINEAR_ONE,
        luminance_of(RGB { r: 0, g: 0, b: 255 }) == BLUE_WEIGHT * LINEAR_ONE,
{
    lemma_linear_grows(rgb.r as int, 255);
    lemma_linear_grows(rgb.g as int, 255);
    lemma_linear_grows(rgb.b as int, 255);
    lemma_linear_grows(0, 0);
}

/// A colour that is at least as bright in every channel has at least the
/// luminance.
pub proof fn lemma_luminance_grows(a: RGB, b: RGB)
    requires
        a.r <= b.r,
        a.g <= b.g,
        a.b <= b.b,
    ensures
        luminance_of(a) <= luminance_of(b),
{
    lemma_linear_grows(a.r as int, b.r as int);
    lemma_linear_grows(a.g as int, b.g as int);
    lemma_linear_grows(a.b as int, b.b as int);
}

/// The class follows luminance: of two colours, the one with the higher
/// luminance is never the dark one while the other is light.
pub proof fn lemma_class_follows_luminance(a: RGB, b: RGB)
    requires
        luminance_of(a) <= luminance_of(b),
    ensures
        is_dark(b) ==> is_dark(a),
        !is_dark(a) ==> !is_dark(b),
{
}

/// The two class names differ, so the name tells the class.
pub proof fn lemma_class_names_differ(rgb: RGB)
    ensures
        class_name(rgb) == "dark"@ <==> is_dark(rgb),
        class_name(rgb) == "light"@ <==> !is_dark(rgb),
{
    reveal_strlit("dark");
    reveal_strlit("light");
    assert("dark"@.len() != "light"@.len());
}

/// Two hexadecimal digits write a number below 256, four one below 65536.
pub proof fn lemma_hex_number_bound(s: Seq<char>)
    requires
        s.len() <= 4,
    ensures
        0 <= hex_number(s),
        s.len() == 0 ==> hex_number(s) == 0,
        s.len() == 1 ==> hex_number(s) < 16,
        s.len() == 2 ==> hex_number(s) < 256,
        s.len() == 3 ==> hex_number(s) < 4096,
        s.len() == 4 ==> hex_number(s) < 65536,
    decreases s.len(),
{
    if s.len() > 0 {
        lemma_hex_number_bound(s.drop_last());
    }
}

/// Decimal digits write a number that is not negative, and one digit more
/// never writes a smaller one.
pub proof fn lemma_decimal_value_grows(s: Seq<char>)
    requires
        all_digits(s),
    ensures
        0 <= decimal_value(s),
        s.len() > 0 ==> decimal_value(s.drop_last()) <= decimal_value(s),
    decreases s.len(),
{
    if s.len() > 0 {
        assert(all_digits(s.drop_last())) by {
            assert forall|i: int| 0 <= i < s.drop_last().len() implies is_digit(
                #[trigger] s.drop_last()[i],
            ) by {
                assert(s.drop_last()[i] == s[i]);
            }
        }
        assert(is_digit(s[s.len() - 1]));
        lemma_decimal_value_grows(s.drop_last());
    }
}

/// The channel that the hexadecimal field `chars[lo..hi]` writes.
fn hex_channel_at(chars: &Vec<char>, lo: usize, hi: usize) -> (channel: Result<u8, ParseError>)
    requires
        lo <= hi <= chars.len(),
    ensures
        channel == hex_channel(chars@.subrange(lo as int, hi as int)),
{
    let ghost field = chars@.subrange(lo as int, hi as int);
    let len: usize = hi - lo;
    if len != 2 && len != 4 {
        return Err(ParseError::InvalidHexLength);
    }
    let mut value: u32 = 0;
    let mut i: usize = lo;
    while i < hi
        invariant
            lo <= i <= hi <= chars.len(),
            hi - lo == 2 || hi - lo == 4,
            field == chars@.subrange(lo as int, hi as int),
            all_hex_digits(field.take(i - lo)),
            value == hex_number(field.take(i - lo)),
        decreases hi - i,
    {
        let ghost read = field.take(i - lo);
        let ghost next = field.take(i - lo + 1);
        proof {
            assert(next.drop_last() == read);
            assert(next.last() == chars[i as int]);
            lemma_hex_number_bound(read);
        }
        match hex_digit(chars[i]) {
            Some(d) => {
                value = value * 16 + d as u32;
                proof {
                    assert forall|k: int| 0 <= k < next.len() implies is_hex_digit(
                        #[trigger] next[k],
                    ) by {
                        if k < read.len() {
                            assert(next[k] == read[k]);
                        }
                    }
                }
            },
            None => {
                proof {
                    assert(field[i - lo] == chars[i as int]);
                    assert(!is_hex_digit(field[i - lo]));
                }
                return Err(ParseError::InvalidHexDigit);
            },
        }
        i += 1;
    }
    proof {
        assert(field.take(hi - lo) == field);
        lemma_hex_number_bound(field);
    }
    if len == 2 {
        Ok(value as u8)
    } else {
        Ok(((510 * value + 65535) / 131070) as u8)
    }
}

/// The channel that the decimal digits `chars[lo..hi]` write.
fn decimal_channel_at(chars: &Vec<char>, lo: usize, hi: usize) -> (channel: Result<
    u8,
    ParseError,
>)
    requires
        lo <= hi <= chars.len(),
        all_digits(chars@.subrange(lo as int, hi as int)),
    ensures
        channel == decimal_channel(chars@.subrange(lo as int, hi as int)),
{
    let ghost digits = chars@.subrange(lo as int, hi as int);
    let mut value: u32 = 0;
    let mut i: usize = lo;
    while i < hi
        invariant
            lo <= i <= hi <= chars.len(),
            digits == chars@.subrange(lo as int, hi as int),
            all_digits(digits),
            value <= 256,
            value < 256 ==> value == decimal_value(digits.take(i - lo)),
            value == 256 ==> decimal_value(digits.take(i - lo)) >= 256,
        decreases hi - i,
    {
        let ghost read = digits.take(i - lo);
        let ghost next = digits.take(i - lo + 1);
        proof {
            assert(next.drop_last() == read);
            assert(next.last() == chars[i as int]);
            assert(digits[i - lo] == chars[i as int]);
            assert(all_digits(next)) by {
                assert forall|k: int| 0 <= k < next.len() implies is_digit(#[trigger] next[k]) by {
                    assert(next[k] == digits[k]);
                }
            }
            lemma_decimal_value_grows(next);
        }
        let digit: u32 = chars[i] as u32 - 0x30;
        value = value * 10 + digit;
        if value > 256 {
            value = 256;
        }
        i += 1;
    }
    proof {
        assert(digits.take(hi - lo) == digits);
    }
    if value < 256 {
        Ok(value as u8)
    } else {
        Err(ParseError::ChannelOutOfRange)
    }
}

/// The colour of three channels, or the error of the first that has one.
fn combine(r: Result<u8, ParseError>, g: Result<u8, ParseError>, b: Result<u8, ParseError>) -> (color:
    Result<RGB, ParseError>)
    ensures
        color == from_channels(r, g, b),
{
    match r {
        Err(e) => Err(e),
        Ok(r) => match g {
            Err(e) => Err(e),
            Ok(g) => match b {
                Err(e) => Err(e),
                Ok(b) => Ok(RGB { r, g, b }),
            },
        },
    }
}

/// Whether `t` begins with `prefix`.
fn begins_with(t: &Vec<char>, prefix: &Vec<char>) -> (b: bool)
    ensures
        b == starts_with(t@, prefix@),
{
    if t.len() < prefix.len() {
        return false;
    }
    let mut i: usize = 0;
    while i < prefix.len()
        invariant
            i <= prefix.len() <= t.len(),
            forall|k: int| 0 <= k < i ==> t[k] == prefix[k],
        decreases prefix.len() - i,
    {
        if t[i] != prefix[i] {
            proof {
                assert(t@.take(prefix.len() as int)[i as int] == t[i as int]);
            }
            return false;
        }
        i += 1;
    }
    proof {
        assert(t@.take(prefix.len() as int) =~= prefix@);
    }
    true
}

/// The colour that the X11 fields `t[start..]` write.
fn parse_x11_at(t: &Vec<char>, start: usize) -> (color: Result<RGB, ParseError>)
    requires
        start <= t.len(),
    ensures
        color == parse_x11_fields(t@.skip(start as int)),
{
    let ranges = split_ranges(t, start, t.len(), '/');
    proof {
        assert(t@.skip(start as int) == t@.subrange(start as int, t.len() as int));
    }
    if ranges.len() == 3 || ranges.len() == 4 {
        let ghost fields = cut(t@, ranges@);
        proof {
            assert(fields[0] == t@.subrange(ranges[0].0 as int, ranges[0].1 as int));
            assert(fields[1] == t@.subrange(ranges[1].0 as int, ranges[1].1 as int));
            assert(fields[2] == t@.subrange(ranges[2].0 as int, ranges[2].1 as int));
        }
        let r = hex_channel_at(t, ranges[0].0, ranges[0].1);
        let g = hex_channel_at(t, ranges[1].0, ranges[1].1);
        let b = hex_channel_at(t, ranges[2].0, ranges[2].1);
        combine(r, g, b)
    } else {
        Err(ParseError::WrongFieldCount)
    }
}

/// Where the three runs of digits lie in `t`, if `t` has the decimal form.
fn decimal_ranges_of(t: &Vec<char>) -> (ranges: Option<
    ((usize, usize), (usize, usize), (usize, usize)),
>)
    ensures
        match ranges {
            Some((r, g, b)) => decimal_ranges(t@) == Some(
                ((r.0 as int, r.1 as int), (g.0 as int, g.1 as int), (b.0 as int, b.1 as int)),
            ) && r.0 <= r.1 <= t.len() && g.0 <= g.1 <= t.len() && b.0 <= b.1 <= t.len(),
            None => decimal_ranges(t@) is None,
        },
{
    if !begins_with(t, &vec!['r', 'g', 'b', '(']) {
        return None;
    }
    let r1 = skip_digits(t, 4);
    if r1 == 4 || r1 >= t.len() || t[r1] != ',' {
        return None;
    }
    let g0 = skip_spaces(t, r1 + 1);
    let g1 = skip_digits(t, g0);
    if g1 == g0 || g1 >= t.len() || t[g1] != ',' {
        return None;
    }
    let b0 = skip_spaces(t, g1 + 1);
    let b1 = skip_digits(t, b0);
    if b1 == b0 || b1 >= t.len() || b1 + 1 != t.len() || t[b1] != ')' {
        return None;
    }
    Some(((4, r1), (g0, g1), (b0, b1)))
}

/// Whether `t` has the shape of the `#` form.
fn has_hash_shape_of(t: &Vec<char>) -> (b: bool)
    ensures
        b == has_hash_shape(t@),
{
    if t.len() < 7 || t.len() > 9 || t[0] != '#' {
        proof {
            lemma_encoded_len(t@);
        }
        return false;
    }
    let bytes = encoded_len_of(t);
    bytes == 7 || bytes == 9
}

/// The colour that the text `t`, which has no white space at its ends,
/// writes.
fn parse_trimmed_chars(t: &Vec<char>) -> (color: Result<RGB, ParseError>)
    ensures
        color == parse_trimmed(t@),
{
    if begins_with(t, &vec!['r', 'g', 'b', ':']) {
        return parse_x11_at(t, 4);
    }
    if begins_with(t, &vec!['r', 'g', 'b', 'a', ':']) {
        return parse_x11_at(t, 5);
    }
    if has_hash_shape_of(t) {
        let r = hex_channel_at(t, 1, 3);
        let g = hex_channel_at(t, 3, 5);
        let b = hex_channel_at(t, 5, 7);
        return combine(r, g, b);
    }
    match decimal_ranges_of(t) {
        Some((r, g, b)) => {
            proof {
                lemma_digits_end(t@, r.0 as int);
                lemma_digits_end(t@, g.0 as int);
                lemma_digits_end(t@, b.0 as int);
            }
            let r = decimal_channel_at(t, r.0, r.1);
            let g = decimal_channel_at(t, g.0, g.1);
            let b = decimal_channel_at(t, b.0, b.1);
            combine(r, g, b)
        },
        None => Err(ParseError::UnrecognizedFormat),
    }
}

/// Reads a colour from the text that a terminal wrote it in.
///
/// White space at the two ends of `s` is ignored. What is left must be one
/// of the forms that the module describes, in full: the result is the
/// colour it writes, or the reason why it writes none.
pub fn parse_rgb(s: &str) -> (color: Result<RGB, ParseError>)
    ensures
        color == parse_color(s@),
{
    let chars = chars_of(s);
    let t = trimmed(&chars);
    parse_trimmed_chars(&t)
}

/// Converts a hexadecimal field to a channel.
///
/// A field of two digits is the channel itself. A field of four digits is a
/// 16-bit channel and is scaled to 8 bits, rounding to the nearest value. A
/// field of any other length is refused, and so is one that holds anything
/// but hexadecimal digits.
pub fn hex_to_u8(hex: &str) -> (channel: Result<u8, ParseError>)
    ensures
        channel == hex_channel(hex@),
{
    let chars = chars_of(hex);
    assert(chars@.subrange(0, chars@.len() as int) == chars@);
    hex_channel_at(&chars, 0, chars.len())
}

/// The relative luminance of `rgb`, in units of [`LUMINANCE_ONE`].
///
/// Each channel is made linear with the sRGB transfer function, and the
/// three are weighted with 0.2126, 0.7152 and 0.0722. The result is the
/// exact luminance rounded down, by less than one part in a thousand
/// million.
#[must_use]
pub fn luminance(rgb: RGB) -> (lum: u64)
    ensures
        lum == luminance_of(rgb),
        lum <= LUMINANCE_ONE,
{
    proof {
        lemma_luminance_range(rgb);
    }
    let r: u64 = linear(rgb.r) as u64;
    let g: u64 = linear(rgb.g) as u64;
    let b: u64 = linear(rgb.b) as u64;
    RED_WEIGHT * r + GREEN_WEIGHT * g + BLUE_WEIGHT * b
}

/// Says whether `rgb` is dark or light: `"dark"` where its luminance is
/// below one half, `"light"` elsewhere.
///
/// The luminance that decides is the rounded one, and the exact one
/// decides alike: a colour is called dark just when its exact luminance is
/// below one half.
#[must_use]
pub fn classify_color(rgb: RGB) -> (class: &'static str)
    ensures
        class@ == class_name(rgb),
        is_dark(rgb) <==> is_dark_exactly(rgb),
{
    proof {
        lemma_class_is_exact(rgb);
    }
    let lum = luminance(rgb);
    if lum < DARK_THRESHOLD {
        "dark"
    } else {
        "light"
    }
}

} // verus!
