//! The forms of a colour text, written out, and what reading them gives.
//!
//! [`crate::color::parse_color`] says how a text is read. This module says
//! the same from the other side: it writes down a text of each form from
//! its parts and proves what the reading of that text is.

use crate::color::{
    decimal_channel, decimal_ranges, from_channels, has_hash_shape, hex_channel, parse_color,
    parse_trimmed, parse_x11_fields, round_div, scale_16_to_8, x11_fields_start, ParseError, RGB,
};
use crate::text::{
    all_ascii, all_digits, all_hex_digits, all_spaces, decimal_value, find, hex_number, hex_value,
    is_digit, is_hex_digit, is_space, lemma_ascii_encoded_len, lemma_digits_end,
    lemma_digits_end_is, lemma_encode_utf8_of_two, lemma_encoded_len, lemma_find,
    lemma_spaces_end, lemma_spaces_end_is, lemma_trim_of_trimmed, split, trim, utf8_width,
};
use vstd::prelude::*;
use vstd::utf8::encode_utf8;

verus! {

/// The hexadecimal digit of value `d`, in lower case.
pub open spec fn hex_digit_char(d: int) -> char
    recommends
        0 <= d < 16,
{
    if d < 10 {
        (0x30 + d) as u8 as char
    } else {
        (0x61 + d - 10) as u8 as char
    }
}

/// The two hexadecimal digits that write the channel `v`.
pub open spec fn hex_pair(v: u8) -> Seq<char> {
    seq![hex_digit_char(v as int / 16), hex_digit_char(v as int % 16)]
}

/// The `#` form of the colour `rgb`: `#RRGGBB`.
pub open spec fn hash_form(rgb: RGB) -> Seq<char> {
    seq!['#'] + hex_pair(rgb.r) + hex_pair(rgb.g) + hex_pair(rgb.b)
}

/// The X11 form with the three fields `r`, `g` and `b`: `rgb:r/g/b`.
pub open spec fn x11_form(r: Seq<char>, g: Seq<char>, b: Seq<char>) -> Seq<char> {
    seq!['r', 'g', 'b', ':'] + r + seq!['/'] + g + seq!['/'] + b
}

/// The decimal form with the three runs of digits `r`, `g` and `b`, and the
/// white space `gap_g` and `gap_b` behind the commas: `rgb(r,g,b)`.
pub open spec fn decimal_form(
    r: Seq<char>,
    gap_g: Seq<char>,
    g: Seq<char>,
    gap_b: Seq<char>,
    b: Seq<char>,
) -> Seq<char> {
    seq!['r', 'g', 'b', '('] + r + seq![','] + gap_g + g + seq![','] + gap_b + b + seq![')']
}

/// Whether `s` holds no `c`.
pub open spec fn free_of(s: Seq<char>, c: char) -> bool {
    forall|i: int| 0 <= i < s.len() ==> #[trigger] s[i] != c
}

/// The quotient `round_div(n, d)` is the integer nearest to `n / d`: twice
/// the distance between the two is at most one, and a half is rounded
/// upwards.
pub proof fn lemma_round_div_is_nearest(n: int, d: int)
    requires
        d > 0,
    ensures
        -d <= 2 * (n - d * round_div(n, d)) < d,
{
    let q = round_div(n, d);
    assert(2 * d * q <= 2 * n + d < 2 * d * q + 2 * d) by (nonlinear_arith)
        requires
            d > 0,
            q == (2 * n + d) / (2 * d),
    ;
    assert(2 * d * q == 2 * (d * q)) by (nonlinear_arith);
}

/// A 16-bit channel is scaled to the 8-bit channel nearest to
/// `v / 65535 * 255`, which is `v / 257`; no 16-bit channel lies half way
/// between two.
pub proof fn lemma_scale_16_to_8_is_nearest(v: int)
    requires
        0 <= v <= 65535,
    ensures
        0 <= scale_16_to_8(v) <= 255,
        -257 < 2 * (v - 257 * scale_16_to_8(v)) < 257,
        scale_16_to_8(v) == (v + 128) / 257,
{
}

/// A hexadecimal digit is neither white space nor one of the marks of the
/// forms.
proof fn lemma_hex_digit_is_plain(c: char)
    requires
        is_hex_digit(c),
    ensures
        !is_space(c),
        c != '/',
        c != '#',
        c != ':',
{
}

/// The digit that writes `d` has the value `d`.
proof fn lemma_hex_digit_char(d: int)
    requires
        0 <= d < 16,
    ensures
        hex_value(hex_digit_char(d)) == Some(d),
{
}

/// The two digits that write `v` are a hexadecimal field whose channel is
/// `v`.
pub proof fn lemma_hex_pair(v: u8)
    ensures
        hex_pair(v).len() == 2,
        all_hex_digits(hex_pair(v)),
        hex_number(hex_pair(v)) == v,
        hex_channel(hex_pair(v)) == Ok::<u8, ParseError>(v),
{
    let p = hex_pair(v);
    lemma_hex_digit_char(v as int / 16);
    lemma_hex_digit_char(v as int % 16);
    assert(p.drop_last() == seq![hex_digit_char(v as int / 16)]);
    assert(p.drop_last().drop_last() == Seq::<char>::empty());
    assert(hex_number(p.drop_last().drop_last()) == 0);
    assert(hex_number(p.drop_last()) == v as int / 16);
    assert(hex_number(p) == 16 * (v as int / 16) + v as int % 16);
}

/// A `#` and hexadecimal digits behind it are as many bytes as characters.
proof fn lemma_hash_and_digits_are_ascii(digits: Seq<char>)
    requires
        all_hex_digits(digits),
    ensures
        all_ascii(seq!['#'] + digits),
        encode_utf8(seq!['#'] + digits).len() == 1 + digits.len(),
{
    let s = seq!['#'] + digits;
    assert forall|i: int| 0 <= i < s.len() implies utf8_width(#[trigger] s[i]) == 1 by {
        if i > 0 {
            assert(s[i] == digits[i - 1]);
            assert(is_hex_digit(digits[i - 1]));
        }
    }
    lemma_ascii_encoded_len(s);
}

/// A text of the shape of the `#` form is read as that form: the three
/// pairs of characters behind the `#` are the channels, and what follows
/// them is not looked at.
pub proof fn lemma_hash_shape_is_read(s: Seq<char>)
    requires
        has_hash_shape(s),
        !is_space(s.last()),
    ensures
        parse_color(s) == from_channels(
            hex_channel(s.subrange(1, 3)),
            hex_channel(s.subrange(3, 5)),
            hex_channel(s.subrange(5, 7)),
        ),
{
    lemma_trim_of_trimmed(s);
    assert(s.take(4)[0] == s[0]);
    assert(s.take(5)[0] == s[0]);
}

/// The shape of the `#` form in characters. A text that begins with `#` and
/// six ASCII characters has the shape just when nothing follows them, or
/// two ASCII characters do, or one character of two bytes does.
pub proof fn lemma_hash_shape_in_characters(t: Seq<char>)
    requires
        t.len() >= 7,
        t[0] == '#',
        all_ascii(t.take(7)),
    ensures
        has_hash_shape(t) <==> {
            ||| t.len() == 7
            ||| t.len() == 9 && utf8_width(t[7]) == 1 && utf8_width(t[8]) == 1
            ||| t.len() == 8 && utf8_width(t[7]) == 2
        },
{
    let head = t.take(7);
    let tail = t.skip(7);
    assert(t == head + tail);
    lemma_encode_utf8_of_two(head, tail);
    lemma_ascii_encoded_len(head);
    lemma_encoded_len(tail);
    if tail.len() > 0 {
        assert(tail[0] == t[7]);
        lemma_encoded_len(tail.drop_first());
        if tail.len() > 1 {
            assert(tail.drop_first()[0] == t[8]);
            lemma_encoded_len(tail.drop_first().drop_first());
        }
    }
}

/// A text that begins with `#` and has not the shape of the `#` form is
/// refused, whatever follows the `#`: so is every such text that is not
/// seven or nine bytes long.
pub proof fn lemma_hash_without_shape_is_refused(t: Seq<char>)
    requires
        t.len() > 0,
        t[0] == '#',
        !has_hash_shape(t),
    ensures
        parse_trimmed(t) == Err::<RGB, ParseError>(ParseError::UnrecognizedFormat),
{
    if t.len() >= 4 {
        assert(t.take(4)[0] == t[0]);
    }
    if t.len() >= 5 {
        assert(t.take(5)[0] == t[0]);
    }
}

/// The `#` form of a colour is read as that colour: reading recovers the
/// three channels exactly.
pub proof fn lemma_hash_form_recovers_channels(rgb: RGB)
    ensures
        parse_color(hash_form(rgb)) == Ok::<RGB, ParseError>(rgb),
{
    let s = hash_form(rgb);
    let digits = hex_pair(rgb.r) + hex_pair(rgb.g) + hex_pair(rgb.b);
    lemma_hex_pair(rgb.r);
    lemma_hex_pair(rgb.g);
    lemma_hex_pair(rgb.b);
    assert(s == seq!['#'] + digits);
    assert(all_hex_digits(digits)) by {
        assert forall|i: int| 0 <= i < digits.len() implies is_hex_digit(#[trigger] digits[i]) by {
            if i < 2 {
                assert(digits[i] == hex_pair(rgb.r)[i]);
            } else if i < 4 {
                assert(digits[i] == hex_pair(rgb.g)[i - 2]);
            } else {
                assert(digits[i] == hex_pair(rgb.b)[i - 4]);
            }
        }
    }
    lemma_hash_and_digits_are_ascii(digits);
    assert(s.subrange(1, 3) == hex_pair(rgb.r));
    assert(s.subrange(3, 5) == hex_pair(rgb.g));
    assert(s.subrange(5, 7) == hex_pair(rgb.b));
    assert(is_hex_digit(hex_pair(rgb.b)[1]));
    assert(s.last() == hex_pair(rgb.b)[1]);
    lemma_hex_digit_is_plain(s.last());
    lemma_hash_shape_is_read(s);
}

/// Six hexadecimal digits of either case behind a `#` are read as the
/// colour whose channels the three pairs write, and two more digits behind
/// them change nothing.
pub proof fn lemma_hash_digits_are_channels(r: Seq<char>, g: Seq<char>, b: Seq<char>, a: Seq<char>)
    requires
        r.len() == 2 && g.len() == 2 && b.len() == 2,
        a.len() == 0 || a.len() == 2,
        all_hex_digits(r) && all_hex_digits(g) && all_hex_digits(b) && all_hex_digits(a),
    ensures
        parse_color(seq!['#'] + r + g + b + a) == Ok::<RGB, ParseError>(
            RGB { r: hex_number(r) as u8, g: hex_number(g) as u8, b: hex_number(b) as u8 },
        ),
{
    let s = seq!['#'] + r + g + b + a;
    let digits = r + g + b + a;
    assert(s == seq!['#'] + digits);
    assert(all_hex_digits(digits)) by {
        assert forall|i: int| 0 <= i < digits.len() implies is_hex_digit(#[trigger] digits[i]) by {
            if i < 2 {
                assert(digits[i] == r[i]);
            } else if i < 4 {
                assert(digits[i] == g[i - 2]);
            } else if i < 6 {
                assert(digits[i] == b[i - 4]);
            } else {
                assert(digits[i] == a[i - 6]);
            }
        }
    }
    lemma_hash_and_digits_are_ascii(digits);
    assert(s.subrange(1, 3) == r);
    assert(s.subrange(3, 5) == g);
    assert(s.subrange(5, 7) == b);
    if a.len() == 0 {
        assert(s.last() == b[1]);
        assert(is_hex_digit(b[1]));
    } else {
        assert(s.last() == a[1]);
        assert(is_hex_digit(a[1]));
    }
    lemma_hex_digit_is_plain(s.last());
    lemma_hash_shape_is_read(s);
}

/// A field that holds no separator, with a separator and more text behind
/// it, is the first field of the whole; the fields of the text behind it
/// follow.
pub proof fn lemma_split_first(field: Seq<char>, rest: Seq<char>, sep: char)
    requires
        free_of(field, sep),
    ensures
        split(field + seq![sep] + rest, sep) == seq![field] + split(rest, sep),
{
    let s = field + seq![sep] + rest;
    lemma_find(s, sep, 0);
    let i = find(s, sep, 0);
    if i < field.len() {
        assert(s[i] == field[i]);
    }
    if i > field.len() {
        assert(s[field.len() as int] == sep);
    }
    assert(s.take(i) == field);
    assert(s.skip(i + 1) == rest);
}

/// A text that holds no separator is its own single field.
pub proof fn lemma_split_last(field: Seq<char>, sep: char)
    requires
        free_of(field, sep),
    ensures
        split(field, sep) == seq![field],
{
    lemma_find(field, sep, 0);
}

/// The X11 form is read field by field: the channels of the text
/// `rgb:r/g/b` are those that the three fields write, whatever they are.
pub proof fn lemma_x11_form_is_read(r: Seq<char>, g: Seq<char>, b: Seq<char>)
    requires
        free_of(r, '/') && free_of(g, '/') && free_of(b, '/'),
        b.len() > 0 && !is_space(b.last()),
    ensures
        parse_color(x11_form(r, g, b)) == from_channels(
            hex_channel(r),
            hex_channel(g),
            hex_channel(b),
        ),
{
    let s = x11_form(r, g, b);
    let body = r + seq!['/'] + g + seq!['/'] + b;
    assert(s.last() == b.last());
    lemma_trim_of_trimmed(s);
    assert(s.take(4) == seq!['r', 'g', 'b', ':']);
    assert(s.skip(4) == body);
    lemma_split_first(r, g + seq!['/'] + b, '/');
    assert(body == r + seq!['/'] + (g + seq!['/'] + b));
    lemma_split_first(g, b, '/');
    lemma_split_last(b, '/');
    assert(split(body, '/') == seq![r, g, b]);
}

/// A fourth field in the X11 form changes nothing, whatever it holds: the
/// text `rgb:r/g/b/a` is read as `rgb:r/g/b` is.
pub proof fn lemma_fourth_field_is_ignored(r: Seq<char>, g: Seq<char>, b: Seq<char>, a: Seq<char>)
    requires
        free_of(r, '/') && free_of(g, '/') && free_of(b, '/') && free_of(a, '/'),
    ensures
        parse_x11_fields(r + seq!['/'] + g + seq!['/'] + b + seq!['/'] + a) == from_channels(
            hex_channel(r),
            hex_channel(g),
            hex_channel(b),
        ),
        parse_x11_fields(r + seq!['/'] + g + seq!['/'] + b) == from_channels(
            hex_channel(r),
            hex_channel(g),
            hex_channel(b),
        ),
{
    let three = r + seq!['/'] + g + seq!['/'] + b;
    let four = three + seq!['/'] + a;
    lemma_split_last(a, '/');
    lemma_split_last(b, '/');
    lemma_split_first(b, a, '/');
    lemma_split_first(g, b, '/');
    lemma_split_first(g, b + seq!['/'] + a, '/');
    lemma_split_first(r, g + seq!['/'] + b, '/');
    lemma_split_first(r, g + seq!['/'] + (b + seq!['/'] + a), '/');
    assert(three == r + seq!['/'] + (g + seq!['/'] + b));
    assert(four == r + seq!['/'] + (g + seq!['/'] + (b + seq!['/'] + a)));
    assert(split(three, '/') == seq![r, g, b]);
    assert(split(four, '/') == seq![r, g, b, a]);
}

/// The X11 form is refused when it has fewer than three fields.
pub proof fn lemma_two_fields_are_refused(r: Seq<char>, g: Seq<char>)
    requires
        free_of(r, '/') && free_of(g, '/'),
    ensures
        parse_x11_fields(r) == Err::<RGB, ParseError>(ParseError::WrongFieldCount),
        parse_x11_fields(r + seq!['/'] + g) == Err::<RGB, ParseError>(
            ParseError::WrongFieldCount,
        ),
{
    lemma_split_last(r, '/');
    lemma_split_last(g, '/');
    lemma_split_first(r, g, '/');
    assert(split(r + seq!['/'] + g, '/') == seq![r, g]);
}

/// A text is read alike with `rgba:` and with `rgb:` in front.
pub proof fn lemma_rgba_is_read_as_rgb(fields: Seq<char>)
    ensures
        parse_trimmed(seq!['r', 'g', 'b', 'a', ':'] + fields) == parse_x11_fields(fields),
        parse_trimmed(seq!['r', 'g', 'b', ':'] + fields) == parse_x11_fields(fields),
{
    let rgba = seq!['r', 'g', 'b', 'a', ':'] + fields;
    let rgb = seq!['r', 'g', 'b', ':'] + fields;
    assert(rgba.take(5) == seq!['r', 'g', 'b', 'a', ':']);
    assert(rgba.take(4)[3] == 'a');
    assert(rgba.skip(5) == fields);
    assert(rgb.take(4) == seq!['r', 'g', 'b', ':']);
    assert(rgb.skip(4) == fields);
}

/// Three fields of four hexadecimal digits each, in the X11 form, are read
/// as the colour whose channels are the three 16-bit numbers scaled to 8
/// bits: each is `v / 65535 * 255`, rounded.
pub proof fn lemma_x11_form_scales_16_bits(r: Seq<char>, g: Seq<char>, b: Seq<char>)
    requires
        r.len() == 4 && g.len() == 4 && b.len() == 4,
        all_hex_digits(r) && all_hex_digits(g) && all_hex_digits(b),
    ensures
        parse_color(x11_form(r, g, b)) == Ok::<RGB, ParseError>(
            RGB {
                r: round_div(255 * hex_number(r), 65535) as u8,
                g: round_div(255 * hex_number(g), 65535) as u8,
                b: round_div(255 * hex_number(b), 65535) as u8,
            },
        ),
{
    lemma_hex_digits_hold_no_mark(r);
    lemma_hex_digits_hold_no_mark(g);
    lemma_hex_digits_hold_no_mark(b);
    assert(is_hex_digit(b[3]));
    lemma_hex_digit_is_plain(b.last());
    lemma_x11_form_is_read(r, g, b);
}

/// Three fields of two hexadecimal digits each, in the X11 form, are read
/// as the colour whose channels the fields write.
pub proof fn lemma_x11_form_keeps_8_bits(r: Seq<char>, g: Seq<char>, b: Seq<char>)
    requires
        r.len() == 2 && g.len() == 2 && b.len() == 2,
        all_hex_digits(r) && all_hex_digits(g) && all_hex_digits(b),
    ensures
        parse_color(x11_form(r, g, b)) == Ok::<RGB, ParseError>(
            RGB { r: hex_number(r) as u8, g: hex_number(g) as u8, b: hex_number(b) as u8 },
        ),
{
    lemma_hex_digits_hold_no_mark(r);
    lemma_hex_digits_hold_no_mark(g);
    lemma_hex_digits_hold_no_mark(b);
    assert(is_hex_digit(b[1]));
    lemma_hex_digit_is_plain(b.last());
    lemma_x11_form_is_read(r, g, b);
}

/// The X11 form is refused when one of its three fields is neither two nor
/// four characters long.
pub proof fn lemma_x11_form_refuses_other_lengths(r: Seq<char>, g: Seq<char>, b: Seq<char>)
    requires
        free_of(r, '/') && free_of(g, '/') && free_of(b, '/'),
        b.len() > 0 && !is_space(b.last()),
        (r.len() != 2 && r.len() != 4) || (g.len() != 2 && g.len() != 4) || (b.len() != 2
            && b.len() != 4),
    ensures
        parse_color(x11_form(r, g, b)) is Err,
        hex_channel(r) is Ok && hex_channel(g) is Ok ==> parse_color(x11_form(r, g, b)) == Err::<
            RGB,
            ParseError,
        >(ParseError::InvalidHexLength),
{
    lemma_x11_form_is_read(r, g, b);
}

/// Hexadecimal digits hold no slash.
proof fn lemma_hex_digits_hold_no_mark(s: Seq<char>)
    requires
        all_hex_digits(s),
    ensures
        free_of(s, '/'),
{
    assert forall|i: int| 0 <= i < s.len() implies #[trigger] s[i] != '/' by {
        assert(is_hex_digit(s[i]));
    }
}

/// The decimal form is found where it was written: the three runs of digits
/// of `rgb(r,g,b)` are `r`, `g` and `b`.
pub proof fn lemma_decimal_form_is_found(
    r: Seq<char>,
    gap_g: Seq<char>,
    g: Seq<char>,
    gap_b: Seq<char>,
    b: Seq<char>,
)
    requires
        r.len() > 0 && g.len() > 0 && b.len() > 0,
        all_digits(r) && all_digits(g) && all_digits(b),
        all_spaces(gap_g) && all_spaces(gap_b),
    ensures
        decimal_ranges(decimal_form(r, gap_g, g, gap_b, b)) matches Some(found) && {
            let t = decimal_form(r, gap_g, g, gap_b, b);
            &&& t.subrange(found.0.0, found.0.1) == r
            &&& t.subrange(found.1.0, found.1.1) == g
            &&& t.subrange(found.2.0, found.2.1) == b
        },
{
    let t = decimal_form(r, gap_g, g, gap_b, b);
    let r0 = 4int;
    let r1 = r0 + r.len();
    let g0 = r1 + 1 + gap_g.len();
    let g1 = g0 + g.len();
    let b0 = g1 + 1 + gap_b.len();
    let b1 = b0 + b.len();
    assert(t.len() == b1 + 1);
    assert(t.take(4) == seq!['r', 'g', 'b', '(']);
    assert forall|i: int| r0 <= i < r1 implies is_digit(#[trigger] t[i]) by {
        assert(t[i] == r[i - r0]);
    }
    assert(t[r1] == ',');
    lemma_digits_end_is(t, r0, r1);
    assert forall|i: int| r1 + 1 <= i < g0 implies is_space(#[trigger] t[i]) by {
        assert(t[i] == gap_g[i - r1 - 1]);
    }
    assert(t[g0] == g[0]);
    assert(is_digit(g[0]));
    lemma_spaces_end_is(t, r1 + 1, g0);
    assert forall|i: int| g0 <= i < g1 implies is_digit(#[trigger] t[i]) by {
        assert(t[i] == g[i - g0]);
    }
    assert(t[g1] == ',');
    lemma_digits_end_is(t, g0, g1);
    assert forall|i: int| g1 + 1 <= i < b0 implies is_space(#[trigger] t[i]) by {
        assert(t[i] == gap_b[i - g1 - 1]);
    }
    assert(t[b0] == b[0]);
    assert(is_digit(b[0]));
    lemma_spaces_end_is(t, g1 + 1, b0);
    assert forall|i: int| b0 <= i < b1 implies is_digit(#[trigger] t[i]) by {
        assert(t[i] == b[i - b0]);
    }
    assert(t[b1] == ')');
    lemma_digits_end_is(t, b0, b1);
    assert(t.subrange(r0, r1) == r);
    assert(t.subrange(g0, g1) == g);
    assert(t.subrange(b0, b1) == b);
}

/// Only the decimal form is found: a text in which the three runs of digits
/// are found is `rgb(r,g,b)` for those runs and for some white space behind
/// the commas.
pub proof fn lemma_found_is_decimal_form(t: Seq<char>)
    requires
        decimal_ranges(t) is Some,
    ensures
        ({
            let found = decimal_ranges(t)->0;
            let r = t.subrange(found.0.0, found.0.1);
            let g = t.subrange(found.1.0, found.1.1);
            let b = t.subrange(found.2.0, found.2.1);
            let gap_g = t.subrange(found.0.1 + 1, found.1.0);
            let gap_b = t.subrange(found.1.1 + 1, found.2.0);
            &&& t == decimal_form(r, gap_g, g, gap_b, b)
            &&& r.len() > 0 && g.len() > 0 && b.len() > 0
            &&& all_digits(r) && all_digits(g) && all_digits(b)
            &&& all_spaces(gap_g) && all_spaces(gap_b)
        }),
{
    let found = decimal_ranges(t)->0;
    let (r0, r1) = found.0;
    let (g0, g1) = found.1;
    let (b0, b1) = found.2;
    lemma_digits_end(t, r0);
    lemma_spaces_end(t, r1 + 1);
    lemma_digits_end(t, g0);
    lemma_spaces_end(t, g1 + 1);
    lemma_digits_end(t, b0);
    let r = t.subrange(r0, r1);
    let g = t.subrange(g0, g1);
    let b = t.subrange(b0, b1);
    let gap_g = t.subrange(r1 + 1, g0);
    let gap_b = t.subrange(g1 + 1, b0);
    assert(t.take(4) == seq!['r', 'g', 'b', '(']);
    assert(t =~= decimal_form(r, gap_g, g, gap_b, b)) by {
        let u = decimal_form(r, gap_g, g, gap_b, b);
        assert(u.len() == t.len());
        assert forall|i: int| 0 <= i < t.len() implies t[i] == u[i] by {
            if i < 4 {
                assert(t.take(4)[i] == t[i]);
            }
        }
    }
}

/// The decimal form begins with `rgb(` and ends with `)`.
proof fn lemma_decimal_form_ends(
    r: Seq<char>,
    gap_g: Seq<char>,
    g: Seq<char>,
    gap_b: Seq<char>,
    b: Seq<char>,
)
    ensures
        ({
            let t = decimal_form(r, gap_g, g, gap_b, b);
            t.len() >= 7 && t[0] == 'r' && t[3] == '(' && t.last() == ')'
        }),
{
}

/// A text that begins like the decimal form begins like no other form.
proof fn lemma_decimal_start_is_no_other(t: Seq<char>)
    requires
        t.len() >= 4,
        t[0] == 'r',
        t[3] == '(',
    ensures
        x11_fields_start(t) is None,
        !has_hash_shape(t),
{
    assert(t.take(4)[3] == t[3]);
    if t.len() >= 5 {
        assert(t.take(5)[3] == t[3]);
    }
}

/// The decimal form is read run by run: the channels of the text
/// `rgb(r,g,b)` are those that the three runs of digits write.
pub proof fn lemma_decimal_form_is_read(
    r: Seq<char>,
    gap_g: Seq<char>,
    g: Seq<char>,
    gap_b: Seq<char>,
    b: Seq<char>,
)
    requires
        r.len() > 0 && g.len() > 0 && b.len() > 0,
        all_digits(r) && all_digits(g) && all_digits(b),
        all_spaces(gap_g) && all_spaces(gap_b),
    ensures
        parse_color(decimal_form(r, gap_g, g, gap_b, b)) == from_channels(
            decimal_channel(r),
            decimal_channel(g),
            decimal_channel(b),
        ),
{
    let t = decimal_form(r, gap_g, g, gap_b, b);
    lemma_decimal_form_is_found(r, gap_g, g, gap_b, b);
    lemma_decimal_form_ends(r, gap_g, g, gap_b, b);
    lemma_decimal_start_is_no_other(t);
    lemma_trim_of_trimmed(t);
}

/// The decimal form is refused when one of its channels is 256 or more, and
/// for no other reason.
pub proof fn lemma_decimal_form_refuses_large_channels(
    r: Seq<char>,
    gap_g: Seq<char>,
    g: Seq<char>,
    gap_b: Seq<char>,
    b: Seq<char>,
)
    requires
        r.len() > 0 && g.len() > 0 && b.len() > 0,
        all_digits(r) && all_digits(g) && all_digits(b),
        all_spaces(gap_g) && all_spaces(gap_b),
    ensures
        decimal_value(r) >= 256 || decimal_value(g) >= 256 || decimal_value(b) >= 256
            ==> parse_color(decimal_form(r, gap_g, g, gap_b, b)) == Err::<RGB, ParseError>(
            ParseError::ChannelOutOfRange,
        ),
        decimal_value(r) < 256 && decimal_value(g) < 256 && decimal_value(b) < 256
            ==> parse_color(decimal_form(r, gap_g, g, gap_b, b)) == Ok::<RGB, ParseError>(
            RGB {
                r: decimal_value(r) as u8,
                g: decimal_value(g) as u8,
                b: decimal_value(b) as u8,
            },
        ),
{
    lemma_decimal_form_is_read(r, gap_g, g, gap_b, b);
}

/// A text is refused as unrecognized just when, with the white space at its
/// ends cut off, it has none of the forms: it begins with neither `rgb:`
/// nor `rgba:`, has not the shape of the `#` form, and is
/// not of the decimal form.
pub proof fn lemma_unrecognized_is_no_form(s: Seq<char>)
    ensures
        parse_color(s) == Err::<RGB, ParseError>(ParseError::UnrecognizedFormat) <==> {
            &&& x11_fields_start(trim(s)) is None
            &&& !has_hash_shape(trim(s))
            &&& decimal_ranges(trim(s)) is None
        },
{
}

} // verus!
