//! Text as a sequence of characters: white space, digits and runs of them.

use vstd::prelude::*;
use vstd::utf8::{char_is_scalar, encode_utf8};

verus! {

/// Whether `c` is white space: a code point with the Unicode property
/// `White_Space`.
pub open spec fn is_space(c: char) -> bool {
    let u = c as u32;
    ||| 0x09 <= u <= 0x0d
    ||| u == 0x20
    ||| u == 0x85
    ||| u == 0xa0
    ||| u == 0x1680
    ||| 0x2000 <= u <= 0x200a
    ||| u == 0x2028
    ||| u == 0x2029
    ||| u == 0x202f
    ||| u == 0x205f
    ||| u == 0x3000
}

/// Whether `c` is one of the decimal digits `0` to `9`.
pub open spec fn is_digit(c: char) -> bool {
    0x30 <= c as u32 <= 0x39
}

/// The value of the decimal digit `c`.
pub open spec fn digit_value(c: char) -> int
    recommends
        is_digit(c),
{
    c as u32 - 0x30
}

/// The value of `c` as a hexadecimal digit of either case, if it is one.
pub open spec fn hex_value(c: char) -> Option<int> {
    let u = c as u32;
    if 0x30 <= u <= 0x39 {
        Some(u - 0x30)
    } else if 0x41 <= u <= 0x46 {
        Some(u - 0x41 + 10)
    } else if 0x61 <= u <= 0x66 {
        Some(u - 0x61 + 10)
    } else {
        None
    }
}

/// Whether `c` is a hexadecimal digit of either case.
pub open spec fn is_hex_digit(c: char) -> bool {
    hex_value(c) is Some
}

/// Whether every character of `s` is white space.
pub open spec fn all_spaces(s: Seq<char>) -> bool {
    forall|i: int| 0 <= i < s.len() ==> is_space(#[trigger] s[i])
}

/// Whether every character of `s` is a decimal digit.
pub open spec fn all_digits(s: Seq<char>) -> bool {
    forall|i: int| 0 <= i < s.len() ==> is_digit(#[trigger] s[i])
}

/// Whether every character of `s` is a hexadecimal digit.
pub open spec fn all_hex_digits(s: Seq<char>) -> bool {
    forall|i: int| 0 <= i < s.len() ==> is_hex_digit(#[trigger] s[i])
}

/// Where the longest run of white space that starts at `from` ends.
pub open spec fn spaces_end(s: Seq<char>, from: int) -> int
    decreases s.len() - from,
{
    if 0 <= from < s.len() && is_space(s[from]) {
        spaces_end(s, from + 1)
    } else {
        from
    }
}

/// Where the longest run of decimal digits that starts at `from` ends.
pub open spec fn digits_end(s: Seq<char>, from: int) -> int
    decreases s.len() - from,
{
    if 0 <= from < s.len() && is_digit(s[from]) {
        digits_end(s, from + 1)
    } else {
        from
    }
}

/// Where the text that is left begins when the white space at the end of
/// `s` is cut off, never going below `floor`.
pub open spec fn spaces_start(s: Seq<char>, floor: int, to: int) -> int
    decreases to - floor,
{
    if floor < to <= s.len() && is_space(s[to - 1]) {
        spaces_start(s, floor, to - 1)
    } else {
        to
    }
}

/// `s` without the white space at its two ends.
pub open spec fn trim(s: Seq<char>) -> Seq<char> {
    let lo = spaces_end(s, 0);
    s.subrange(lo, spaces_start(s, lo, s.len() as int))
}

/// The number that the decimal digits `s` write, most significant first.
pub open spec fn decimal_value(s: Seq<char>) -> int
    decreases s.len(),
{
    if s.len() == 0 {
        0
    } else {
        10 * decimal_value(s.drop_last()) + digit_value(s.last())
    }
}

/// The number that the hexadecimal digits `s` write, most significant first.
pub open spec fn hex_number(s: Seq<char>) -> int
    decreases s.len(),
{
    if s.len() == 0 {
        0
    } else {
        16 * hex_number(s.drop_last()) + match hex_value(s.last()) {
            Some(d) => d,
            None => 0,
        }
    }
}

/// How many bytes the UTF-8 encoding of `c` has.
pub open spec fn utf8_width(c: char) -> int {
    let u = c as u32;
    if u < 0x80 {
        1
    } else if u < 0x800 {
        2
    } else if u < 0x10000 {
        3
    } else {
        4
    }
}

/// The UTF-8 encoding of a text is that of its first character with that
/// of the rest behind it, and has at least one byte and at most four for
/// each character.
pub proof fn lemma_encoded_len(s: Seq<char>)
    ensures
        s.len() <= encode_utf8(s).len() <= 4 * s.len(),
        s.len() > 0 ==> encode_utf8(s).len() == utf8_width(s[0]) + encode_utf8(
            s.drop_first(),
        ).len(),
    decreases s.len(),
{
    if s.len() > 0 {
        char_is_scalar(s[0]);
        lemma_encoded_len(s.drop_first());
    }
}

/// Whether every character of `s` is ASCII, and so one byte in UTF-8.
pub open spec fn all_ascii(s: Seq<char>) -> bool {
    forall|i: int| 0 <= i < s.len() ==> utf8_width(#[trigger] s[i]) == 1
}

/// An ASCII text has as many bytes in UTF-8 as characters.
pub proof fn lemma_ascii_encoded_len(s: Seq<char>)
    requires
        all_ascii(s),
    ensures
        encode_utf8(s).len() == s.len(),
    decreases s.len(),
{
    if s.len() > 0 {
        lemma_encoded_len(s);
        assert(utf8_width(s[0]) == 1);
        assert forall|i: int| 0 <= i < s.drop_first().len() implies utf8_width(
            #[trigger] s.drop_first()[i],
        ) == 1 by {
            assert(s.drop_first()[i] == s[i + 1]);
        }
        lemma_ascii_encoded_len(s.drop_first());
    }
}

/// The UTF-8 encoding of two texts, one behind the other, is the encoding
/// of the first with that of the second behind it.
pub proof fn lemma_encode_utf8_of_two(a: Seq<char>, b: Seq<char>)
    ensures
        encode_utf8(a + b) == encode_utf8(a) + encode_utf8(b),
    decreases a.len(),
{
    if a.len() == 0 {
        assert(a + b == b);
        assert(encode_utf8(a) + encode_utf8(b) == encode_utf8(b));
    } else {
        lemma_encode_utf8_of_two(a.drop_first(), b);
        assert((a + b).drop_first() == a.drop_first() + b);
        assert((a + b)[0] == a[0]);
    }
}

/// The first place at or after `from` where `s` holds `c`, or the length of
/// `s` if there is none.
pub open spec fn find(s: Seq<char>, c: char, from: int) -> int
    decreases s.len() - from,
{
    if 0 <= from < s.len() && s[from] != c {
        find(s, c, from + 1)
    } else {
        from
    }
}

/// The fields of `s` that `sep` separates: one more than `s` holds
/// separators, each field free of them.
pub open spec fn split(s: Seq<char>, sep: char) -> Seq<Seq<char>>
    decreases s.len(),
{
    let i = find(s, sep, 0);
    if 0 <= i < s.len() {
        seq![s.take(i)] + split(s.skip(i + 1), sep)
    } else {
        seq![s]
    }
}

/// The texts that `ranges` cut out of `s`.
pub open spec fn cut(s: Seq<char>, ranges: Seq<(usize, usize)>) -> Seq<Seq<char>> {
    Seq::new(ranges.len(), |k: int| s.subrange(ranges[k].0 as int, ranges[k].1 as int))
}

/// Whether every range of `ranges` lies between `lo` and `hi`.
pub open spec fn ranges_within(ranges: Seq<(usize, usize)>, lo: int, hi: int) -> bool {
    forall|k: int|
        0 <= k < ranges.len() ==> lo <= (#[trigger] ranges[k]).0 <= ranges[k].1 <= hi
}

/// `find` stays inside `s`, passes over no `c`, and stops on one unless it
/// reaches the end.
pub proof fn lemma_find(s: Seq<char>, c: char, from: int)
    requires
        0 <= from <= s.len(),
    ensures
        from <= find(s, c, from) <= s.len(),
        forall|i: int| from <= i < find(s, c, from) ==> s[i] != c,
        find(s, c, from) < s.len() ==> s[find(s, c, from)] == c,
    decreases s.len() - from,
{
    if from < s.len() && s[from] != c {
        lemma_find(s, c, from + 1);
    }
}

/// The run of white space from `from` lies inside `s`, holds white space
/// only, and stops at the end of `s` or before a character that is none.
pub proof fn lemma_spaces_end(s: Seq<char>, from: int)
    requires
        0 <= from <= s.len(),
    ensures
        from <= spaces_end(s, from) <= s.len(),
        all_spaces(s.subrange(from, spaces_end(s, from))),
        spaces_end(s, from) < s.len() ==> !is_space(s[spaces_end(s, from)]),
    decreases s.len() - from,
{
    if from < s.len() && is_space(s[from]) {
        lemma_spaces_end(s, from + 1);
        let e = spaces_end(s, from);
        assert forall|i: int| 0 <= i < e - from implies is_space(
            #[trigger] s.subrange(from, e)[i],
        ) by {
            if i > 0 {
                assert(s.subrange(from, e)[i] == s.subrange(from + 1, e)[i - 1]);
            }
        }
    }
}

/// A run of white space that stops before a character that is none, or at
/// the end of `s`, is the longest one.
pub proof fn lemma_spaces_end_is(s: Seq<char>, from: int, end: int)
    requires
        0 <= from <= end <= s.len(),
        forall|i: int| from <= i < end ==> is_space(#[trigger] s[i]),
        end < s.len() ==> !is_space(s[end]),
    ensures
        spaces_end(s, from) == end,
    decreases end - from,
{
    if from < end {
        lemma_spaces_end_is(s, from + 1, end);
    }
}

/// The run of decimal digits from `from` lies inside `s`, holds digits
/// only, and stops at the end of `s` or before a character that is none.
pub proof fn lemma_digits_end(s: Seq<char>, from: int)
    requires
        0 <= from <= s.len(),
    ensures
        from <= digits_end(s, from) <= s.len(),
        all_digits(s.subrange(from, digits_end(s, from))),
        digits_end(s, from) < s.len() ==> !is_digit(s[digits_end(s, from)]),
    decreases s.len() - from,
{
    if from < s.len() && is_digit(s[from]) {
        lemma_digits_end(s, from + 1);
        let e = digits_end(s, from);
        assert forall|i: int| 0 <= i < e - from implies is_digit(
            #[trigger] s.subrange(from, e)[i],
        ) by {
            if i > 0 {
                assert(s.subrange(from, e)[i] == s.subrange(from + 1, e)[i - 1]);
            }
        }
    }
}

/// A run of decimal digits that stops before a character that is none, or
/// at the end of `s`, is the longest one.
pub proof fn lemma_digits_end_is(s: Seq<char>, from: int, end: int)
    requires
        0 <= from <= end <= s.len(),
        forall|i: int| from <= i < end ==> is_digit(#[trigger] s[i]),
        end < s.len() ==> !is_digit(s[end]),
    ensures
        digits_end(s, from) == end,
    decreases end - from,
{
    if from < end {
        lemma_digits_end_is(s, from + 1, end);
    }
}

/// Cutting the white space off the end leaves a text that lies between
/// `floor` and `to`, does not end in white space, and is followed by white
/// space only.
pub proof fn lemma_spaces_start(s: Seq<char>, floor: int, to: int)
    requires
        0 <= floor <= to <= s.len(),
    ensures
        floor <= spaces_start(s, floor, to) <= to,
        all_spaces(s.subrange(spaces_start(s, floor, to), to)),
        floor < spaces_start(s, floor, to) ==> !is_space(s[spaces_start(s, floor, to) - 1]),
    decreases to - floor,
{
    if floor < to && is_space(s[to - 1]) {
        lemma_spaces_start(s, floor, to - 1);
        let b = spaces_start(s, floor, to);
        assert forall|i: int| 0 <= i < to - b implies is_space(#[trigger] s.subrange(b, to)[i]) by {
            if i < to - 1 - b {
                assert(s.subrange(b, to)[i] == s.subrange(b, to - 1)[i]);
            }
        }
    }
}

/// The trimmed text neither begins nor ends with white space.
pub proof fn lemma_trim_has_no_space_at_its_ends(s: Seq<char>)
    ensures
        trim(s).len() > 0 ==> !is_space(trim(s).first()) && !is_space(trim(s).last()),
{
    let lo = spaces_end(s, 0);
    lemma_spaces_end(s, 0);
    lemma_spaces_start(s, lo, s.len() as int);
}

/// A text that neither begins nor ends with white space is its own trimmed
/// form.
pub proof fn lemma_trim_of_trimmed(s: Seq<char>)
    requires
        s.len() > 0 ==> !is_space(s.first()) && !is_space(s.last()),
    ensures
        trim(s) == s,
{
    assert(s.subrange(0, s.len() as int) == s);
}

/// Whether `c` is white space.
pub fn is_whitespace(c: char) -> (b: bool)
    ensures
        b == is_space(c),
{
    let u: u32 = c as u32;
    (0x09 <= u && u <= 0x0d) || u == 0x20 || u == 0x85 || u == 0xa0 || u == 0x1680 || (0x2000 <= u
        && u <= 0x200a) || u == 0x2028 || u == 0x2029 || u == 0x202f || u == 0x205f || u == 0x3000
}

/// Whether `c` is a decimal digit.
pub fn is_decimal_digit(c: char) -> (b: bool)
    ensures
        b == is_digit(c),
{
    let u: u32 = c as u32;
    0x30 <= u && u <= 0x39
}

/// The value of `c` as a hexadecimal digit, if it is one.
pub fn hex_digit(c: char) -> (d: Option<u8>)
    ensures
        d is Some <==> is_hex_digit(c),
        d matches Some(v) ==> hex_value(c) == Some(v as int) && v < 16,
{
    let u: u32 = c as u32;
    if 0x30 <= u && u <= 0x39 {
        Some((u - 0x30) as u8)
    } else if 0x41 <= u && u <= 0x46 {
        Some((u - 0x41 + 10) as u8)
    } else if 0x61 <= u && u <= 0x66 {
        Some((u - 0x61 + 10) as u8)
    } else {
        None
    }
}

/// How many bytes the UTF-8 encoding of `c` has.
pub fn utf8_width_of(c: char) -> (n: usize)
    ensures
        n == utf8_width(c),
        1 <= n <= 4,
{
    let u: u32 = c as u32;
    if u < 0x80 {
        1
    } else if u < 0x800 {
        2
    } else if u < 0x10000 {
        3
    } else {
        4
    }
}

/// How many bytes the UTF-8 encoding of `chars` has.
pub(crate) fn encoded_len_of(chars: &Vec<char>) -> (n: usize)
    requires
        chars.len() <= 1024,
    ensures
        n == encode_utf8(chars@).len(),
{
    let mut n: usize = 0;
    let mut i: usize = 0;
    proof {
        assert(chars@.skip(0) == chars@);
    }
    while i < chars.len()
        invariant
            i <= chars.len() <= 1024,
            n <= 4 * i,
            n + encode_utf8(chars@.skip(i as int)).len() == encode_utf8(chars@).len(),
        decreases chars.len() - i,
    {
        proof {
            lemma_encoded_len(chars@.skip(i as int));
            assert(chars@.skip(i as int).drop_first() == chars@.skip(i + 1));
            assert(chars@.skip(i as int)[0] == chars[i as int]);
        }
        n += utf8_width_of(chars[i]);
        i += 1;
    }
    n
}

/// The characters of `s`, in order.
pub fn chars_of(s: &str) -> (v: Vec<char>)
    ensures
        v@ == s@,
{
    let mut v: Vec<char> = Vec::new();
    for c in it: s.chars()
        invariant
            v@ == it.seq().take(it.index() as int),
            it.seq() == s@,
    {
        v.push(c);
    }
    v
}

/// The end of the longest run of white space in `chars` that starts at
/// `from`.
pub(crate) fn skip_spaces(chars: &Vec<char>, from: usize) -> (end: usize)
    requires
        from <= chars.len(),
    ensures
        end == spaces_end(chars@, from as int),
        from <= end <= chars.len(),
{
    let mut i: usize = from;
    while i < chars.len() && is_whitespace(chars[i])
        invariant
            from <= i <= chars.len(),
            spaces_end(chars@, from as int) == spaces_end(chars@, i as int),
        decreases chars.len() - i,
    {
        i += 1;
    }
    i
}

/// The end of the longest run of decimal digits in `chars` that starts at
/// `from`.
pub(crate) fn skip_digits(chars: &Vec<char>, from: usize) -> (end: usize)
    requires
        from <= chars.len(),
    ensures
        end == digits_end(chars@, from as int),
        from <= end <= chars.len(),
{
    let mut i: usize = from;
    while i < chars.len() && is_decimal_digit(chars[i])
        invariant
            from <= i <= chars.len(),
            digits_end(chars@, from as int) == digits_end(chars@, i as int),
        decreases chars.len() - i,
    {
        i += 1;
    }
    i
}

/// Where the text begins that is left of `chars[..to]` once the white space
/// at its end is cut off, never going below `floor`.
pub(crate) fn skip_spaces_back(chars: &Vec<char>, floor: usize, to: usize) -> (start: usize)
    requires
        floor <= to <= chars.len(),
    ensures
        start == spaces_start(chars@, floor as int, to as int),
        floor <= start <= to,
{
    let mut j: usize = to;
    while floor < j && is_whitespace(chars[j - 1])
        invariant
            floor <= j <= to <= chars.len(),
            spaces_start(chars@, floor as int, to as int) == spaces_start(
                chars@,
                floor as int,
                j as int,
            ),
        decreases j - floor,
    {
        j -= 1;
    }
    j
}

/// The first place at or after `from` and before `to` where `chars` holds
/// `c`, or `to` if there is none.
pub(crate) fn find_char(chars: &Vec<char>, c: char, from: usize, to: usize) -> (at: usize)
    requires
        from <= to <= chars.len(),
    ensures
        from <= at <= to,
        at - from == find(chars@.subrange(from as int, to as int), c, 0),
        forall|i: int| from <= i < at ==> chars[i] != c,
        at < to ==> chars[at as int] == c,
{
    let mut i: usize = from;
    while i < to && chars[i] != c
        invariant
            from <= i <= to <= chars.len(),
            forall|k: int| from <= k < i ==> chars[k] != c,
        decreases to - i,
    {
        i += 1;
    }
    proof {
        let piece = chars@.subrange(from as int, to as int);
        lemma_find(piece, c, 0);
        let f = find(piece, c, 0);
        if f < i - from {
            assert(piece[f] == chars[from + f]);
        }
        if i - from < f {
            assert(piece[i - from] == chars[i as int]);
        }
    }
    i
}

/// The ranges of the fields of `chars[lo..hi]` that `sep` separates.
pub(crate) fn split_ranges(chars: &Vec<char>, lo: usize, hi: usize, sep: char) -> (ranges: Vec<
    (usize, usize),
>)
    requires
        lo <= hi <= chars.len(),
    ensures
        cut(chars@, ranges@) == split(chars@.subrange(lo as int, hi as int), sep),
        ranges_within(ranges@, lo as int, hi as int),
{
    let mut ranges: Vec<(usize, usize)> = Vec::new();
    let mut start: usize = lo;
    loop
        invariant
            lo <= start <= hi <= chars.len(),
            ranges_within(ranges@, lo as int, hi as int),
            split(chars@.subrange(lo as int, hi as int), sep) == cut(chars@, ranges@) + split(
                chars@.subrange(start as int, hi as int),
                sep,
            ),
        decreases hi - start,
    {
        let at = find_char(chars, sep, start, hi);
        let ghost before = ranges@;
        let ghost rest = chars@.subrange(start as int, hi as int);
        ranges.push((start, at));
        proof {
            assert(cut(chars@, ranges@) == cut(chars@, before) + seq![
                chars@.subrange(start as int, at as int),
            ]);
            assert(rest.take(at - start) == chars@.subrange(start as int, at as int));
        }
        if at == hi {
            proof {
                assert(rest.take(at - start) == rest);
                assert(split(rest, sep) == seq![rest]);
            }
            return ranges;
        }
        proof {
            assert(rest.skip(at - start + 1) == chars@.subrange(at + 1, hi as int));
            assert(split(rest, sep) == seq![rest.take(at - start)] + split(
                rest.skip(at - start + 1),
                sep,
            ));
        }
        start = at + 1;
    }
}

/// A copy of `chars[lo..hi]`.
pub(crate) fn copy_range(chars: &Vec<char>, lo: usize, hi: usize) -> (piece: Vec<char>)
    requires
        lo <= hi <= chars.len(),
    ensures
        piece@ == chars@.subrange(lo as int, hi as int),
{
    let mut piece: Vec<char> = Vec::new();
    let mut i: usize = lo;
    while i < hi
        invariant
            lo <= i <= hi <= chars.len(),
            piece@ == chars@.subrange(lo as int, i as int),
        decreases hi - i,
    {
        piece.push(chars[i]);
        i += 1;
        assert(piece@ == chars@.subrange(lo as int, i as int));
    }
    piece
}

/// `chars` without the white space at its two ends.
pub fn trimmed(chars: &Vec<char>) -> (t: Vec<char>)
    ensures
        t@ == trim(chars@),
{
    let lo = skip_spaces(chars, 0);
    let hi = skip_spaces_back(chars, lo, chars.len());
    copy_range(chars, lo, hi)
}

} // verus!
