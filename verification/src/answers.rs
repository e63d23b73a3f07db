//! The answers of a terminal, written out, and what decoding them gives.
//!
//! [`crate::osc::decoded`] says how the bytes of an answer are read. This
//! module says the same from the other side: it writes an answer down from
//! its parts and proves what the reading of it is, and what is refused.

use crate::osc::{
    color_end, color_spec, decoded, ends_color, first_head_end, head_end, lemma_color_end,
    lemma_color_end_is, lemma_first_head_end, lemma_first_head_end_is, DecodeError, BEL, ESC,
};
use crate::text::{
    all_digits, all_spaces, is_digit, is_space, lemma_encode_utf8_of_two, lemma_spaces_end,
    lemma_spaces_end_is, spaces_end,
};
use vstd::prelude::*;
use vstd::utf8::{
    decode_utf8, decode_utf8_encode_utf8, encode_utf8, encode_utf8_decode_utf8,
    encode_utf8_valid_utf8, is_ascii_chars, is_ascii_chars_encode_utf8, is_continuation_byte,
    length_of_first_scalar, pop_first_scalar, valid_first_scalar, valid_utf8,
};

verus! {

/// The end of an answer that is one `BEL`.
pub open spec fn bel_end() -> Seq<char> {
    seq!['\x07']
}

/// The end of an answer that is an `ESC` and a backslash.
pub open spec fn st_end() -> Seq<char> {
    seq!['\x1b', '\\']
}

/// The answer that tells `color`, with the white space `gap` between `]`
/// and `11`, and with `end` behind the colour: `ESC ] 11 ; color end`.
pub open spec fn answer_text(gap: Seq<char>, color: Seq<char>, end: Seq<char>) -> Seq<char> {
    seq!['\x1b', ']'] + gap + seq!['1', '1', ';'] + color + end
}

/// The answer to another question than that for the background colour:
/// `ESC ] number ; rest`.
pub open spec fn other_answer_text(number: Seq<char>, rest: Seq<char>) -> Seq<char> {
    seq!['\x1b', ']'] + number + seq![';'] + rest
}

/// Whether `s` holds neither `BEL` nor `ESC`.
pub open spec fn free_of_ends(s: Seq<char>) -> bool {
    forall|i: int| 0 <= i < s.len() ==> !ends_color(#[trigger] s[i])
}

/// An end behind a text changes no run of white space that begins in the
/// text.
proof fn lemma_spaces_end_before_end(text: Seq<char>, end: Seq<char>, from: int)
    requires
        0 <= from <= text.len(),
        end == bel_end() || end == st_end(),
    ensures
        spaces_end(text + end, from) == spaces_end(text, from),
{
    let whole = text + end;
    let stop = spaces_end(text, from);
    lemma_spaces_end(text, from);
    assert forall|i: int| from <= i < stop implies is_space(#[trigger] whole[i]) by {
        assert(whole[i] == text[i]);
        assert(text.subrange(from, stop)[i - from] == text[i]);
    }
    if stop < text.len() {
        assert(whole[stop] == text[stop]);
    } else {
        assert(whole[stop] == end[0]);
    }
    lemma_spaces_end_is(whole, from, stop);
}

/// An end behind a text neither makes a head nor unmakes one.
proof fn lemma_head_end_before_end(text: Seq<char>, end: Seq<char>, at: int)
    requires
        0 <= at,
        end == bel_end() || end == st_end(),
    ensures
        head_end(text + end, at) == head_end(text, at),
{
    let whole = text + end;
    if at < text.len() {
        assert(whole[at] == text[at]);
        lemma_spaces_end_before_end(text, end, at + 1);
        lemma_spaces_end(text, at + 1);
        let number = spaces_end(text, at + 1);
        if number + 3 <= text.len() {
            assert(whole[number] == text[number]);
            assert(whole[number + 1] == text[number + 1]);
            assert(whole[number + 2] == text[number + 2]);
        } else if number + 3 <= whole.len() {
            assert(whole[number + 2] == end[number + 2 - text.len()]);
        }
    } else if at < whole.len() {
        assert(whole[at] == end[at - text.len()]);
    }
}

/// An end behind a text changes nothing about the first head.
proof fn lemma_first_head_end_before_end(text: Seq<char>, end: Seq<char>, from: int)
    requires
        0 <= from,
        end == bel_end() || end == st_end(),
    ensures
        first_head_end(text + end, from) == first_head_end(text, from),
    decreases (text + end).len() - from,
{
    if from < (text + end).len() {
        lemma_head_end_before_end(text, end, from);
        lemma_first_head_end_before_end(text, end, from + 1);
    }
}

/// An end behind a text is where a colour ends that would else have run to
/// the end of the text.
proof fn lemma_color_end_before_end(text: Seq<char>, end: Seq<char>, from: int)
    requires
        0 <= from <= text.len(),
        end == bel_end() || end == st_end(),
    ensures
        color_end(text + end, from) == color_end(text, from),
{
    let whole = text + end;
    let stop = color_end(text, from);
    lemma_color_end(text, from);
    assert forall|i: int| from <= i < stop implies !ends_color(#[trigger] whole[i]) by {
        assert(whole[i] == text[i]);
    }
    if stop < text.len() {
        assert(whole[stop] == text[stop]);
    } else {
        assert(whole[stop] == end[0]);
    }
    lemma_color_end_is(whole, from, stop);
}

/// The head of an answer is followed by the colour: where a head stands,
/// the colour begins inside the text.
proof fn lemma_head_end_is_inside(text: Seq<char>, from: int)
    requires
        0 <= from,
    ensures
        first_head_end(text, from) matches Some(start) ==> 0 <= start <= text.len(),
    decreases text.len() - from,
{
    if from < text.len() {
        if head_end(text, from) is Some {
            lemma_spaces_end(text, from + 1);
        } else {
            lemma_head_end_is_inside(text, from + 1);
        }
    }
}

/// Either end behind a text leaves the colour that the text tells as it
/// is: what is told runs up to the end in any case.
pub proof fn lemma_end_keeps_color(text: Seq<char>, end: Seq<char>)
    requires
        end == bel_end() || end == st_end(),
    ensures
        color_spec(text + end) == color_spec(text),
{
    lemma_first_head_end_before_end(text, end, 0);
    lemma_head_end_is_inside(text, 0);
    if let Some(start) = first_head_end(text, 0) {
        lemma_color_end_before_end(text, end, start);
        lemma_color_end(text, start);
        assert((text + end).subrange(start, color_end(text, start)) == text.subrange(
            start,
            color_end(text, start),
        ));
    }
}

/// An answer that ends with `BEL` and the same answer ending with `ESC` and
/// a backslash tell the same colour, or both tell none.
pub proof fn lemma_both_ends_tell_the_same(text: Seq<char>)
    ensures
        color_spec(text + bel_end()) == color_spec(text + st_end()),
{
    lemma_end_keeps_color(text, bel_end());
    lemma_end_keeps_color(text, st_end());
}

/// An answer tells the colour that was written into it, whichever of the
/// two ends it has, and also if it has none.
pub proof fn lemma_answer_tells_its_color(gap: Seq<char>, color: Seq<char>, end: Seq<char>)
    requires
        all_spaces(gap),
        free_of_ends(color),
        end == bel_end() || end == st_end() || end == Seq::<char>::empty(),
    ensures
        color_spec(answer_text(gap, color, end)) == Some(color),
{
    let text = answer_text(gap, color, Seq::empty());
    let number: int = 2 + gap.len() as int;
    let start: int = number + 3;
    assert(text.len() == start + color.len());
    assert(text[0] == '\x1b');
    assert(text[1] == ']');
    assert forall|i: int| 2 <= i < number implies is_space(#[trigger] text[i]) by {
        assert(text[i] == gap[i - 2]);
    }
    assert(text[number] == '1');
    assert(text[number + 1] == '1');
    assert(text[number + 2] == ';');
    lemma_spaces_end_is(text, 2, number);
    assert(head_end(text, 1) == Some(start));
    assert(head_end(text, 0) is None);
    lemma_first_head_end_is(text, 0, 1);
    assert forall|i: int| start <= i < text.len() implies !ends_color(#[trigger] text[i]) by {
        assert(text[i] == color[i - start]);
    }
    lemma_color_end_is(text, start, text.len() as int);
    assert(text.subrange(start, text.len() as int) == color);
    assert(color_spec(text) == Some(color));
    if end != Seq::<char>::empty() {
        lemma_end_keeps_color(text, end);
        assert(answer_text(gap, color, end) == text + end);
    } else {
        assert(answer_text(gap, color, end) == text);
    }
}

/// An answer to a question with another number than 11 tells no colour.
pub proof fn lemma_other_number_tells_none(number: Seq<char>, rest: Seq<char>)
    requires
        all_digits(number),
        number != seq!['1', '1'],
        forall|i: int| 0 <= i < rest.len() ==> #[trigger] rest[i] != ']',
    ensures
        color_spec(other_answer_text(number, rest)) is None,
{
    let text = other_answer_text(number, rest);
    let mark: int = 2 + number.len() as int;
    assert(text[mark] == ';');
    assert forall|at: int| 0 <= at implies #[trigger] head_end(text, at) is None by {
        if at == 1 {
            if number.len() > 0 {
                assert(text[2] == number[0]);
                assert(is_digit(number[0]));
            }
            lemma_spaces_end_is(text, 2, 2);
            if number.len() == 2 {
                assert(text[2] == number[0]);
                assert(text[3] == number[1]);
                if number[0] == '1' && number[1] == '1' {
                    assert(number =~= seq!['1', '1']);
                }
            } else if number.len() > 2 {
                assert(text[4] == number[2]);
                assert(is_digit(number[2]));
            }
        } else if at < text.len() {
            if at == 0 {
            } else if at < mark {
                assert(text[at] == number[at - 2]);
                assert(is_digit(number[at - 2]));
            } else if at > mark {
                assert(text[at] == rest[at - mark - 1]);
            }
        }
    }
    lemma_first_head_end(text, 0);
}

/// The bytes that encode a text are decoded to what the text tells.
pub proof fn lemma_decoded_text(text: Seq<char>)
    ensures
        decoded(encode_utf8(text)) == match color_spec(text) {
            Some(color) => Ok::<Seq<char>, DecodeError>(color),
            None => Err(DecodeError::NoColor),
        },
{
    encode_utf8_valid_utf8(text);
    encode_utf8_decode_utf8(text);
}

/// Bytes that are not well-formed UTF-8 are refused, and so is an answer
/// of no bytes at all.
pub proof fn lemma_no_text_is_refused(buf: Seq<u8>)
    ensures
        !valid_utf8(buf) ==> decoded(buf) == Err::<Seq<char>, DecodeError>(
            DecodeError::InvalidText,
        ),
        buf.len() == 0 ==> decoded(buf) == Err::<Seq<char>, DecodeError>(DecodeError::NoColor),
{
    if buf.len() == 0 {
        assert(valid_utf8(buf));
        assert(decode_utf8(buf) == Seq::<char>::empty());
    }
}

/// The two ends are the bytes `BEL`, and `ESC` with a backslash.
proof fn lemma_encoded_ends()
    ensures
        encode_utf8(bel_end()) == seq![BEL],
        encode_utf8(st_end()) == seq![ESC, 0x5cu8],
{
    assert(is_ascii_chars(bel_end()));
    assert(is_ascii_chars(st_end()));
    is_ascii_chars_encode_utf8(bel_end());
    is_ascii_chars_encode_utf8(st_end());
    assert(bel_end()[0] as u8 == BEL);
    assert(st_end()[0] as u8 == ESC);
    assert(st_end()[1] as u8 == 0x5cu8);
    assert(encode_utf8(bel_end()) =~= seq![BEL]);
    assert(encode_utf8(st_end()) =~= seq![ESC, 0x5cu8]);
}

/// Bytes that are well-formed with an end behind them are well-formed
/// without it: no character reaches into the end.
proof fn lemma_valid_before_end(buf: Seq<u8>, end: Seq<u8>)
    requires
        end == seq![BEL] || end == seq![ESC, 0x5cu8],
        valid_utf8(buf + end),
    ensures
        valid_utf8(buf),
    decreases buf.len(),
{
    if buf.len() > 0 {
        let whole = buf + end;
        let len = length_of_first_scalar(whole);
        assert(whole[0] == buf[0]);
        assert forall|i: int| buf.len() <= i < whole.len() implies !is_continuation_byte(
            #[trigger] whole[i],
        ) by {
            assert(whole[i] == end[i - buf.len()]);
        }
        assert(len <= buf.len()) by {
            if len > buf.len() {
                assert(!is_continuation_byte(whole[len - 1]));
            }
        }
        assert forall|i: int| 0 <= i < len implies whole[i] == buf[i] by {}
        if len >= 2 {
            assert(whole[1] == buf[1]);
        }
        if len >= 3 {
            assert(whole[2] == buf[2]);
        }
        if len >= 4 {
            assert(whole[3] == buf[3]);
        }
        assert(valid_first_scalar(buf));
        assert(pop_first_scalar(whole) == pop_first_scalar(buf) + end);
        lemma_valid_before_end(pop_first_scalar(buf), end);
    }
}

/// The bytes of an answer that ends with `BEL` and the same bytes ending
/// with `ESC` and a backslash are decoded alike: to the same colour, or to
/// the same refusal. So are the bytes without either end.
pub proof fn lemma_both_ends_are_decoded_alike(buf: Seq<u8>)
    ensures
        decoded(buf + seq![BEL]) == decoded(buf + seq![ESC, 0x5cu8]),
        decoded(buf + seq![BEL]) == decoded(buf),
{
    if valid_utf8(buf) {
        let text = decode_utf8(buf);
        decode_utf8_encode_utf8(buf);
        lemma_encoded_ends();
        lemma_encode_utf8_of_two(text, bel_end());
        lemma_encode_utf8_of_two(text, st_end());
        lemma_decoded_text(text + bel_end());
        lemma_decoded_text(text + st_end());
        lemma_decoded_text(text);
        lemma_end_keeps_color(text, bel_end());
        lemma_end_keeps_color(text, st_end());
    } else {
        if valid_utf8(buf + seq![BEL]) {
            lemma_valid_before_end(buf, seq![BEL]);
        }
        if valid_utf8(buf + seq![ESC, 0x5cu8]) {
            lemma_valid_before_end(buf, seq![ESC, 0x5cu8]);
        }
    }
}

} // verus!
