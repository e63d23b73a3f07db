//! The edges for the greens 190 to 199.

use crate::margin::{edges_hold, is_clear, lemma_row_is_clear, row_holds};
use vstd::prelude::*;

verus! {

/// The edges for the green 190 and the reds from 145.
const EDGES_190: [u8; 62] = [
    254, 253, 252, 250, 249, 247, 246, 244, 242, 241, 239, 237, 236, 234, 232, 230,
    228, 227, 225, 223, 221, 219, 216, 214, 212, 210, 208, 205, 203, 201, 198, 196,
    193, 190, 188, 185, 182, 179, 176, 173, 169, 166, 162, 159, 155, 151, 147, 143,
    139, 134, 129, 124, 118, 112, 106, 99, 92, 83, 73, 61, 46, 21,
];

/// For the green 190, the class of every colour is beyond the reach of
/// rounding.
proof fn lemma_green_190(r: int, b: int)
    requires
        0 <= r <= 255,
        0 <= b <= 255,
    ensures
        is_clear(r, 190, b),
{
    assert(row_holds(190, 145, EDGES_190@)) by {
        reveal_with_fuel(edges_hold, 17);
        assert(edges_hold(190, 145, EDGES_190@, 0, 16));
        assert(edges_hold(190, 145, EDGES_190@, 16, 32));
        assert(edges_hold(190, 145, EDGES_190@, 32, 48));
        assert(edges_hold(190, 145, EDGES_190@, 48, 64));
    }
    lemma_row_is_clear(190, 145, EDGES_190@, r, b);
}

/// The edges for the green 191 and the reds from 140.
const EDGES_191: [u8; 64] = [
    255, 253, 252, 250, 249, 248, 246, 245, 243, 241, 240, 238, 237, 235, 233, 232,
    230, 228, 226, 224, 222, 220, 218, 216, 214, 212, 210, 208, 206, 203, 201, 199,
    196, 194, 191, 188, 186, 183, 180, 177, 174, 171, 168, 164, 161, 157, 153, 150,
    146, 141, 137, 132, 127, 122, 117, 111, 105, 98, 90, 82, 72, 60, 44, 18,
];

/// For the green 191, the class of every colour is beyond the reach of
/// rounding.
proof fn lemma_green_191(r: int, b: int)
    requires
        0 <= r <= 255,
        0 <= b <= 255,
    ensures
        is_clear(r, 191, b),
{
    assert(row_holds(191, 140, EDGES_191@)) by {
        reveal_with_fuel(edges_hold, 17);
        assert(edges_hold(191, 140, EDGES_191@, 0, 16));
        assert(edges_hold(191, 140, EDGES_191@, 16, 32));
        assert(edges_hold(191, 140, EDGES_191@, 32, 48));
        assert(edges_hold(191, 140, EDGES_191@, 48, 64));
    }
    lemma_row_is_clear(191, 140, EDGES_191@, r, b);
}

/// The edges for the green 192 and the reds from 135.
const EDGES_192: [u8; 66] = [
    254, 253, 252, 250, 249, 248, 246, 245, 243, 242, 240, 239, 237, 236, 234, 232,
    231, 229, 227, 225, 224, 222, 220, 218, 216, 214, 212, 210, 208, 206, 203, 201,
    199, 196, 194, 191, 189, 186, 183, 181, 178, 175, 172, 169, 166, 162, 159, 155,
    151, 148, 144, 139, 135, 130, 126, 120, 115, 109, 103, 96, 88, 80, 70, 57,
    41, 10,
];

/// For the green 192, the class of every colour is beyond the reach of
/// rounding.
proof fn lemma_green_192(r: int, b: int)
    requires
        0 <= r <= 255,
        0 <= b <= 255,
    ensures
        is_clear(r, 192, b),
{
    assert(row_holds(192, 135, EDGES_192@)) by {
        reveal_with_fuel(edges_hold, 17);
        assert(edges_hold(192, 135, EDGES_192@, 0, 16));
        assert(edges_hold(192, 135, EDGES_192@, 16, 32));
        assert(edges_hold(192, 135, EDGES_192@, 32, 48));
        assert(edges_hold(192, 135, EDGES_192@, 48, 64));
        assert(edges_hold(192, 135, EDGES_192@, 64, 80));
    }
    lemma_row_is_clear(192, 135, EDGES_192@, r, b);
}

/// The edges for the green 193 and the reds from 129.
const EDGES_193: [u8; 68] = [
    255, 254, 253, 251, 250, 249, 247, 246, 245, 243, 242, 240, 239, 237, 236, 234,
    233, 231, 229, 228, 226, 224, 223, 221, 219, 217, 215, 213, 211, 209, 207, 205,
    203, 201, 198, 196, 194, 191, 189, 186, 184, 181, 178, 175, 172, 169, 166, 163,
    160, 156, 153, 149, 145, 141, 137, 133, 128, 123, 118, 112, 107, 100, 93, 85,
    77, 66, 54, 36,
];

/// For the green 193, the class of every colour is beyond the reach of
/// rounding.
proof fn lemma_green_193(r: int, b: int)
    requires
        0 <= r <= 255,
        0 <= b <= 255,
    ensures
        is_clear(r, 193, b),
{
    assert(row_holds(193, 129, EDGES_193@)) by {
        reveal_with_fuel(edges_hold, 17);
        assert(edges_hold(193, 129, EDGES_193@, 0, 16));
        assert(edges_hold(193, 129, EDGES_193@, 16, 32));
        assert(edges_hold(193, 129, EDGES_193@, 32, 48));
        assert(edges_hold(193, 129, EDGES_193@, 48, 64));
        assert(edges_hold(193, 129, EDGES_193@, 64, 80));
    }
    lemma_row_is_clear(193, 129, EDGES_193@, r, b);
}

/// The edges for the green 194 and the reds from 123.
const EDGES_194: [u8; 71] = [
    255, 254, 253, 252, 251, 249, 248, 247, 245, 244, 243, 241, 240, 239, 237, 236,
    234, 233, 231, 230, 228, 226, 225, 223, 221, 220, 218, 216, 214, 212, 210, 208,
    206, 204, 202, 200, 198, 196, 193, 191, 188, 186, 183, 181, 178, 175, 173, 170,
    167, 164, 160, 157, 154, 150, 146, 142, 138, 134, 130, 125, 120, 115, 109, 103,
    97, 90, 82, 73, 62, 48, 27,
];

/// For the green 194, the class of every colour is beyond the reach of
/// rounding.
proof fn lemma_green_194(r: int, b: int)
    requires
        0 <= r <= 255,
        0 <= b <= 255,
    ensures
        is_clear(r, 194, b),
{
    assert(row_holds(194, 123, EDGES_194@)) by {
        reveal_with_fuel(edges_hold, 17);
        assert(edges_hold(194, 123, EDGES_194@, 0, 16));
        assert(edges_hold(194, 123, EDGES_194@, 16, 32));
        assert(edges_hold(194, 123, EDGES_194@, 32, 48));
        assert(edges_hold(194, 123, EDGES_194@, 48, 64));
        assert(edges_hold(194, 123, EDGES_194@, 64, 80));
    }
    lemma_row_is_clear(194, 123, EDGES_194@, r, b);
}

/// The edges for the green 195 and the reds from 117.
const EDGES_195: [u8; 74] = [
    255, 254, 253, 252, 251, 249, 248, 247, 246, 245, 243, 242, 241, 239, 238, 237,
    235, 234, 232, 231, 229, 228, 226, 225, 223, 221, 220, 218, 216, 215, 213, 211,
    209, 207, 205, 203, 201, 199, 197, 195, 192, 190, 188, 185, 183, 180, 178, 175,
    172, 169, 167, 164, 160, 157, 154, 150, 147, 143, 139, 135, 131, 126, 122, 117,
    111, 106, 100, 93, 85, 77, 67, 56, 40, 11,
];

/// For the green 195, the class of every colour is beyond the reach of
/// rounding.
proof fn lemma_green_195(r: int, b: int)
    requires
        0 <= r <= 255,
        0 <= b <= 255,
    ensures
        is_clear(r, 195, b),
{
    assert(row_holds(195, 117, EDGES_195@)) by {
        reveal_with_fuel(edges_hold, 17);
        assert(edges_hold(195, 117, EDGES_195@, 0, 16));
        assert(edges_hold(195, 117, EDGES_195@, 16, 32));
        assert(edges_hold(195, 117, EDGES_195@, 32, 48));
        assert(edges_hold(195, 117, EDGES_195@, 48, 64));
        assert(edges_hold(195, 117, EDGES_195@, 64, 80));
    }
    lemma_row_is_clear(195, 117, EDGES_195@, r, b);
}

/// The edges for the green 196 and the reds from 110.
const EDGES_196: [u8; 77] = [
    255, 254, 253, 252, 251, 250, 249, 248, 247, 246, 244, 243, 242, 241, 240, 238,
    237, 236, 234, 233, 232, 230, 229, 227, 226, 224, 223, 221, 220, 218, 216, 215,
    213, 211, 209, 207, 206, 204, 202, 200, 198, 196, 193, 191, 189, 187, 184, 182,
    179, 177, 174, 172, 169, 166, 163, 160, 157, 154, 150, 147, 143, 139, 136, 131,
    127, 123, 118, 113, 107, 101, 95, 88, 80, 71, 61, 48, 28,
];

/// For the green 196, the class of every colour is beyond the reach of
/// rounding.
proof fn lemma_green_196(r: int, b: int)
    requires
        0 <= r <= 255,
        0 <= b <= 255,
    ensures
        is_clear(r, 196, b),
{
    assert(row_holds(196, 110, EDGES_196@)) by {
        reveal_with_fuel(edges_hold, 17);
        assert(edges_hold(196, 110, EDGES_196@, 0, 16));
        assert(edges_hold(196, 110, EDGES_196@, 16, 32));
        assert(edges_hold(196, 110, EDGES_196@, 32, 48));
        assert(edges_hold(196, 110, EDGES_196@, 48, 64));
        assert(edges_hold(196, 110, EDGES_196@, 64, 80));
    }
    lemma_row_is_clear(196, 110, EDGES_196@, r, b);
}

/// The edges for the green 197 and the reds from 103.
const EDGES_197: [u8; 81] = [
    255, 254, 253, 252, 251, 250, 249, 248, 247, 246, 245, 244, 243, 242, 240, 239,
    238, 237, 236, 234, 233, 232, 230, 229, 228, 226, 225, 223, 222, 220, 219, 217,
    216, 214, 212, 211, 209, 207, 205, 204, 202, 200, 198, 196, 194, 192, 190, 187,
    185, 183, 180, 178, 176, 173, 170, 168, 165, 162, 159, 156, 153, 150, 146, 143,
    139, 135, 131, 127, 123, 118, 113, 108, 102, 96, 89, 82, 74, 64, 52, 36,
    1,
];

/// For the green 197, the class of every colour is beyond the reach of
/// rounding.
proof fn lemma_green_197(r: int, b: int)
    requires
        0 <= r <= 255,
        0 <= b <= 255,
    ensures
        is_clear(r, 197, b),
{
    assert(row_holds(197, 103, EDGES_197@)) by {
        reveal_with_fuel(edges_hold, 17);
        assert(edges_hold(197, 103, EDGES_197@, 0, 16));
        assert(edges_hold(197, 103, EDGES_197@, 16, 32));
        assert(edges_hold(197, 103, EDGES_197@, 32, 48));
        assert(edges_hold(197, 103, EDGES_197@, 48, 64));
        assert(edges_hold(197, 103, EDGES_197@, 64, 80));
        assert(edges_hold(197, 103, EDGES_197@, 80, 96));
    }
    lemma_row_is_clear(197, 103, EDGES_197@, r, b);
}

/// The edges for the green 198 and the reds from 95.
const EDGES_198: [u8; 85] = [
    255, 254, 253, 252, 251, 251, 250, 249, 248, 247, 246, 245, 244, 243, 242, 241,
    240, 238, 237, 236, 235, 234, 233, 231, 230, 229, 228, 226, 225, 223, 222, 221,
    219, 218, 216, 215, 213, 212, 210, 208, 207, 205, 203, 201, 199, 198, 196, 194,
    192, 190, 188, 185, 183, 181, 179, 176, 174, 171, 169, 166, 163, 161, 158, 155,
    152, 149, 145, 142, 138, 134, 131, 126, 122, 118, 113, 108, 102, 96, 90, 83,
    75, 66, 54, 40, 13,
];

/// For the green 198, the class of every colour is beyond the reach of
/// rounding.
proof fn lemma_green_198(r: int, b: int)
    requires
        0 <= r <= 255,
        0 <= b <= 255,
    ensures
        is_clear(r, 198, b),
{
    assert(row_holds(198, 95, EDGES_198@)) by {
        reveal_with_fuel(edges_hold, 17);
        assert(edges_hold(198, 95, EDGES_198@, 0, 16));
        assert(edges_hold(198, 95, EDGES_198@, 16, 32));
        assert(edges_hold(198, 95, EDGES_198@, 32, 48));
        assert(edges_hold(198, 95, EDGES_198@, 48, 64));
        assert(edges_hold(198, 95, EDGES_198@, 64, 80));
        assert(edges_hold(198, 95, EDGES_198@, 80, 96));
    }
    lemma_row_is_clear(198, 95, EDGES_198@, r, b);
}

/// The edges for the green 199 and the reds from 86.
const EDGES_199: [u8; 90] = [
    255, 254, 253, 253, 252, 251, 250, 249, 248, 248, 247, 246, 245, 244, 243, 242,
    241, 240, 239, 238, 237, 236, 235, 234, 233, 232, 230, 229, 228, 227, 226, 224,
    223, 222, 220, 219, 218, 216, 215, 213, 212, 210, 209, 207, 205, 204, 202, 200,
    199, 197, 195, 193, 191, 189, 187, 185, 183, 181, 179, 176, 174, 172, 169, 167,
    164, 162, 159, 156, 153, 150, 147, 144, 140, 137, 133, 129, 125, 121, 116, 112,
    107, 101, 96, 89, 82, 75, 66, 55, 41, 17,
];

/// For the green 199, the class of every colour is beyond the reach of
/// rounding.
proof fn lemma_green_199(r: int, b: int)
    requires
        0 <= r <= 255,
        0 <= b <= 255,
    ensures
        is_clear(r, 199, b),
{
    assert(row_holds(199, 86, EDGES_199@)) by {
        reveal_with_fuel(edges_hold, 17);
        assert(edges_hold(199, 86, EDGES_199@, 0, 16));
        assert(edges_hold(199, 86, EDGES_199@, 16, 32));
        assert(edges_hold(199, 86, EDGES_199@, 32, 48));
        assert(edges_hold(199, 86, EDGES_199@, 48, 64));
        assert(edges_hold(199, 86, EDGES_199@, 64, 80));
        assert(edges_hold(199, 86, EDGES_199@, 80, 96));
    }
    lemma_row_is_clear(199, 86, EDGES_199@, r, b);
}

/// For the greens 190 to 199, the class of every colour is beyond the
/// reach of rounding.
pub proof fn lemma_greens_are_clear(r: int, g: int, b: int)
    requires
        0 <= r <= 255,
        190 <= g <= 199,
        0 <= b <= 255,
    ensures
        is_clear(r, g, b),
{
    if g == 190 {
        lemma_green_190(r, b);
    } else if g == 191 {
        lemma_green_191(r, b);
    } else if g == 192 {
        lemma_green_192(r, b);
    } else if g == 193 {
        lemma_green_193(r, b);
    } else if g == 194 {
        lemma_green_194(r, b);
    } else if g == 195 {
        lemma_green_195(r, b);
    } else if g == 196 {
        lemma_green_196(r, b);
    } else if g == 197 {
        lemma_green_197(r, b);
    } else if g == 198 {
        lemma_green_198(r, b);
    } else {
        lemma_green_199(r, b);
    }
}

} // verus!
