//! The edges for the greens 180 to 189.

use crate::margin::{edges_hold, is_clear, lemma_row_is_clear, row_holds};
use vstd::prelude::*;

verus! {

/// The edges for the green 180 and the reds from 184.
const EDGES_180: [u8; 50] = [
    255, 253, 251, 249, 247, 245, 242, 240, 238, 236, 234, 231, 229, 226, 224, 221,
    219, 216, 213, 211, 208, 205, 202, 199, 196, 192, 189, 186, 182, 178, 175, 171,
    167, 162, 158, 153, 149, 144, 138, 133, 127, 120, 113, 106, 98, 88, 77, 64,
    47, 15,
];

/// For the green 180, the class of every colour is beyond the reach of
/// rounding.
proof fn lemma_green_180(r: int, b: int)
    requires
        0 <= r <= 255,
        0 <= b <= 255,
    ensures
        is_clear(r, 180, b),
{
    assert(row_holds(180, 184, EDGES_180@)) by {
        reveal_with_fuel(edges_hold, 17);
        assert(edges_hold(180, 184, EDGES_180@, 0, 16));
        assert(edges_hold(180, 184, EDGES_180@, 16, 32));
        assert(edges_hold(180, 184, EDGES_180@, 32, 48));
        assert(edges_hold(180, 184, EDGES_180@, 48, 64));
    }
    lemma_row_is_clear(180, 184, EDGES_180@, r, b);
}

/// The edges for the green 181 and the reds from 181.
const EDGES_181: [u8; 50] = [
    254, 252, 250, 248, 246, 244, 242, 240, 238, 236, 233, 231, 229, 226, 224, 221,
    219, 216, 214, 211, 208, 205, 202, 199, 196, 193, 190, 186, 183, 179, 176, 172,
    168, 164, 160, 155, 150, 146, 140, 135, 129, 123, 117, 110, 102, 93, 83, 72,
    57, 37,
];

/// For the green 181, the class of every colour is beyond the reach of
/// rounding.
proof fn lemma_green_181(r: int, b: int)
    requires
        0 <= r <= 255,
        0 <= b <= 255,
    ensures
        is_clear(r, 181, b),
{
    assert(row_holds(181, 181, EDGES_181@)) by {
        reveal_with_fuel(edges_hold, 17);
        assert(edges_hold(181, 181, EDGES_181@, 0, 16));
        assert(edges_hold(181, 181, EDGES_181@, 16, 32));
        assert(edges_hold(181, 181, EDGES_181@, 32, 48));
        assert(edges_hold(181, 181, EDGES_181@, 48, 64));
    }
    lemma_row_is_clear(181, 181, EDGES_181@, r, b);
}

/// The edges for the green 182 and the reds from 177.
const EDGES_182: [u8; 52] = [
    255, 253, 251, 250, 248, 246, 244, 242, 239, 237, 235, 233, 231, 228, 226, 224,
    221, 219, 216, 214, 211, 208, 205, 203, 200, 197, 193, 190, 187, 184, 180, 176,
    173, 169, 165, 161, 156, 152, 147, 142, 137, 131, 126, 119, 113, 105, 97, 88,
    78, 65, 48, 20,
];

/// For the green 182, the class of every colour is beyond the reach of
/// rounding.
proof fn lemma_green_182(r: int, b: int)
    requires
        0 <= r <= 255,
        0 <= b <= 255,
    ensures
        is_clear(r, 182, b),
{
    assert(row_holds(182, 177, EDGES_182@)) by {
        reveal_with_fuel(edges_hold, 17);
        assert(edges_hold(182, 177, EDGES_182@, 0, 16));
        assert(edges_hold(182, 177, EDGES_182@, 16, 32));
        assert(edges_hold(182, 177, EDGES_182@, 32, 48));
        assert(edges_hold(182, 177, EDGES_182@, 48, 64));
    }
    lemma_row_is_clear(182, 177, EDGES_182@, r, b);
}

/// The edges for the green 183 and the reds from 174.
const EDGES_183: [u8; 52] = [
    254, 252, 251, 249, 247, 245, 243, 241, 239, 237, 235, 232, 230, 228, 226, 223,
    221, 218, 216, 213, 211, 208, 205, 202, 200, 197, 194, 190, 187, 184, 181, 177,
    173, 170, 166, 162, 157, 153, 148, 144, 139, 133, 128, 122, 115, 108, 100, 92,
    82, 71, 57, 36,
];

/// For the green 183, the class of every colour is beyond the reach of
/// rounding.
proof fn lemma_green_183(r: int, b: int)
    requires
        0 <= r <= 255,
        0 <= b <= 255,
    ensures
        is_clear(r, 183, b),
{
    assert(row_holds(183, 174, EDGES_183@)) by {
        reveal_with_fuel(edges_hold, 17);
        assert(edges_hold(183, 174, EDGES_183@, 0, 16));
        assert(edges_hold(183, 174, EDGES_183@, 16, 32));
        assert(edges_hold(183, 174, EDGES_183@, 32, 48));
        assert(edges_hold(183, 174, EDGES_183@, 48, 64));
    }
    lemma_row_is_clear(183, 174, EDGES_183@, r, b);
}

/// The edges for the green 184 and the reds from 170.
const EDGES_184: [u8; 54] = [
    255, 253, 251, 249, 248, 246, 244, 242, 240, 238, 236, 234, 232, 229, 227, 225,
    223, 220, 218, 215, 213, 210, 208, 205, 202, 199, 196, 193, 190, 187, 184, 181,
    177, 174, 170, 166, 162, 158, 154, 149, 145, 140, 135, 129, 123, 117, 110, 103,
    95, 86, 75, 62, 45, 14,
];

/// For the green 184, the class of every colour is beyond the reach of
/// rounding.
proof fn lemma_green_184(r: int, b: int)
    requires
        0 <= r <= 255,
        0 <= b <= 255,
    ensures
        is_clear(r, 184, b),
{
    assert(row_holds(184, 170, EDGES_184@)) by {
        reveal_with_fuel(edges_hold, 17);
        assert(edges_hold(184, 170, EDGES_184@, 0, 16));
        assert(edges_hold(184, 170, EDGES_184@, 16, 32));
        assert(edges_hold(184, 170, EDGES_184@, 32, 48));
        assert(edges_hold(184, 170, EDGES_184@, 48, 64));
    }
    lemma_row_is_clear(184, 170, EDGES_184@, r, b);
}

/// The edges for the green 185 and the reds from 166.
const EDGES_185: [u8; 55] = [
    255, 253, 252, 250, 248, 246, 244, 243, 241, 239, 237, 235, 233, 231, 228, 226,
    224, 222, 219, 217, 215, 212, 210, 207, 204, 202, 199, 196, 193, 190, 187, 184,
    181, 177, 174, 170, 166, 162, 158, 154, 150, 145, 140, 135, 130, 124, 118, 112,
    105, 97, 88, 79, 67, 52, 29,
];

/// For the green 185, the class of every colour is beyond the reach of
/// rounding.
proof fn lemma_green_185(r: int, b: int)
    requires
        0 <= r <= 255,
        0 <= b <= 255,
    ensures
        is_clear(r, 185, b),
{
    assert(row_holds(185, 166, EDGES_185@)) by {
        reveal_with_fuel(edges_hold, 17);
        assert(edges_hold(185, 166, EDGES_185@, 0, 16));
        assert(edges_hold(185, 166, EDGES_185@, 16, 32));
        assert(edges_hold(185, 166, EDGES_185@, 32, 48));
        assert(edges_hold(185, 166, EDGES_185@, 48, 64));
    }
    lemma_row_is_clear(185, 166, EDGES_185@, r, b);
}

/// The edges for the green 186 and the reds from 162.
const EDGES_186: [u8; 56] = [
    255, 254, 252, 250, 248, 247, 245, 243, 241, 239, 237, 235, 234, 231, 229, 227,
    225, 223, 221, 218, 216, 214, 211, 209, 206, 204, 201, 198, 195, 193, 190, 186,
    183, 180, 177, 173, 170, 166, 162, 158, 154, 150, 146, 141, 136, 131, 125, 119,
    113, 106, 99, 90, 81, 70, 56, 37,
];

/// For the green 186, the class of every colour is beyond the reach of
/// rounding.
proof fn lemma_green_186(r: int, b: int)
    requires
        0 <= r <= 255,
        0 <= b <= 255,
    ensures
        is_clear(r, 186, b),
{
    assert(row_holds(186, 162, EDGES_186@)) by {
        reveal_with_fuel(edges_hold, 17);
        assert(edges_hold(186, 162, EDGES_186@, 0, 16));
        assert(edges_hold(186, 162, EDGES_186@, 16, 32));
        assert(edges_hold(186, 162, EDGES_186@, 32, 48));
        assert(edges_hold(186, 162, EDGES_186@, 48, 64));
    }
    lemma_row_is_clear(186, 162, EDGES_186@, r, b);
}

/// The edges for the green 187 and the reds from 158.
const EDGES_187: [u8; 58] = [
    255, 253, 252, 250, 249, 247, 245, 243, 242, 240, 238, 236, 234, 232, 230, 228,
    226, 224, 222, 219, 217, 215, 213, 210, 208, 205, 203, 200, 197, 194, 192, 189,
    186, 183, 179, 176, 173, 169, 166, 162, 158, 154, 150, 145, 141, 136, 131, 125,
    120, 114, 107, 100, 92, 83, 72, 59, 42, 6,
];

/// For the green 187, the class of every colour is beyond the reach of
/// rounding.
proof fn lemma_green_187(r: int, b: int)
    requires
        0 <= r <= 255,
        0 <= b <= 255,
    ensures
        is_clear(r, 187, b),
{
    assert(row_holds(187, 158, EDGES_187@)) by {
        reveal_with_fuel(edges_hold, 17);
        assert(edges_hold(187, 158, EDGES_187@, 0, 16));
        assert(edges_hold(187, 158, EDGES_187@, 16, 32));
        assert(edges_hold(187, 158, EDGES_187@, 32, 48));
        assert(edges_hold(187, 158, EDGES_187@, 48, 64));
    }
    lemma_row_is_clear(187, 158, EDGES_187@, r, b);
}

/// The edges for the green 188 and the reds from 154.
const EDGES_188: [u8; 59] = [
    255, 253, 252, 250, 248, 247, 245, 243, 242, 240, 238, 236, 234, 232, 230, 228,
    226, 224, 222, 220, 218, 216, 213, 211, 209, 206, 204, 201, 199, 196, 193, 191,
    188, 185, 182, 179, 175, 172, 168, 165, 161, 157, 153, 149, 145, 140, 136, 131,
    125, 120, 114, 107, 100, 92, 83, 73, 61, 45, 16,
];

/// For the green 188, the class of every colour is beyond the reach of
/// rounding.
proof fn lemma_green_188(r: int, b: int)
    requires
        0 <= r <= 255,
        0 <= b <= 255,
    ensures
        is_clear(r, 188, b),
{
    assert(row_holds(188, 154, EDGES_188@)) by {
        reveal_with_fuel(edges_hold, 17);
        assert(edges_hold(188, 154, EDGES_188@, 0, 16));
        assert(edges_hold(188, 154, EDGES_188@, 16, 32));
        assert(edges_hold(188, 154, EDGES_188@, 32, 48));
        assert(edges_hold(188, 154, EDGES_188@, 48, 64));
    }
    lemma_row_is_clear(188, 154, EDGES_188@, r, b);
}

/// The edges for the green 189 and the reds from 149.
const EDGES_189: [u8; 61] = [
    255, 254, 252, 251, 249, 248, 246, 245, 243, 241, 240, 238, 236, 234, 232, 230,
    229, 227, 225, 223, 221, 218, 216, 214, 212, 210, 207, 205, 202, 200, 197, 195,
    192, 189, 186, 183, 180, 177, 174, 171, 167, 164, 160, 156, 153, 148, 144, 140,
    135, 130, 125, 119, 113, 107, 100, 92, 84, 74, 62, 46, 20,
];

/// For the green 189, the class of every colour is beyond the reach of
/// rounding.
proof fn lemma_green_189(r: int, b: int)
    requires
        0 <= r <= 255,
        0 <= b <= 255,
    ensures
        is_clear(r, 189, b),
{
    assert(row_holds(189, 149, EDGES_189@)) by {
        reveal_with_fuel(edges_hold, 17);
        assert(edges_hold(189, 149, EDGES_189@, 0, 16));
        assert(edges_hold(189, 149, EDGES_189@, 16, 32));
        assert(edges_hold(189, 149, EDGES_189@, 32, 48));
        assert(edges_hold(189, 149, EDGES_189@, 48, 64));
    }
    lemma_row_is_clear(189, 149, EDGES_189@, r, b);
}

/// For the greens 180 to 189, the class of every colour is beyond the
/// reach of rounding.
pub proof fn lemma_greens_are_clear(r: int, g: int, b: int)
    requires
        0 <= r <= 255,
        180 <= g <= 189,
        0 <= b <= 255,
    ensures
        is_clear(r, g, b),
{
    if g == 180 {
        lemma_green_180(r, b);
    } else if g == 181 {
        lemma_green_181(r, b);
    } else if g == 182 {
        lemma_green_182(r, b);
    } else if g == 183 {
        lemma_green_183(r, b);
    } else if g == 184 {
        lemma_green_184(r, b);
    } else if g == 185 {
        lemma_green_185(r, b);
    } else if g == 186 {
        lemma_green_186(r, b);
    } else if g == 187 {
        lemma_green_187(r, b);
    } else if g == 188 {
        lemma_green_188(r, b);
    } else {
        lemma_green_189(r, b);
    }
}

} // verus!
