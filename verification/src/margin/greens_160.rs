//! The edges for the greens 160 to 169.

use crate::margin::{edges_hold, is_clear, lemma_row_is_clear, row_holds};
use vstd::prelude::*;

verus! {

/// The edges for the green 160 and the reds from 235.
const EDGES_160: [u8; 21] = [
    255, 252, 250, 247, 244, 241, 238, 235, 232, 229, 226, 222, 219, 215, 212, 208,
    204, 200, 196, 192, 188,
];

/// For the green 160, the class of every colour is beyond the reach of
/// rounding.
proof fn lemma_green_160(r: int, b: int)
    requires
        0 <= r <= 255,
        0 <= b <= 255,
    ensures
        is_clear(r, 160, b),
{
    assert(row_holds(160, 235, EDGES_160@)) by {
        reveal_with_fuel(edges_hold, 17);
        assert(edges_hold(160, 235, EDGES_160@, 0, 16));
        assert(edges_hold(160, 235, EDGES_160@, 16, 32));
    }
    lemma_row_is_clear(160, 235, EDGES_160@, r, b);
}

/// The edges for the green 161 and the reds from 233.
const EDGES_161: [u8; 23] = [
    255, 252, 250, 247, 244, 241, 238, 235, 232, 229, 226, 223, 219, 216, 212, 208,
    205, 201, 197, 193, 188, 184, 179,
];

/// For the green 161, the class of every colour is beyond the reach of
/// rounding.
proof fn lemma_green_161(r: int, b: int)
    requires
        0 <= r <= 255,
        0 <= b <= 255,
    ensures
        is_clear(r, 161, b),
{
    assert(row_holds(161, 233, EDGES_161@)) by {
        reveal_with_fuel(edges_hold, 17);
        assert(edges_hold(161, 233, EDGES_161@, 0, 16));
        assert(edges_hold(161, 233, EDGES_161@, 16, 32));
    }
    lemma_row_is_clear(161, 233, EDGES_161@, r, b);
}

/// The edges for the green 162 and the reds from 231.
const EDGES_162: [u8; 25] = [
    255, 252, 249, 247, 244, 241, 238, 235, 232, 229, 226, 223, 219, 216, 212, 209,
    205, 201, 197, 193, 189, 185, 180, 175, 170,
];

/// For the green 162, the class of every colour is beyond the reach of
/// rounding.
proof fn lemma_green_162(r: int, b: int)
    requires
        0 <= r <= 255,
        0 <= b <= 255,
    ensures
        is_clear(r, 162, b),
{
    assert(row_holds(162, 231, EDGES_162@)) by {
        reveal_with_fuel(edges_hold, 17);
        assert(edges_hold(162, 231, EDGES_162@, 0, 16));
        assert(edges_hold(162, 231, EDGES_162@, 16, 32));
    }
    lemma_row_is_clear(162, 231, EDGES_162@, r, b);
}

/// The edges for the green 163 and the reds from 229.
const EDGES_163: [u8; 27] = [
    254, 252, 249, 246, 244, 241, 238, 235, 232, 229, 226, 223, 219, 216, 212, 209,
    205, 201, 198, 193, 189, 185, 181, 176, 171, 166, 161,
];

/// For the green 163, the class of every colour is beyond the reach of
/// rounding.
proof fn lemma_green_163(r: int, b: int)
    requires
        0 <= r <= 255,
        0 <= b <= 255,
    ensures
        is_clear(r, 163, b),
{
    assert(row_holds(163, 229, EDGES_163@)) by {
        reveal_with_fuel(edges_hold, 17);
        assert(edges_hold(163, 229, EDGES_163@, 0, 16));
        assert(edges_hold(163, 229, EDGES_163@, 16, 32));
    }
    lemma_row_is_clear(163, 229, EDGES_163@, r, b);
}

/// The edges for the green 164 and the reds from 227.
const EDGES_164: [u8; 29] = [
    254, 251, 249, 246, 243, 241, 238, 235, 232, 229, 226, 222, 219, 216, 212, 209,
    205, 201, 198, 194, 190, 185, 181, 176, 171, 167, 161, 156, 150,
];

/// For the green 164, the class of every colour is beyond the reach of
/// rounding.
proof fn lemma_green_164(r: int, b: int)
    requires
        0 <= r <= 255,
        0 <= b <= 255,
    ensures
        is_clear(r, 164, b),
{
    assert(row_holds(164, 227, EDGES_164@)) by {
        reveal_with_fuel(edges_hold, 17);
        assert(edges_hold(164, 227, EDGES_164@, 0, 16));
        assert(edges_hold(164, 227, EDGES_164@, 16, 32));
    }
    lemma_row_is_clear(164, 227, EDGES_164@, r, b);
}

/// The edges for the green 165 and the reds from 225.
const EDGES_165: [u8; 31] = [
    253, 251, 248, 246, 243, 240, 237, 234, 231, 228, 225, 222, 219, 216, 212, 209,
    205, 201, 198, 194, 190, 185, 181, 176, 172, 167, 162, 156, 151, 145, 138,
];

/// For the green 165, the class of every colour is beyond the reach of
/// rounding.
proof fn lemma_green_165(r: int, b: int)
    requires
        0 <= r <= 255,
        0 <= b <= 255,
    ensures
        is_clear(r, 165, b),
{
    assert(row_holds(165, 225, EDGES_165@)) by {
        reveal_with_fuel(edges_hold, 17);
        assert(edges_hold(165, 225, EDGES_165@, 0, 16));
        assert(edges_hold(165, 225, EDGES_165@, 16, 32));
    }
    lemma_row_is_clear(165, 225, EDGES_165@, r, b);
}

/// The edges for the green 166 and the reds from 222.
const EDGES_166: [u8; 34] = [
    255, 253, 250, 248, 245, 242, 240, 237, 234, 231, 228, 225, 222, 219, 215, 212,
    208, 205, 201, 197, 194, 189, 185, 181, 177, 172, 167, 162, 157, 151, 145, 139,
    132, 125,
];

/// For the green 166, the class of every colour is beyond the reach of
/// rounding.
proof fn lemma_green_166(r: int, b: int)
    requires
        0 <= r <= 255,
        0 <= b <= 255,
    ensures
        is_clear(r, 166, b),
{
    assert(row_holds(166, 222, EDGES_166@)) by {
        reveal_with_fuel(edges_hold, 17);
        assert(edges_hold(166, 222, EDGES_166@, 0, 16));
        assert(edges_hold(166, 222, EDGES_166@, 16, 32));
        assert(edges_hold(166, 222, EDGES_166@, 32, 48));
    }
    lemma_row_is_clear(166, 222, EDGES_166@, r, b);
}

/// The edges for the green 167 and the reds from 220.
const EDGES_167: [u8; 36] = [
    254, 252, 249, 247, 244, 242, 239, 236, 233, 230, 227, 224, 221, 218, 215, 211,
    208, 204, 201, 197, 193, 189, 185, 181, 176, 172, 167, 162, 157, 151, 145, 139,
    133, 125, 118, 109,
];

/// For the green 167, the class of every colour is beyond the reach of
/// rounding.
proof fn lemma_green_167(r: int, b: int)
    requires
        0 <= r <= 255,
        0 <= b <= 255,
    ensures
        is_clear(r, 167, b),
{
    assert(row_holds(167, 220, EDGES_167@)) by {
        reveal_with_fuel(edges_hold, 17);
        assert(edges_hold(167, 220, EDGES_167@, 0, 16));
        assert(edges_hold(167, 220, EDGES_167@, 16, 32));
        assert(edges_hold(167, 220, EDGES_167@, 32, 48));
    }
    lemma_row_is_clear(167, 220, EDGES_167@, r, b);
}

/// The edges for the green 168 and the reds from 218.
const EDGES_168: [u8; 38] = [
    253, 251, 249, 246, 243, 241, 238, 235, 232, 230, 227, 224, 221, 217, 214, 211,
    207, 204, 200, 197, 193, 189, 185, 180, 176, 171, 167, 162, 157, 151, 145, 139,
    133, 126, 118, 110, 101, 90,
];

/// For the green 168, the class of every colour is beyond the reach of
/// rounding.
proof fn lemma_green_168(r: int, b: int)
    requires
        0 <= r <= 255,
        0 <= b <= 255,
    ensures
        is_clear(r, 168, b),
{
    assert(row_holds(168, 218, EDGES_168@)) by {
        reveal_with_fuel(edges_hold, 17);
        assert(edges_hold(168, 218, EDGES_168@, 0, 16));
        assert(edges_hold(168, 218, EDGES_168@, 16, 32));
        assert(edges_hold(168, 218, EDGES_168@, 32, 48));
    }
    lemma_row_is_clear(168, 218, EDGES_168@, r, b);
}

/// The edges for the green 169 and the reds from 215.
const EDGES_169: [u8; 41] = [
    255, 252, 250, 248, 245, 242, 240, 237, 234, 232, 229, 226, 223, 220, 217, 213,
    210, 207, 203, 200, 196, 192, 188, 184, 180, 176, 171, 166, 161, 156, 151, 145,
    139, 133, 126, 118, 110, 101, 91, 79, 64,
];

/// For the green 169, the class of every colour is beyond the reach of
/// rounding.
proof fn lemma_green_169(r: int, b: int)
    requires
        0 <= r <= 255,
        0 <= b <= 255,
    ensures
        is_clear(r, 169, b),
{
    assert(row_holds(169, 215, EDGES_169@)) by {
        reveal_with_fuel(edges_hold, 17);
        assert(edges_hold(169, 215, EDGES_169@, 0, 16));
        assert(edges_hold(169, 215, EDGES_169@, 16, 32));
        assert(edges_hold(169, 215, EDGES_169@, 32, 48));
    }
    lemma_row_is_clear(169, 215, EDGES_169@, r, b);
}

/// For the greens 160 to 169, the class of every colour is beyond the
/// reach of rounding.
pub proof fn lemma_greens_are_clear(r: int, g: int, b: int)
    requires
        0 <= r <= 255,
        160 <= g <= 169,
        0 <= b <= 255,
    ensures
        is_clear(r, g, b),
{
    if g == 160 {
        lemma_green_160(r, b);
    } else if g == 161 {
        lemma_green_161(r, b);
    } else if g == 162 {
        lemma_green_162(r, b);
    } else if g == 163 {
        lemma_green_163(r, b);
    } else if g == 164 {
        lemma_green_164(r, b);
    } else if g == 165 {
        lemma_green_165(r, b);
    } else if g == 166 {
        lemma_green_166(r, b);
    } else if g == 167 {
        lemma_green_167(r, b);
    } else if g == 168 {
        lemma_green_168(r, b);
    } else {
        lemma_green_169(r, b);
    }
}

} // verus!
