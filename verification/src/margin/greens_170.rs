//! The edges for the greens 170 to 179.

use crate::margin::{edges_hold, is_clear, lemma_row_is_clear, row_holds};
use vstd::prelude::*;

verus! {

/// The edges for the green 170 and the reds from 213.
const EDGES_170: [u8; 42] = [
    254, 251, 249, 246, 244, 241, 239, 236, 233, 231, 228, 225, 222, 219, 216, 213,
    209, 206, 202, 199, 195, 191, 188, 183, 179, 175, 170, 166, 161, 156, 150, 145,
    139, 132, 125, 118, 110, 101, 91, 79, 64, 44,
];

/// For the green 170, the class of every colour is beyond the reach of
/// rounding.
proof fn lemma_green_170(r: int, b: int)
    requires
        0 <= r <= 255,
        0 <= b <= 255,
    ensures
        is_clear(r, 170, b),
{
    assert(row_holds(170, 213, EDGES_170@)) by {
        reveal_with_fuel(edges_hold, 17);
        assert(edges_hold(170, 213, EDGES_170@, 0, 16));
        assert(edges_hold(170, 213, EDGES_170@, 16, 32));
        assert(edges_hold(170, 213, EDGES_170@, 32, 48));
    }
    lemma_row_is_clear(170, 213, EDGES_170@, r, b);
}

/// The edges for the green 171 and the reds from 210.
const EDGES_171: [u8; 43] = [
    255, 252, 250, 248, 245, 243, 240, 238, 235, 232, 230, 227, 224, 221, 218, 215,
    212, 208, 205, 201, 198, 194, 191, 187, 183, 178, 174, 170, 165, 160, 155, 150,
    144, 138, 132, 125, 117, 109, 100, 90, 79, 64, 44,
];

/// For the green 171, the class of every colour is beyond the reach of
/// rounding.
proof fn lemma_green_171(r: int, b: int)
    requires
        0 <= r <= 255,
        0 <= b <= 255,
    ensures
        is_clear(r, 171, b),
{
    assert(row_holds(171, 210, EDGES_171@)) by {
        reveal_with_fuel(edges_hold, 17);
        assert(edges_hold(171, 210, EDGES_171@, 0, 16));
        assert(edges_hold(171, 210, EDGES_171@, 16, 32));
        assert(edges_hold(171, 210, EDGES_171@, 32, 48));
    }
    lemma_row_is_clear(171, 210, EDGES_171@, r, b);
}

/// The edges for the green 172 and the reds from 208.
const EDGES_172: [u8; 43] = [
    253, 251, 249, 246, 244, 241, 239, 236, 234, 231, 228, 225, 223, 220, 217, 214,
    210, 207, 204, 200, 197, 193, 189, 186, 182, 177, 173, 169, 164, 159, 154, 149,
    143, 137, 131, 124, 117, 108, 100, 89, 78, 63, 43,
];

/// For the green 172, the class of every colour is beyond the reach of
/// rounding.
proof fn lemma_green_172(r: int, b: int)
    requires
        0 <= r <= 255,
        0 <= b <= 255,
    ensures
        is_clear(r, 172, b),
{
    assert(row_holds(172, 208, EDGES_172@)) by {
        reveal_with_fuel(edges_hold, 17);
        assert(edges_hold(172, 208, EDGES_172@, 0, 16));
        assert(edges_hold(172, 208, EDGES_172@, 16, 32));
        assert(edges_hold(172, 208, EDGES_172@, 32, 48));
    }
    lemma_row_is_clear(172, 208, EDGES_172@, r, b);
}

/// The edges for the green 173 and the reds from 205.
const EDGES_173: [u8; 44] = [
    254, 252, 250, 247, 245, 243, 240, 238, 235, 232, 230, 227, 224, 221, 218, 215,
    212, 209, 206, 203, 199, 196, 192, 188, 184, 180, 176, 172, 167, 163, 158, 153,
    148, 142, 136, 130, 123, 115, 107, 98, 88, 76, 62, 41,
];

/// For the green 173, the class of every colour is beyond the reach of
/// rounding.
proof fn lemma_green_173(r: int, b: int)
    requires
        0 <= r <= 255,
        0 <= b <= 255,
    ensures
        is_clear(r, 173, b),
{
    assert(row_holds(173, 205, EDGES_173@)) by {
        reveal_with_fuel(edges_hold, 17);
        assert(edges_hold(173, 205, EDGES_173@, 0, 16));
        assert(edges_hold(173, 205, EDGES_173@, 16, 32));
        assert(edges_hold(173, 205, EDGES_173@, 32, 48));
    }
    lemma_row_is_clear(173, 205, EDGES_173@, r, b);
}

/// The edges for the green 174 and the reds from 202.
const EDGES_174: [u8; 45] = [
    255, 253, 250, 248, 246, 243, 241, 238, 236, 233, 231, 228, 225, 223, 220, 217,
    214, 211, 208, 204, 201, 198, 194, 191, 187, 183, 179, 175, 171, 166, 161, 157,
    152, 146, 141, 135, 128, 121, 114, 106, 97, 87, 75, 59, 38,
];

/// For the green 174, the class of every colour is beyond the reach of
/// rounding.
proof fn lemma_green_174(r: int, b: int)
    requires
        0 <= r <= 255,
        0 <= b <= 255,
    ensures
        is_clear(r, 174, b),
{
    assert(row_holds(174, 202, EDGES_174@)) by {
        reveal_with_fuel(edges_hold, 17);
        assert(edges_hold(174, 202, EDGES_174@, 0, 16));
        assert(edges_hold(174, 202, EDGES_174@, 16, 32));
        assert(edges_hold(174, 202, EDGES_174@, 32, 48));
    }
    lemma_row_is_clear(174, 202, EDGES_174@, r, b);
}

/// The edges for the green 175 and the reds from 199.
const EDGES_175: [u8; 46] = [
    255, 253, 251, 249, 246, 244, 242, 239, 237, 234, 232, 229, 227, 224, 221, 218,
    215, 212, 209, 206, 203, 200, 196, 193, 189, 185, 181, 177, 173, 169, 165, 160,
    155, 150, 145, 139, 133, 127, 120, 112, 104, 95, 84, 72, 56, 33,
];

/// For the green 175, the class of every colour is beyond the reach of
/// rounding.
proof fn lemma_green_175(r: int, b: int)
    requires
        0 <= r <= 255,
        0 <= b <= 255,
    ensures
        is_clear(r, 175, b),
{
    assert(row_holds(175, 199, EDGES_175@)) by {
        reveal_with_fuel(edges_hold, 17);
        assert(edges_hold(175, 199, EDGES_175@, 0, 16));
        assert(edges_hold(175, 199, EDGES_175@, 16, 32));
        assert(edges_hold(175, 199, EDGES_175@, 32, 48));
    }
    lemma_row_is_clear(175, 199, EDGES_175@, r, b);
}

/// The edges for the green 176 and the reds from 196.
const EDGES_176: [u8; 47] = [
    255, 253, 251, 249, 247, 245, 242, 240, 237, 235, 233, 230, 227, 225, 222, 219,
    216, 213, 211, 207, 204, 201, 198, 194, 191, 187, 184, 180, 176, 172, 167, 163,
    158, 153, 148, 143, 137, 131, 125, 118, 110, 102, 92, 82, 69, 53, 26,
];

/// For the green 176, the class of every colour is beyond the reach of
/// rounding.
proof fn lemma_green_176(r: int, b: int)
    requires
        0 <= r <= 255,
        0 <= b <= 255,
    ensures
        is_clear(r, 176, b),
{
    assert(row_holds(176, 196, EDGES_176@)) by {
        reveal_with_fuel(edges_hold, 17);
        assert(edges_hold(176, 196, EDGES_176@, 0, 16));
        assert(edges_hold(176, 196, EDGES_176@, 16, 32));
        assert(edges_hold(176, 196, EDGES_176@, 32, 48));
    }
    lemma_row_is_clear(176, 196, EDGES_176@, r, b);
}

/// The edges for the green 177 and the reds from 193.
const EDGES_177: [u8; 48] = [
    255, 253, 251, 249, 247, 245, 243, 240, 238, 236, 233, 231, 228, 225, 223, 220,
    217, 214, 212, 209, 206, 202, 199, 196, 192, 189, 185, 182, 178, 174, 170, 165,
    161, 156, 151, 146, 141, 135, 129, 122, 115, 108, 99, 90, 79, 65, 47, 14,
];

/// For the green 177, the class of every colour is beyond the reach of
/// rounding.
proof fn lemma_green_177(r: int, b: int)
    requires
        0 <= r <= 255,
        0 <= b <= 255,
    ensures
        is_clear(r, 177, b),
{
    assert(row_holds(177, 193, EDGES_177@)) by {
        reveal_with_fuel(edges_hold, 17);
        assert(edges_hold(177, 193, EDGES_177@, 0, 16));
        assert(edges_hold(177, 193, EDGES_177@, 16, 32));
        assert(edges_hold(177, 193, EDGES_177@, 32, 48));
    }
    lemma_row_is_clear(177, 193, EDGES_177@, r, b);
}

/// The edges for the green 178 and the reds from 190.
const EDGES_178: [u8; 48] = [
    255, 253, 251, 249, 247, 245, 243, 240, 238, 236, 233, 231, 229, 226, 223, 221,
    218, 215, 212, 210, 207, 203, 200, 197, 194, 190, 187, 183, 179, 176, 172, 167,
    163, 159, 154, 149, 144, 138, 132, 126, 120, 113, 105, 96, 86, 75, 61, 41,
];

/// For the green 178, the class of every colour is beyond the reach of
/// rounding.
proof fn lemma_green_178(r: int, b: int)
    requires
        0 <= r <= 255,
        0 <= b <= 255,
    ensures
        is_clear(r, 178, b),
{
    assert(row_holds(178, 190, EDGES_178@)) by {
        reveal_with_fuel(edges_hold, 17);
        assert(edges_hold(178, 190, EDGES_178@, 0, 16));
        assert(edges_hold(178, 190, EDGES_178@, 16, 32));
        assert(edges_hold(178, 190, EDGES_178@, 32, 48));
    }
    lemma_row_is_clear(178, 190, EDGES_178@, r, b);
}

/// The edges for the green 179 and the reds from 187.
const EDGES_179: [u8; 49] = [
    255, 253, 251, 249, 247, 245, 243, 240, 238, 236, 234, 231, 229, 226, 224, 221,
    219, 216, 213, 210, 207, 204, 201, 198, 195, 192, 188, 185, 181, 177, 173, 169,
    165, 161, 156, 151, 146, 141, 136, 130, 123, 117, 109, 101, 92, 82, 70, 55,
    31,
];

/// For the green 179, the class of every colour is beyond the reach of
/// rounding.
proof fn lemma_green_179(r: int, b: int)
    requires
        0 <= r <= 255,
        0 <= b <= 255,
    ensures
        is_clear(r, 179, b),
{
    assert(row_holds(179, 187, EDGES_179@)) by {
        reveal_with_fuel(edges_hold, 17);
        assert(edges_hold(179, 187, EDGES_179@, 0, 16));
        assert(edges_hold(179, 187, EDGES_179@, 16, 32));
        assert(edges_hold(179, 187, EDGES_179@, 32, 48));
        assert(edges_hold(179, 187, EDGES_179@, 48, 64));
    }
    lemma_row_is_clear(179, 187, EDGES_179@, r, b);
}

/// For the greens 170 to 179, the class of every colour is beyond the
/// reach of rounding.
pub proof fn lemma_greens_are_clear(r: int, g: int, b: int)
    requires
        0 <= r <= 255,
        170 <= g <= 179,
        0 <= b <= 255,
    ensures
        is_clear(r, g, b),
{
    if g == 170 {
        lemma_green_170(r, b);
    } else if g == 171 {
        lemma_green_171(r, b);
    } else if g == 172 {
        lemma_green_172(r, b);
    } else if g == 173 {
        lemma_green_173(r, b);
    } else if g == 174 {
        lemma_green_174(r, b);
    } else if g == 175 {
        lemma_green_175(r, b);
    } else if g == 176 {
        lemma_green_176(r, b);
    } else if g == 177 {
        lemma_green_177(r, b);
    } else if g == 178 {
        lemma_green_178(r, b);
    } else {
        lemma_green_179(r, b);
    }
}

} // verus!
