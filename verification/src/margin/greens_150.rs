//! The edges for the greens 150 to 159.

use crate::margin::{edges_hold, is_clear, lemma_row_is_clear, row_holds};
use vstd::prelude::*;

verus! {

/// The edges for the green 150 and the reds from 254.
const EDGES_150: [u8; 2] = [
    254, 251,
];

/// For the green 150, the class of every colour is beyond the reach of
/// rounding.
proof fn lemma_green_150(r: int, b: int)
    requires
        0 <= r <= 255,
        0 <= b <= 255,
    ensures
        is_clear(r, 150, b),
{
    assert(row_holds(150, 254, EDGES_150@)) by {
        reveal_with_fuel(edges_hold, 17);
        assert(edges_hold(150, 254, EDGES_150@, 0, 16));
    }
    lemma_row_is_clear(150, 254, EDGES_150@, r, b);
}

/// The edges for the green 151 and the reds from 252.
const EDGES_151: [u8; 4] = [
    255, 252, 249, 246,
];

/// For the green 151, the class of every colour is beyond the reach of
/// rounding.
proof fn lemma_green_151(r: int, b: int)
    requires
        0 <= r <= 255,
        0 <= b <= 255,
    ensures
        is_clear(r, 151, b),
{
    assert(row_holds(151, 252, EDGES_151@)) by {
        reveal_with_fuel(edges_hold, 17);
        assert(edges_hold(151, 252, EDGES_151@, 0, 16));
    }
    lemma_row_is_clear(151, 252, EDGES_151@, r, b);
}

/// The edges for the green 152 and the reds from 250.
const EDGES_152: [u8; 6] = [
    255, 253, 250, 247, 244, 240,
];

/// For the green 152, the class of every colour is beyond the reach of
/// rounding.
proof fn lemma_green_152(r: int, b: int)
    requires
        0 <= r <= 255,
        0 <= b <= 255,
    ensures
        is_clear(r, 152, b),
{
    assert(row_holds(152, 250, EDGES_152@)) by {
        reveal_with_fuel(edges_hold, 17);
        assert(edges_hold(152, 250, EDGES_152@, 0, 16));
    }
    lemma_row_is_clear(152, 250, EDGES_152@, r, b);
}

/// The edges for the green 153 and the reds from 249.
const EDGES_153: [u8; 7] = [
    253, 250, 247, 244, 241, 238, 235,
];

/// For the green 153, the class of every colour is beyond the reach of
/// rounding.
proof fn lemma_green_153(r: int, b: int)
    requires
        0 <= r <= 255,
        0 <= b <= 255,
    ensures
        is_clear(r, 153, b),
{
    assert(row_holds(153, 249, EDGES_153@)) by {
        reveal_with_fuel(edges_hold, 17);
        assert(edges_hold(153, 249, EDGES_153@, 0, 16));
    }
    lemma_row_is_clear(153, 249, EDGES_153@, r, b);
}

/// The edges for the green 154 and the reds from 247.
const EDGES_154: [u8; 9] = [
    254, 251, 248, 245, 242, 239, 236, 232, 229,
];

/// For the green 154, the class of every colour is beyond the reach of
/// rounding.
proof fn lemma_green_154(r: int, b: int)
    requires
        0 <= r <= 255,
        0 <= b <= 255,
    ensures
        is_clear(r, 154, b),
{
    assert(row_holds(154, 247, EDGES_154@)) by {
        reveal_with_fuel(edges_hold, 17);
        assert(edges_hold(154, 247, EDGES_154@, 0, 16));
    }
    lemma_row_is_clear(154, 247, EDGES_154@, r, b);
}

/// The edges for the green 155 and the reds from 245.
const EDGES_155: [u8; 11] = [
    254, 251, 249, 246, 243, 240, 236, 233, 230, 226, 223,
];

/// For the green 155, the class of every colour is beyond the reach of
/// rounding.
proof fn lemma_green_155(r: int, b: int)
    requires
        0 <= r <= 255,
        0 <= b <= 255,
    ensures
        is_clear(r, 155, b),
{
    assert(row_holds(155, 245, EDGES_155@)) by {
        reveal_with_fuel(edges_hold, 17);
        assert(edges_hold(155, 245, EDGES_155@, 0, 16));
    }
    lemma_row_is_clear(155, 245, EDGES_155@, r, b);
}

/// The edges for the green 156 and the reds from 243.
const EDGES_156: [u8; 13] = [
    255, 252, 249, 246, 243, 240, 237, 234, 231, 227, 224, 220, 217,
];

/// For the green 156, the class of every colour is beyond the reach of
/// rounding.
proof fn lemma_green_156(r: int, b: int)
    requires
        0 <= r <= 255,
        0 <= b <= 255,
    ensures
        is_clear(r, 156, b),
{
    assert(row_holds(156, 243, EDGES_156@)) by {
        reveal_with_fuel(edges_hold, 17);
        assert(edges_hold(156, 243, EDGES_156@, 0, 16));
    }
    lemma_row_is_clear(156, 243, EDGES_156@, r, b);
}

/// The edges for the green 157 and the reds from 241.
const EDGES_157: [u8; 15] = [
    255, 252, 249, 246, 244, 241, 237, 234, 231, 228, 224, 221, 217, 214, 210,
];

/// For the green 157, the class of every colour is beyond the reach of
/// rounding.
proof fn lemma_green_157(r: int, b: int)
    requires
        0 <= r <= 255,
        0 <= b <= 255,
    ensures
        is_clear(r, 157, b),
{
    assert(row_holds(157, 241, EDGES_157@)) by {
        reveal_with_fuel(edges_hold, 17);
        assert(edges_hold(157, 241, EDGES_157@, 0, 16));
    }
    lemma_row_is_clear(157, 241, EDGES_157@, r, b);
}

/// The edges for the green 158 and the reds from 239.
const EDGES_158: [u8; 17] = [
    255, 252, 250, 247, 244, 241, 238, 235, 232, 228, 225, 222, 218, 214, 211, 207,
    203,
];

/// For the green 158, the class of every colour is beyond the reach of
/// rounding.
proof fn lemma_green_158(r: int, b: int)
    requires
        0 <= r <= 255,
        0 <= b <= 255,
    ensures
        is_clear(r, 158, b),
{
    assert(row_holds(158, 239, EDGES_158@)) by {
        reveal_with_fuel(edges_hold, 17);
        assert(edges_hold(158, 239, EDGES_158@, 0, 16));
        assert(edges_hold(158, 239, EDGES_158@, 16, 32));
    }
    lemma_row_is_clear(158, 239, EDGES_158@, r, b);
}

/// The edges for the green 159 and the reds from 237.
const EDGES_159: [u8; 19] = [
    255, 252, 250, 247, 244, 241, 238, 235, 232, 229, 225, 222, 219, 215, 211, 208,
    204, 200, 196,
];

/// For the green 159, the class of every colour is beyond the reach of
/// rounding.
proof fn lemma_green_159(r: int, b: int)
    requires
        0 <= r <= 255,
        0 <= b <= 255,
    ensures
        is_clear(r, 159, b),
{
    assert(row_holds(159, 237, EDGES_159@)) by {
        reveal_with_fuel(edges_hold, 17);
        assert(edges_hold(159, 237, EDGES_159@, 0, 16));
        assert(edges_hold(159, 237, EDGES_159@, 16, 32));
    }
    lemma_row_is_clear(159, 237, EDGES_159@, r, b);
}

/// For the greens 150 to 159, the class of every colour is beyond the
/// reach of rounding.
pub proof fn lemma_greens_are_clear(r: int, g: int, b: int)
    requires
        0 <= r <= 255,
        150 <= g <= 159,
        0 <= b <= 255,
    ensures
        is_clear(r, g, b),
{
    if g == 150 {
        lemma_green_150(r, b);
    } else if g == 151 {
        lemma_green_151(r, b);
    } else if g == 152 {
        lemma_green_152(r, b);
    } else if g == 153 {
        lemma_green_153(r, b);
    } else if g == 154 {
        lemma_green_154(r, b);
    } else if g == 155 {
        lemma_green_155(r, b);
    } else if g == 156 {
        lemma_green_156(r, b);
    } else if g == 157 {
        lemma_green_157(r, b);
    } else if g == 158 {
        lemma_green_158(r, b);
    } else {
        lemma_green_159(r, b);
    }
}

} // verus!
