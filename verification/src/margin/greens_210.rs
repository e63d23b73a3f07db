//! The edges for the greens 210 to 217.

use crate::margin::{edges_hold, is_clear, lemma_row_is_clear, row_holds};
use vstd::prelude::*;

verus! {

/// The edges for the green 210 and the reds from 0.
const EDGES_210: [u8; 119] = [
    195, 195, 194, 194, 194, 194, 194, 194, 194, 193, 193, 193, 193, 193, 193, 192,
    192, 192, 192, 192, 191, 191, 191, 191, 190, 190, 190, 189, 189, 189, 188, 188,
    188, 187, 187, 187, 186, 186, 185, 185, 184, 184, 183, 183, 182, 182, 181, 181,
    180, 179, 179, 178, 178, 177, 176, 175, 175, 174, 173, 172, 172, 171, 170, 169,
    168, 167, 166, 165, 164, 163, 162, 161, 160, 159, 158, 157, 156, 154, 153, 152,
    150, 149, 148, 146, 145, 143, 142, 140, 138, 137, 135, 133, 131, 129, 127, 125,
    123, 121, 119, 116, 114, 111, 108, 106, 103, 100, 96, 93, 89, 85, 81, 77,
    72, 67, 61, 54, 46, 36, 22,
];

/// For the green 210, the class of every colour is beyond the reach of
/// rounding.
proof fn lemma_green_210(r: int, b: int)
    requires
        0 <= r <= 255,
        0 <= b <= 255,
    ensures
        is_clear(r, 210, b),
{
    assert(row_holds(210, 0, EDGES_210@)) by {
        reveal_with_fuel(edges_hold, 17);
        assert(edges_hold(210, 0, EDGES_210@, 0, 16));
        assert(edges_hold(210, 0, EDGES_210@, 16, 32));
        assert(edges_hold(210, 0, EDGES_210@, 32, 48));
        assert(edges_hold(210, 0, EDGES_210@, 48, 64));
        assert(edges_hold(210, 0, EDGES_210@, 64, 80));
        assert(edges_hold(210, 0, EDGES_210@, 80, 96));
        assert(edges_hold(210, 0, EDGES_210@, 96, 112));
        assert(edges_hold(210, 0, EDGES_210@, 112, 128));
    }
    lemma_row_is_clear(210, 0, EDGES_210@, r, b);
}

/// The edges for the green 211 and the reds from 0.
const EDGES_211: [u8; 112] = [
    183, 183, 183, 183, 183, 183, 182, 182, 182, 182, 182, 182, 181, 181, 181, 181,
    181, 180, 180, 180, 180, 179, 179, 179, 179, 178, 178, 178, 177, 177, 177, 176,
    176, 175, 175, 174, 174, 174, 173, 173, 172, 171, 171, 170, 170, 169, 169, 168,
    167, 167, 166, 165, 165, 164, 163, 162, 161, 161, 160, 159, 158, 157, 156, 155,
    154, 153, 152, 151, 150, 149, 148, 146, 145, 144, 143, 141, 140, 138, 137, 135,
    134, 132, 131, 129, 127, 125, 124, 122, 120, 118, 116, 113, 111, 109, 106, 103,
    101, 98, 95, 92, 88, 85, 81, 77, 73, 68, 62, 57, 50, 42, 31, 15,
];

/// For the green 211, the class of every colour is beyond the reach of
/// rounding.
proof fn lemma_green_211(r: int, b: int)
    requires
        0 <= r <= 255,
        0 <= b <= 255,
    ensures
        is_clear(r, 211, b),
{
    assert(row_holds(211, 0, EDGES_211@)) by {
        reveal_with_fuel(edges_hold, 17);
        assert(edges_hold(211, 0, EDGES_211@, 0, 16));
        assert(edges_hold(211, 0, EDGES_211@, 16, 32));
        assert(edges_hold(211, 0, EDGES_211@, 32, 48));
        assert(edges_hold(211, 0, EDGES_211@, 48, 64));
        assert(edges_hold(211, 0, EDGES_211@, 64, 80));
        assert(edges_hold(211, 0, EDGES_211@, 80, 96));
        assert(edges_hold(211, 0, EDGES_211@, 96, 112));
    }
    lemma_row_is_clear(211, 0, EDGES_211@, r, b);
}

/// The edges for the green 212 and the reds from 0.
const EDGES_212: [u8; 104] = [
    171, 171, 170, 170, 170, 170, 170, 170, 169, 169, 169, 169, 169, 169, 168, 168,
    168, 168, 167, 167, 167, 167, 166, 166, 166, 165, 165, 164, 164, 164, 163, 163,
    162, 162, 161, 161, 160, 160, 159, 159, 158, 158, 157, 156, 156, 155, 154, 154,
    153, 152, 152, 151, 150, 149, 148, 147, 146, 145, 144, 144, 142, 141, 140, 139,
    138, 137, 136, 134, 133, 132, 130, 129, 128, 126, 125, 123, 121, 120, 118, 116,
    114, 112, 110, 108, 106, 104, 101, 99, 96, 93, 91, 88, 84, 81, 77, 73,
    69, 65, 60, 54, 47, 39, 29, 14,
];

/// For the green 212, the class of every colour is beyond the reach of
/// rounding.
proof fn lemma_green_212(r: int, b: int)
    requires
        0 <= r <= 255,
        0 <= b <= 255,
    ensures
        is_clear(r, 212, b),
{
    assert(row_holds(212, 0, EDGES_212@)) by {
        reveal_with_fuel(edges_hold, 17);
        assert(edges_hold(212, 0, EDGES_212@, 0, 16));
        assert(edges_hold(212, 0, EDGES_212@, 16, 32));
        assert(edges_hold(212, 0, EDGES_212@, 32, 48));
        assert(edges_hold(212, 0, EDGES_212@, 48, 64));
        assert(edges_hold(212, 0, EDGES_212@, 64, 80));
        assert(edges_hold(212, 0, EDGES_212@, 80, 96));
        assert(edges_hold(212, 0, EDGES_212@, 96, 112));
    }
    lemma_row_is_clear(212, 0, EDGES_212@, r, b);
}

/// The edges for the green 213 and the reds from 0.
const EDGES_213: [u8; 95] = [
    157, 157, 156, 156, 156, 156, 156, 155, 155, 155, 155, 155, 155, 154, 154, 154,
    154, 153, 153, 153, 152, 152, 152, 151, 151, 151, 150, 150, 149, 149, 148, 148,
    147, 147, 146, 146, 145, 145, 144, 143, 143, 142, 141, 141, 140, 139, 138, 138,
    137, 136, 135, 134, 133, 132, 131, 130, 129, 128, 127, 126, 124, 123, 122, 120,
    119, 118, 116, 115, 113, 111, 110, 108, 106, 104, 102, 100, 98, 96, 94, 91,
    89, 86, 83, 80, 77, 73, 70, 66, 61, 57, 51, 45, 38, 29, 15,
];

/// For the green 213, the class of every colour is beyond the reach of
/// rounding.
proof fn lemma_green_213(r: int, b: int)
    requires
        0 <= r <= 255,
        0 <= b <= 255,
    ensures
        is_clear(r, 213, b),
{
    assert(row_holds(213, 0, EDGES_213@)) by {
        reveal_with_fuel(edges_hold, 17);
        assert(edges_hold(213, 0, EDGES_213@, 0, 16));
        assert(edges_hold(213, 0, EDGES_213@, 16, 32));
        assert(edges_hold(213, 0, EDGES_213@, 32, 48));
        assert(edges_hold(213, 0, EDGES_213@, 48, 64));
        assert(edges_hold(213, 0, EDGES_213@, 64, 80));
        assert(edges_hold(213, 0, EDGES_213@, 80, 96));
    }
    lemma_row_is_clear(213, 0, EDGES_213@, r, b);
}

/// The edges for the green 214 and the reds from 0.
const EDGES_214: [u8; 85] = [
    141, 141, 141, 140, 140, 140, 140, 139, 139, 139, 139, 139, 138, 138, 138, 137,
    137, 137, 137, 136, 136, 135, 135, 135, 134, 134, 133, 133, 132, 132, 131, 131,
    130, 129, 129, 128, 127, 127, 126, 125, 125, 124, 123, 122, 121, 120, 119, 118,
    117, 116, 115, 114, 113, 112, 110, 109, 108, 106, 105, 103, 102, 100, 99, 97,
    95, 93, 91, 89, 87, 85, 82, 80, 77, 74, 71, 68, 65, 61, 57, 52,
    47, 41, 34, 25, 11,
];

/// For the green 214, the class of every colour is beyond the reach of
/// rounding.
proof fn lemma_green_214(r: int, b: int)
    requires
        0 <= r <= 255,
        0 <= b <= 255,
    ensures
        is_clear(r, 214, b),
{
    assert(row_holds(214, 0, EDGES_214@)) by {
        reveal_with_fuel(edges_hold, 17);
        assert(edges_hold(214, 0, EDGES_214@, 0, 16));
        assert(edges_hold(214, 0, EDGES_214@, 16, 32));
        assert(edges_hold(214, 0, EDGES_214@, 32, 48));
        assert(edges_hold(214, 0, EDGES_214@, 48, 64));
        assert(edges_hold(214, 0, EDGES_214@, 64, 80));
        assert(edges_hold(214, 0, EDGES_214@, 80, 96));
    }
    lemma_row_is_clear(214, 0, EDGES_214@, r, b);
}

/// The edges for the green 215 and the reds from 0.
const EDGES_215: [u8; 73] = [
    122, 122, 122, 121, 121, 121, 121, 120, 120, 120, 120, 119, 119, 119, 118, 118,
    118, 117, 117, 116, 116, 116, 115, 115, 114, 114, 113, 112, 112, 111, 110, 110,
    109, 108, 107, 107, 106, 105, 104, 103, 102, 101, 100, 99, 98, 96, 95, 94,
    92, 91, 89, 88, 86, 85, 83, 81, 79, 77, 75, 73, 70, 68, 65, 62,
    59, 55, 52, 48, 43, 38, 31, 23, 10,
];

/// For the green 215, the class of every colour is beyond the reach of
/// rounding.
proof fn lemma_green_215(r: int, b: int)
    requires
        0 <= r <= 255,
        0 <= b <= 255,
    ensures
        is_clear(r, 215, b),
{
    assert(row_holds(215, 0, EDGES_215@)) by {
        reveal_with_fuel(edges_hold, 17);
        assert(edges_hold(215, 0, EDGES_215@, 0, 16));
        assert(edges_hold(215, 0, EDGES_215@, 16, 32));
        assert(edges_hold(215, 0, EDGES_215@, 32, 48));
        assert(edges_hold(215, 0, EDGES_215@, 48, 64));
        assert(edges_hold(215, 0, EDGES_215@, 64, 80));
    }
    lemma_row_is_clear(215, 0, EDGES_215@, r, b);
}

/// The edges for the green 216 and the reds from 0.
const EDGES_216: [u8; 58] = [
    99, 98, 98, 98, 97, 97, 97, 96, 96, 96, 95, 95, 95, 94, 94, 93,
    93, 92, 92, 91, 91, 90, 89, 89, 88, 87, 86, 85, 85, 84, 83, 82,
    81, 80, 78, 77, 76, 75, 73, 72, 70, 68, 67, 65, 63, 61, 59, 56,
    54, 51, 48, 45, 41, 37, 32, 27, 20, 9,
];

/// For the green 216, the class of every colour is beyond the reach of
/// rounding.
proof fn lemma_green_216(r: int, b: int)
    requires
        0 <= r <= 255,
        0 <= b <= 255,
    ensures
        is_clear(r, 216, b),
{
    assert(row_holds(216, 0, EDGES_216@)) by {
        reveal_with_fuel(edges_hold, 17);
        assert(edges_hold(216, 0, EDGES_216@, 0, 16));
        assert(edges_hold(216, 0, EDGES_216@, 16, 32));
        assert(edges_hold(216, 0, EDGES_216@, 32, 48));
        assert(edges_hold(216, 0, EDGES_216@, 48, 64));
    }
    lemma_row_is_clear(216, 0, EDGES_216@, r, b);
}

/// The edges for the green 217 and the reds from 0.
const EDGES_217: [u8; 36] = [
    65, 64, 64, 63, 63, 62, 61, 61, 60, 60, 59, 58, 58, 57, 56, 55,
    54, 53, 52, 51, 50, 49, 47, 46, 44, 43, 41, 39, 37, 34, 31, 28,
    25, 21, 15, 8,
];

/// For the green 217, the class of every colour is beyond the reach of
/// rounding.
proof fn lemma_green_217(r: int, b: int)
    requires
        0 <= r <= 255,
        0 <= b <= 255,
    ensures
        is_clear(r, 217, b),
{
    assert(row_holds(217, 0, EDGES_217@)) by {
        reveal_with_fuel(edges_hold, 17);
        assert(edges_hold(217, 0, EDGES_217@, 0, 16));
        assert(edges_hold(217, 0, EDGES_217@, 16, 32));
        assert(edges_hold(217, 0, EDGES_217@, 32, 48));
    }
    lemma_row_is_clear(217, 0, EDGES_217@, r, b);
}

/// For the greens 210 to 217, the class of every colour is beyond the
/// reach of rounding.
pub proof fn lemma_greens_are_clear(r: int, g: int, b: int)
    requires
        0 <= r <= 255,
        210 <= g <= 217,
        0 <= b <= 255,
    ensures
        is_clear(r, g, b),
{
    if g == 210 {
        lemma_green_210(r, b);
    } else if g == 211 {
        lemma_green_211(r, b);
    } else if g == 212 {
        lemma_green_212(r, b);
    } else if g == 213 {
        lemma_green_213(r, b);
    } else if g == 214 {
        lemma_green_214(r, b);
    } else if g == 215 {
        lemma_green_215(r, b);
    } else if g == 216 {
        lemma_green_216(r, b);
    } else {
        lemma_green_217(r, b);
    }
}

} // verus!
