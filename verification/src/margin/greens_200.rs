//! The edges for the greens 200 to 209.

use crate::margin::{edges_hold, is_clear, lemma_row_is_clear, row_holds};
use vstd::prelude::*;

verus! {

/// The edges for the green 200 and the reds from 75.
const EDGES_200: [u8; 97] = [
    255, 254, 254, 253, 253, 252, 251, 250, 250, 249, 248, 247, 247, 246, 245, 244,
    243, 243, 242, 241, 240, 239, 238, 237, 236, 235, 234, 233, 232, 231, 230, 229,
    228, 227, 226, 224, 223, 222, 221, 219, 218, 217, 216, 214, 213, 211, 210, 208,
    207, 205, 204, 202, 201, 199, 197, 196, 194, 192, 190, 188, 186, 184, 182, 180,
    178, 176, 174, 172, 169, 167, 164, 162, 159, 156, 154, 151, 148, 145, 141, 138,
    135, 131, 127, 123, 119, 115, 110, 105, 100, 94, 88, 81, 73, 64, 53, 39,
    15,
];

/// For the green 200, the class of every colour is beyond the reach of
/// rounding.
proof fn lemma_green_200(r: int, b: int)
    requires
        0 <= r <= 255,
        0 <= b <= 255,
    ensures
        is_clear(r, 200, b),
{
    assert(row_holds(200, 75, EDGES_200@)) by {
        reveal_with_fuel(edges_hold, 17);
        assert(edges_hold(200, 75, EDGES_200@, 0, 16));
        assert(edges_hold(200, 75, EDGES_200@, 16, 32));
        assert(edges_hold(200, 75, EDGES_200@, 32, 48));
        assert(edges_hold(200, 75, EDGES_200@, 48, 64));
        assert(edges_hold(200, 75, EDGES_200@, 64, 80));
        assert(edges_hold(200, 75, EDGES_200@, 80, 96));
        assert(edges_hold(200, 75, EDGES_200@, 96, 112));
    }
    lemma_row_is_clear(200, 75, EDGES_200@, r, b);
}

/// The edges for the green 201 and the reds from 62.
const EDGES_201: [u8; 106] = [
    255, 255, 254, 254, 253, 253, 252, 251, 251, 250, 250, 249, 248, 248, 247, 246,
    246, 245, 244, 244, 243, 242, 241, 241, 240, 239, 238, 237, 236, 236, 235, 234,
    233, 232, 231, 230, 229, 228, 227, 226, 225, 224, 223, 222, 220, 219, 218, 217,
    216, 214, 213, 212, 210, 209, 208, 206, 205, 203, 202, 200, 199, 197, 196, 194,
    192, 190, 189, 187, 185, 183, 181, 179, 177, 175, 173, 171, 168, 166, 164, 161,
    159, 156, 153, 151, 148, 145, 142, 139, 135, 132, 128, 124, 121, 116, 112, 107,
    102, 97, 91, 85, 78, 70, 61, 50, 35, 6,
];

/// For the green 201, the class of every colour is beyond the reach of
/// rounding.
proof fn lemma_green_201(r: int, b: int)
    requires
        0 <= r <= 255,
        0 <= b <= 255,
    ensures
        is_clear(r, 201, b),
{
    assert(row_holds(201, 62, EDGES_201@)) by {
        reveal_with_fuel(edges_hold, 17);
        assert(edges_hold(201, 62, EDGES_201@, 0, 16));
        assert(edges_hold(201, 62, EDGES_201@, 16, 32));
        assert(edges_hold(201, 62, EDGES_201@, 32, 48));
        assert(edges_hold(201, 62, EDGES_201@, 48, 64));
        assert(edges_hold(201, 62, EDGES_201@, 64, 80));
        assert(edges_hold(201, 62, EDGES_201@, 80, 96));
        assert(edges_hold(201, 62, EDGES_201@, 96, 112));
    }
    lemma_row_is_clear(201, 62, EDGES_201@, r, b);
}

/// The edges for the green 202 and the reds from 45.
const EDGES_202: [u8; 118] = [
    255, 255, 254, 254, 254, 253, 253, 253, 252, 252, 251, 251, 250, 250, 249, 249,
    248, 248, 247, 247, 246, 246, 245, 244, 244, 243, 243, 242, 241, 241, 240, 239,
    239, 238, 237, 236, 236, 235, 234, 233, 233, 232, 231, 230, 229, 228, 227, 226,
    225, 224, 223, 222, 221, 220, 219, 218, 217, 216, 215, 214, 213, 211, 210, 209,
    208, 206, 205, 204, 202, 201, 199, 198, 196, 195, 193, 192, 190, 188, 187, 185,
    183, 181, 179, 177, 175, 173, 171, 169, 167, 165, 162, 160, 158, 155, 153, 150,
    147, 144, 141, 138, 135, 132, 128, 125, 121, 117, 113, 109, 104, 99, 94, 88,
    81, 74, 66, 56, 45, 27,
];

/// For the green 202, the class of every colour is beyond the reach of
/// rounding.
proof fn lemma_green_202(r: int, b: int)
    requires
        0 <= r <= 255,
        0 <= b <= 255,
    ensures
        is_clear(r, 202, b),
{
    assert(row_holds(202, 45, EDGES_202@)) by {
        reveal_with_fuel(edges_hold, 17);
        assert(edges_hold(202, 45, EDGES_202@, 0, 16));
        assert(edges_hold(202, 45, EDGES_202@, 16, 32));
        assert(edges_hold(202, 45, EDGES_202@, 32, 48));
        assert(edges_hold(202, 45, EDGES_202@, 48, 64));
        assert(edges_hold(202, 45, EDGES_202@, 64, 80));
        assert(edges_hold(202, 45, EDGES_202@, 80, 96));
        assert(edges_hold(202, 45, EDGES_202@, 96, 112));
        assert(edges_hold(202, 45, EDGES_202@, 112, 128));
    }
    lemma_row_is_clear(202, 45, EDGES_202@, r, b);
}

/// The edges for the green 203 and the reds from 11.
const EDGES_203: [u8; 148] = [
    255, 255, 255, 255, 255, 255, 255, 255, 254, 254, 254, 254, 254, 254, 253, 253,
    253, 253, 252, 252, 252, 252, 251, 251, 251, 251, 250, 250, 250, 249, 249, 249,
    248, 248, 248, 247, 247, 247, 246, 246, 245, 245, 244, 244, 244, 243, 243, 242,
    242, 241, 241, 240, 239, 239, 238, 238, 237, 237, 236, 235, 235, 234, 233, 233,
    232, 231, 230, 230, 229, 228, 227, 227, 226, 225, 224, 223, 222, 221, 220, 219,
    219, 218, 217, 216, 215, 213, 212, 211, 210, 209, 208, 207, 205, 204, 203, 202,
    200, 199, 198, 196, 195, 193, 192, 190, 189, 187, 186, 184, 182, 180, 179, 177,
    175, 173, 171, 169, 167, 165, 163, 161, 158, 156, 154, 151, 148, 146, 143, 140,
    137, 134, 131, 128, 124, 121, 117, 113, 109, 104, 99, 94, 89, 83, 76, 69,
    60, 49, 35, 9,
];

/// For the green 203, the class of every colour is beyond the reach of
/// rounding.
proof fn lemma_green_203(r: int, b: int)
    requires
        0 <= r <= 255,
        0 <= b <= 255,
    ensures
        is_clear(r, 203, b),
{
    assert(row_holds(203, 11, EDGES_203@)) by {
        reveal_with_fuel(edges_hold, 17);
        assert(edges_hold(203, 11, EDGES_203@, 0, 16));
        assert(edges_hold(203, 11, EDGES_203@, 16, 32));
        assert(edges_hold(203, 11, EDGES_203@, 32, 48));
        assert(edges_hold(203, 11, EDGES_203@, 48, 64));
        assert(edges_hold(203, 11, EDGES_203@, 64, 80));
        assert(edges_hold(203, 11, EDGES_203@, 80, 96));
        assert(edges_hold(203, 11, EDGES_203@, 96, 112));
        assert(edges_hold(203, 11, EDGES_203@, 112, 128));
        assert(edges_hold(203, 11, EDGES_203@, 128, 144));
        assert(edges_hold(203, 11, EDGES_203@, 144, 160));
    }
    lemma_row_is_clear(203, 11, EDGES_203@, r, b);
}

/// The edges for the green 204 and the reds from 0.
const EDGES_204: [u8; 154] = [
    249, 249, 249, 249, 249, 249, 248, 248, 248, 248, 248, 248, 248, 248, 248, 247,
    247, 247, 247, 247, 247, 247, 246, 246, 246, 246, 246, 245, 245, 245, 245, 244,
    244, 244, 244, 243, 243, 243, 242, 242, 242, 241, 241, 241, 240, 240, 240, 239,
    239, 238, 238, 237, 237, 237, 236, 236, 235, 235, 234, 234, 233, 232, 232, 231,
    231, 230, 229, 229, 228, 228, 227, 226, 226, 225, 224, 223, 223, 222, 221, 220,
    219, 219, 218, 217, 216, 215, 214, 213, 212, 211, 210, 209, 208, 207, 206, 205,
    204, 203, 202, 200, 199, 198, 197, 195, 194, 193, 191, 190, 188, 187, 185, 184,
    182, 181, 179, 177, 176, 174, 172, 170, 168, 166, 164, 162, 160, 158, 156, 154,
    151, 149, 146, 144, 141, 138, 135, 132, 129, 126, 123, 119, 116, 112, 108, 103,
    99, 94, 88, 83, 76, 69, 61, 51, 38, 18,
];

/// For the green 204, the class of every colour is beyond the reach of
/// rounding.
proof fn lemma_green_204(r: int, b: int)
    requires
        0 <= r <= 255,
        0 <= b <= 255,
    ensures
        is_clear(r, 204, b),
{
    assert(row_holds(204, 0, EDGES_204@)) by {
        reveal_with_fuel(edges_hold, 17);
        assert(edges_hold(204, 0, EDGES_204@, 0, 16));
        assert(edges_hold(204, 0, EDGES_204@, 16, 32));
        assert(edges_hold(204, 0, EDGES_204@, 32, 48));
        assert(edges_hold(204, 0, EDGES_204@, 48, 64));
        assert(edges_hold(204, 0, EDGES_204@, 64, 80));
        assert(edges_hold(204, 0, EDGES_204@, 80, 96));
        assert(edges_hold(204, 0, EDGES_204@, 96, 112));
        assert(edges_hold(204, 0, EDGES_204@, 112, 128));
        assert(edges_hold(204, 0, EDGES_204@, 128, 144));
        assert(edges_hold(204, 0, EDGES_204@, 144, 160));
    }
    lemma_row_is_clear(204, 0, EDGES_204@, r, b);
}

/// The edges for the green 205 and the reds from 0.
const EDGES_205: [u8; 149] = [
    241, 241, 241, 241, 241, 241, 241, 241, 240, 240, 240, 240, 240, 240, 240, 240,
    239, 239, 239, 239, 239, 239, 238, 238, 238, 238, 238, 237, 237, 237, 237, 236,
    236, 236, 235, 235, 235, 235, 234, 234, 234, 233, 233, 232, 232, 232, 231, 231,
    230, 230, 230, 229, 229, 228, 228, 227, 227, 226, 226, 225, 224, 224, 223, 223,
    222, 221, 221, 220, 219, 219, 218, 217, 217, 216, 215, 214, 213, 213, 212, 211,
    210, 209, 208, 207, 206, 205, 204, 203, 202, 201, 200, 199, 198, 197, 196, 195,
    194, 192, 191, 190, 188, 187, 186, 184, 183, 181, 180, 178, 177, 175, 174, 172,
    170, 168, 167, 165, 163, 161, 159, 157, 155, 153, 150, 148, 146, 143, 141, 138,
    135, 133, 130, 127, 124, 120, 117, 113, 109, 105, 101, 97, 92, 87, 81, 75,
    68, 60, 50, 38, 18,
];

/// For the green 205, the class of every colour is beyond the reach of
/// rounding.
proof fn lemma_green_205(r: int, b: int)
    requires
        0 <= r <= 255,
        0 <= b <= 255,
    ensures
        is_clear(r, 205, b),
{
    assert(row_holds(205, 0, EDGES_205@)) by {
        reveal_with_fuel(edges_hold, 17);
        assert(edges_hold(205, 0, EDGES_205@, 0, 16));
        assert(edges_hold(205, 0, EDGES_205@, 16, 32));
        assert(edges_hold(205, 0, EDGES_205@, 32, 48));
        assert(edges_hold(205, 0, EDGES_205@, 48, 64));
        assert(edges_hold(205, 0, EDGES_205@, 64, 80));
        assert(edges_hold(205, 0, EDGES_205@, 80, 96));
        assert(edges_hold(205, 0, EDGES_205@, 96, 112));
        assert(edges_hold(205, 0, EDGES_205@, 112, 128));
        assert(edges_hold(205, 0, EDGES_205@, 128, 144));
        assert(edges_hold(205, 0, EDGES_205@, 144, 160));
    }
    lemma_row_is_clear(205, 0, EDGES_205@, r, b);
}

/// The edges for the green 206 and the reds from 0.
const EDGES_206: [u8; 144] = [
    233, 233, 233, 233, 233, 232, 232, 232, 232, 232, 232, 232, 232, 232, 231, 231,
    231, 231, 231, 231, 230, 230, 230, 230, 230, 229, 229, 229, 229, 228, 228, 228,
    228, 227, 227, 227, 226, 226, 226, 225, 225, 225, 224, 224, 223, 223, 223, 222,
    222, 221, 221, 220, 220, 219, 219, 218, 218, 217, 216, 216, 215, 215, 214, 213,
    213, 212, 211, 211, 210, 209, 209, 208, 207, 206, 205, 205, 204, 203, 202, 201,
    200, 199, 198, 197, 196, 195, 194, 193, 192, 191, 190, 189, 187, 186, 185, 184,
    182, 181, 180, 178, 177, 175, 174, 172, 171, 169, 168, 166, 164, 162, 161, 159,
    157, 155, 153, 151, 149, 147, 144, 142, 140, 137, 134, 132, 129, 126, 123, 120,
    117, 113, 110, 106, 102, 98, 93, 89, 83, 78, 71, 64, 56, 46, 33, 9,
];

/// For the green 206, the class of every colour is beyond the reach of
/// rounding.
proof fn lemma_green_206(r: int, b: int)
    requires
        0 <= r <= 255,
        0 <= b <= 255,
    ensures
        is_clear(r, 206, b),
{
    assert(row_holds(206, 0, EDGES_206@)) by {
        reveal_with_fuel(edges_hold, 17);
        assert(edges_hold(206, 0, EDGES_206@, 0, 16));
        assert(edges_hold(206, 0, EDGES_206@, 16, 32));
        assert(edges_hold(206, 0, EDGES_206@, 32, 48));
        assert(edges_hold(206, 0, EDGES_206@, 48, 64));
        assert(edges_hold(206, 0, EDGES_206@, 64, 80));
        assert(edges_hold(206, 0, EDGES_206@, 80, 96));
        assert(edges_hold(206, 0, EDGES_206@, 96, 112));
        assert(edges_hold(206, 0, EDGES_206@, 112, 128));
        assert(edges_hold(206, 0, EDGES_206@, 128, 144));
    }
    lemma_row_is_clear(206, 0, EDGES_206@, r, b);
}

/// The edges for the green 207 and the reds from 0.
const EDGES_207: [u8; 138] = [
    224, 224, 224, 224, 224, 224, 224, 224, 223, 223, 223, 223, 223, 223, 223, 222,
    222, 222, 222, 222, 222, 221, 221, 221, 221, 221, 220, 220, 220, 219, 219, 219,
    219, 218, 218, 218, 217, 217, 217, 216, 216, 215, 215, 215, 214, 214, 213, 213,
    212, 212, 211, 211, 210, 210, 209, 209, 208, 207, 207, 206, 206, 205, 204, 204,
    203, 202, 201, 201, 200, 199, 198, 198, 197, 196, 195, 194, 193, 192, 191, 190,
    189, 188, 187, 186, 185, 184, 183, 182, 181, 179, 178, 177, 176, 174, 173, 172,
    170, 169, 167, 166, 164, 162, 161, 159, 157, 156, 154, 152, 150, 148, 146, 144,
    142, 139, 137, 135, 132, 130, 127, 124, 122, 119, 115, 112, 109, 105, 101, 97,
    93, 89, 84, 78, 73, 66, 59, 50, 39, 22,
];

/// For the green 207, the class of every colour is beyond the reach of
/// rounding.
proof fn lemma_green_207(r: int, b: int)
    requires
        0 <= r <= 255,
        0 <= b <= 255,
    ensures
        is_clear(r, 207, b),
{
    assert(row_holds(207, 0, EDGES_207@)) by {
        reveal_with_fuel(edges_hold, 17);
        assert(edges_hold(207, 0, EDGES_207@, 0, 16));
        assert(edges_hold(207, 0, EDGES_207@, 16, 32));
        assert(edges_hold(207, 0, EDGES_207@, 32, 48));
        assert(edges_hold(207, 0, EDGES_207@, 48, 64));
        assert(edges_hold(207, 0, EDGES_207@, 64, 80));
        assert(edges_hold(207, 0, EDGES_207@, 80, 96));
        assert(edges_hold(207, 0, EDGES_207@, 96, 112));
        assert(edges_hold(207, 0, EDGES_207@, 112, 128));
        assert(edges_hold(207, 0, EDGES_207@, 128, 144));
    }
    lemma_row_is_clear(207, 0, EDGES_207@, r, b);
}

/// The edges for the green 208 and the reds from 0.
const EDGES_208: [u8; 132] = [
    215, 215, 215, 215, 215, 215, 214, 214, 214, 214, 214, 214, 214, 213, 213, 213,
    213, 213, 213, 212, 212, 212, 212, 212, 211, 211, 211, 211, 210, 210, 210, 209,
    209, 209, 208, 208, 208, 207, 207, 207, 206, 206, 205, 205, 204, 204, 203, 203,
    202, 202, 201, 201, 200, 200, 199, 198, 198, 197, 197, 196, 195, 195, 194, 193,
    192, 192, 191, 190, 189, 188, 187, 187, 186, 185, 184, 183, 182, 181, 180, 179,
    178, 177, 175, 174, 173, 172, 171, 169, 168, 167, 165, 164, 163, 161, 160, 158,
    157, 155, 153, 152, 150, 148, 146, 144, 142, 140, 138, 136, 134, 131, 129, 127,
    124, 121, 119, 116, 113, 110, 106, 103, 99, 95, 91, 87, 82, 77, 71, 65,
    58, 49, 39, 24,
];

/// For the green 208, the class of every colour is beyond the reach of
/// rounding.
proof fn lemma_green_208(r: int, b: int)
    requires
        0 <= r <= 255,
        0 <= b <= 255,
    ensures
        is_clear(r, 208, b),
{
    assert(row_holds(208, 0, EDGES_208@)) by {
        reveal_with_fuel(edges_hold, 17);
        assert(edges_hold(208, 0, EDGES_208@, 0, 16));
        assert(edges_hold(208, 0, EDGES_208@, 16, 32));
        assert(edges_hold(208, 0, EDGES_208@, 32, 48));
        assert(edges_hold(208, 0, EDGES_208@, 48, 64));
        assert(edges_hold(208, 0, EDGES_208@, 64, 80));
        assert(edges_hold(208, 0, EDGES_208@, 80, 96));
        assert(edges_hold(208, 0, EDGES_208@, 96, 112));
        assert(edges_hold(208, 0, EDGES_208@, 112, 128));
        assert(edges_hold(208, 0, EDGES_208@, 128, 144));
    }
    lemma_row_is_clear(208, 0, EDGES_208@, r, b);
}

/// The edges for the green 209 and the reds from 0.
const EDGES_209: [u8; 126] = [
    205, 205, 205, 205, 205, 205, 205, 204, 204, 204, 204, 204, 204, 204, 203, 203,
    203, 203, 203, 202, 202, 202, 202, 201, 201, 201, 201, 200, 200, 200, 199, 199,
    199, 198, 198, 198, 197, 197, 197, 196, 196, 195, 195, 194, 194, 193, 193, 192,
    192, 191, 191, 190, 189, 189, 188, 187, 187, 186, 185, 185, 184, 183, 182, 182,
    181, 180, 179, 178, 177, 176, 176, 175, 174, 173, 172, 171, 169, 168, 167, 166,
    165, 164, 162, 161, 160, 158, 157, 156, 154, 153, 151, 150, 148, 146, 145, 143,
    141, 139, 137, 135, 133, 131, 129, 127, 125, 122, 120, 117, 114, 112, 109, 105,
    102, 99, 95, 91, 87, 83, 78, 73, 68, 61, 54, 45, 34, 17,
];

/// For the green 209, the class of every colour is beyond the reach of
/// rounding.
proof fn lemma_green_209(r: int, b: int)
    requires
        0 <= r <= 255,
        0 <= b <= 255,
    ensures
        is_clear(r, 209, b),
{
    assert(row_holds(209, 0, EDGES_209@)) by {
        reveal_with_fuel(edges_hold, 17);
        assert(edges_hold(209, 0, EDGES_209@, 0, 16));
        assert(edges_hold(209, 0, EDGES_209@, 16, 32));
        assert(edges_hold(209, 0, EDGES_209@, 32, 48));
        assert(edges_hold(209, 0, EDGES_209@, 48, 64));
        assert(edges_hold(209, 0, EDGES_209@, 64, 80));
        assert(edges_hold(209, 0, EDGES_209@, 80, 96));
        assert(edges_hold(209, 0, EDGES_209@, 96, 112));
        assert(edges_hold(209, 0, EDGES_209@, 112, 128));
    }
    lemma_row_is_clear(209, 0, EDGES_209@, r, b);
}

/// For the greens 200 to 209, the class of every colour is beyond the
/// reach of rounding.
pub proof fn lemma_greens_are_clear(r: int, g: int, b: int)
    requires
        0 <= r <= 255,
        200 <= g <= 209,
        0 <= b <= 255,
    ensures
        is_clear(r, g, b),
{
    if g == 200 {
        lemma_green_200(r, b);
    } else if g == 201 {
        lemma_green_201(r, b);
    } else if g == 202 {
        lemma_green_202(r, b);
    } else if g == 203 {
        lemma_green_203(r, b);
    } else if g == 204 {
        lemma_green_204(r, b);
    } else if g == 205 {
        lemma_green_205(r, b);
    } else if g == 206 {
        lemma_green_206(r, b);
    } else if g == 207 {
        lemma_green_207(r, b);
    } else if g == 208 {
        lemma_green_208(r, b);
    } else {
        lemma_green_209(r, b);
    }
}

} // verus!
