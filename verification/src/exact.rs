//! The exact luminance, and how the rounded one stands to it.
//!
//! The exact linear-light value of a channel is no fraction, so the exact
//! luminance of a colour cannot be written down. What can be said of it is
//! which fractions lie above it: [`exceeds_linear`] says so for one channel,
//! [`bounds_above`] for the three channels of a colour. The exact luminance
//! is below one half just when some fractions above the three exact values
//! have a weighted sum of at most one half.
//!
//! Two things are proved of the luminance that [`luminance_of`] gives. It is
//! the exact one rounded down: it lies below every weighted sum of fractions
//! above the exact values, and with [`ROUNDING`] units added it is such a
//! sum itself. And it classes every colour as the exact one does.

use crate::color::{
    is_dark, luminance_of, BLUE_WEIGHT, GREEN_WEIGHT, LUMINANCE_ONE, RED_WEIGHT, RGB,
};
use crate::margin::{lemma_class_is_beyond_rounding, ROUNDING};
use crate::srgb::{exceeds_linear, fifth, lemma_linear_is_floor, twelfth, LINEAR, LINEAR_ONE};
use vstd::prelude::*;

verus! {

/// The weighted sum of three linear-light values.
pub open spec fn weighted(r: int, g: int, b: int) -> int {
    RED_WEIGHT * r + GREEN_WEIGHT * g + BLUE_WEIGHT * b
}

/// Whether `r / d`, `g / d` and `b / d` are fractions greater than the exact
/// linear-light values of the three channels of `rgb`.
pub open spec fn bounds_above(rgb: RGB, r: int, g: int, b: int, d: int) -> bool {
    &&& d > 0 && r >= 0 && g >= 0 && b >= 0
    &&& exceeds_linear(rgb.r as int, r, d)
    &&& exceeds_linear(rgb.g as int, g, d)
    &&& exceeds_linear(rgb.b as int, b, d)
}

/// Whether the exact luminance of `rgb` is below one half: some fractions
/// greater than the exact linear-light values of its channels have a
/// weighted sum of at most one half of the weights.
pub open spec fn is_dark_exactly(rgb: RGB) -> bool {
    exists|r: int, g: int, b: int, d: int|
        #[trigger] bounds_above(rgb, r, g, b, d) && 2 * weighted(r, g, b) <= weighted(d, d, d)
}

/// Of two numbers that are not negative, the greater has the greater fifth
/// power.
proof fn lemma_fifth_grows(x: int, y: int)
    requires
        0 <= x <= y,
    ensures
        fifth(x) <= fifth(y),
{
    let x2 = x * x;
    let y2 = y * y;
    let x4 = x2 * x2;
    let y4 = y2 * y2;
    assert(x2 <= y2) by (nonlinear_arith)
        requires
            0 <= x <= y,
            x2 == x * x,
            y2 == y * y,
    ;
    assert(0 <= x4 <= y4) by (nonlinear_arith)
        requires
            0 <= x2 <= y2,
            x4 == x2 * x2,
            y4 == y2 * y2,
    ;
    assert(x4 * x <= y4 * y) by (nonlinear_arith)
        requires
            0 <= x4 <= y4,
            0 <= x <= y,
    ;
    assert(fifth(x) == x4 * x && fifth(y) == y4 * y) by (nonlinear_arith)
        requires
            x4 == (x * x) * (x * x),
            y4 == (y * y) * (y * y),
    ;
}

/// The fifth power of a product is the product of the fifth powers.
proof fn lemma_fifth_of_product(x: int, y: int)
    ensures
        fifth(x * y) == fifth(x) * fifth(y),
{
    assert(fifth(x * y) == fifth(x) * fifth(y)) by (nonlinear_arith);
}

/// The powers of a number above nothing are above nothing.
proof fn lemma_powers_are_positive(x: int)
    requires
        x > 0,
    ensures
        fifth(x) > 0,
        twelfth(x) > 0,
{
    let cube = x * x * x;
    assert(fifth(x) > 0 && cube > 0) by (nonlinear_arith)
        requires
            x > 0,
            cube == x * x * x,
    ;
    assert(cube * cube * cube * cube > 0) by (nonlinear_arith)
        requires
            cube > 0,
    ;
}

/// If `a / c` is at most `n / big` and `e / b` is greater, then `a * b` is
/// less than `c * e`.
proof fn lemma_cross_products(a: int, b: int, c: int, e: int, big: int, n: int)
    requires
        big > 0,
        b > 0,
        c > 0,
        a * big <= c * n,
        e * big > b * n,
    ensures
        a * b < c * e,
{
    assert((a * big) * b <= (c * n) * b) by (nonlinear_arith)
        requires
            a * big <= c * n,
            b > 0,
    ;
    assert(c * (b * n) < c * (e * big)) by (nonlinear_arith)
        requires
            e * big > b * n,
            c > 0,
    ;
    assert((a * big) * b == (a * b) * big && (c * n) * b == c * (b * n) && c * (e * big) == (c
        * e) * big) by (nonlinear_arith);
    assert(a * b < c * e) by (nonlinear_arith)
        requires
            (a * b) * big < (c * e) * big,
            big > 0,
    ;
}

/// A fraction that does not exceed the exact value of a channel is less
/// than one that does.
proof fn lemma_floor_is_below_excess(v: int, t: int, s: int, n: int, d: int)
    requires
        0 <= v <= 255,
        t >= 0,
        s > 0,
        n >= 0,
        d > 0,
        !exceeds_linear(v, t, s),
        exceeds_linear(v, n, d),
    ensures
        t * d < s * n,
{
    if 100_000 * v <= 4045 * 255 {
        let w = 10 * v;
        assert(s * 10 * v == s * w && d * 10 * v == d * w) by (nonlinear_arith)
            requires
                w == 10 * v,
        ;
        assert(t * d < s * n) by (nonlinear_arith)
            requires
                t * 32946 <= s * w,
                n * 32946 > d * w,
                w >= 0,
                t >= 0,
                s > 0,
                n >= 0,
                d > 0,
        ;
    } else {
        lemma_powers_are_positive(269025);
        lemma_powers_are_positive(d);
        lemma_powers_are_positive(s);
        lemma_cross_products(
            fifth(t),
            fifth(d),
            fifth(s),
            fifth(n),
            twelfth(269025),
            twelfth(1000 * v + 14025),
        );
        lemma_fifth_of_product(t, d);
        lemma_fifth_of_product(s, n);
        if t * d >= s * n {
            assert(s * n >= 0) by (nonlinear_arith)
                requires
                    s > 0,
                    n >= 0,
            ;
            lemma_fifth_grows(s * n, t * d);
        }
    }
}

/// The rounded luminance is not above the exact one: it is less than every
/// weighted sum of fractions that are greater than the exact linear-light
/// values of the channels.
pub proof fn lemma_luminance_is_below_bounds(rgb: RGB, r: int, g: int, b: int, d: int)
    requires
        bounds_above(rgb, r, g, b, d),
    ensures
        luminance_of(rgb) * d < LINEAR_ONE * weighted(r, g, b),
{
    let tr = LINEAR[rgb.r as int] as int;
    let tg = LINEAR[rgb.g as int] as int;
    let tb = LINEAR[rgb.b as int] as int;
    let s = LINEAR_ONE as int;
    lemma_linear_is_floor(rgb.r as int);
    lemma_linear_is_floor(rgb.g as int);
    lemma_linear_is_floor(rgb.b as int);
    lemma_floor_is_below_excess(rgb.r as int, tr, s, r, d);
    lemma_floor_is_below_excess(rgb.g as int, tg, s, g, d);
    lemma_floor_is_below_excess(rgb.b as int, tb, s, b, d);
    let rounded = luminance_of(rgb);
    let bound = weighted(r, g, b);
    assert(rounded * d == 2126 * (tr * d) + 7152 * (tg * d) + 722 * (tb * d)) by (nonlinear_arith)
        requires
            rounded == 2126 * tr + 7152 * tg + 722 * tb,
    ;
    assert(s * bound == 2126 * (s * r) + 7152 * (s * g) + 722 * (s * b)) by (nonlinear_arith)
        requires
            bound == 2126 * r + 7152 * g + 722 * b,
    ;
}

/// The rounded luminance is less than [`ROUNDING`] units below the exact
/// one: with so many units added it is the weighted sum of three fractions
/// that are greater than the exact linear-light values of the channels.
pub proof fn lemma_luminance_is_near(rgb: RGB)
    ensures
        bounds_above(
            rgb,
            LINEAR[rgb.r as int] + 1,
            LINEAR[rgb.g as int] + 1,
            LINEAR[rgb.b as int] + 1,
            LINEAR_ONE as int,
        ),
        weighted(LINEAR[rgb.r as int] + 1, LINEAR[rgb.g as int] + 1, LINEAR[rgb.b as int] + 1)
            == luminance_of(rgb) + ROUNDING,
        weighted(LINEAR_ONE as int, LINEAR_ONE as int, LINEAR_ONE as int) == LUMINANCE_ONE,
{
    lemma_linear_is_floor(rgb.r as int);
    lemma_linear_is_floor(rgb.g as int);
    lemma_linear_is_floor(rgb.b as int);
}

/// The class of a colour is that of its exact luminance: a colour is
/// called dark just when its exact luminance is below one half.
pub proof fn lemma_class_is_exact(rgb: RGB)
    ensures
        is_dark(rgb) <==> is_dark_exactly(rgb),
{
    let s = LINEAR_ONE as int;
    if is_dark(rgb) {
        lemma_class_is_beyond_rounding(rgb);
        lemma_luminance_is_near(rgb);
        assert(bounds_above(
            rgb,
            LINEAR[rgb.r as int] + 1,
            LINEAR[rgb.g as int] + 1,
            LINEAR[rgb.b as int] + 1,
            s,
        ));
    }
    if is_dark_exactly(rgb) {
        let (r, g, b, d) = choose|r: int, g: int, b: int, d: int|
            #[trigger] bounds_above(rgb, r, g, b, d) && 2 * weighted(r, g, b) <= weighted(
                d,
                d,
                d,
            );
        lemma_luminance_is_below_bounds(rgb, r, g, b, d);
        let rounded = luminance_of(rgb);
        let bound = weighted(r, g, b);
        assert(rounded < 5000 * s) by (nonlinear_arith)
            requires
                rounded * d < s * bound,
                2 * bound <= 10000 * d,
                s > 0,
                d > 0,
        ;
    }
}

} // verus!
