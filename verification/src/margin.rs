//! No colour lies within rounding of the threshold.
//!
//! [`luminance_of`] is the luminance of a colour rounded down: each of the
//! three linear-light values is held as a whole number of units and is less
//! than one unit too small, so the weighted sum is less than [`ROUNDING`]
//! units below the exact luminance, and never above it. A colour whose
//! rounded luminance is at least one half is therefore light by its exact
//! luminance too. One whose rounded luminance is below one half is dark by
//! its exact luminance if even [`ROUNDING`] units more do not lift it above
//! one half. This module proves that this is so for every colour: rounding
//! never changes the class.
//!
//! The proof goes green by green. Luminance grows with each channel. For a
//! green up to 149 every colour is dark, for one from 218 every colour is
//! light. For a green between them the reds fall into three stretches: low
//! reds, where every blue gives a dark colour; high reds, where every blue
//! gives a light one; and the reds between, each of which has an edge, the
//! first blue that gives a light colour. The edges are written down in the
//! modules below this one, ten greens to a module, and each is proved
//! against [`LINEAR`].

use crate::color::{
    lemma_luminance_grows, luminance_of, BLUE_WEIGHT, DARK_THRESHOLD, GREEN_WEIGHT, RED_WEIGHT,
    RGB,
};
use crate::srgb::LINEAR;
use vstd::prelude::*;

mod greens_150;
mod greens_160;
mod greens_170;
mod greens_180;
mod greens_190;
mod greens_200;
mod greens_210;

verus! {

/// What rounding can take off a luminance at most, and never quite takes
/// off: the three weights together.
pub const ROUNDING: u64 = 10_000;

/// The first green for which some colours are dark and some are light.
pub const FIRST_MIXED_GREEN: u8 = 150;

/// The last green for which some colours are dark and some are light.
pub const LAST_MIXED_GREEN: u8 = 217;

/// The rounded luminance of the colour with the channels `r`, `g` and `b`.
pub open spec fn lum(r: int, g: int, b: int) -> int {
    RED_WEIGHT * LINEAR[r] + GREEN_WEIGHT * LINEAR[g] + BLUE_WEIGHT * LINEAR[b]
}

/// Whether the class of the colour with the channels `r`, `g` and `b` is
/// beyond the reach of rounding: its rounded luminance is at least one
/// half, or is at most one half with all that rounding can have taken off.
pub open spec fn is_clear(r: int, g: int, b: int) -> bool {
    lum(r, g, b) >= DARK_THRESHOLD || lum(r, g, b) + ROUNDING <= DARK_THRESHOLD
}

/// Whether `b` is the edge for the red `r` and the green `g`: the colour
/// with the blue below `b` is dark beyond the reach of rounding, and that
/// with the blue `b` is light.
pub open spec fn is_edge(r: int, g: int, b: int) -> bool {
    &&& 1 <= b <= 255
    &&& lum(r, g, b - 1) + ROUNDING <= DARK_THRESHOLD
    &&& lum(r, g, b) >= DARK_THRESHOLD
}

/// Whether `edges[k]` is the edge for the red `first + k` and the green
/// `g`, for each `k` from `from` up to `to`.
pub open spec fn edges_hold(g: int, first: int, edges: Seq<u8>, from: int, to: int) -> bool
    decreases to - from,
{
    if from < 0 || from >= to || from >= edges.len() {
        true
    } else {
        is_edge(first + from, g, edges[from] as int) && edges_hold(g, first, edges, from + 1, to)
    }
}

/// Whether `edges` are the edges for the green `g` and the reds from
/// `first`, every lower red gives dark colours only, and every red above
/// those of `edges` gives light colours only.
pub open spec fn row_holds(g: int, first: int, edges: Seq<u8>) -> bool {
    &&& 0 <= first && first + edges.len() <= 256 && edges.len() <= 160
    &&& first > 0 ==> lum(first - 1, g, 255) + ROUNDING <= DARK_THRESHOLD
    &&& first + edges.len() < 256 ==> lum(first + edges.len(), g, 0) >= DARK_THRESHOLD
    &&& edges_hold(g, first, edges, 0, 16)
    &&& edges_hold(g, first, edges, 16, 32)
    &&& edges_hold(g, first, edges, 32, 48)
    &&& edges_hold(g, first, edges, 48, 64)
    &&& edges_hold(g, first, edges, 64, 80)
    &&& edges_hold(g, first, edges, 80, 96)
    &&& edges_hold(g, first, edges, 96, 112)
    &&& edges_hold(g, first, edges, 112, 128)
    &&& edges_hold(g, first, edges, 128, 144)
    &&& edges_hold(g, first, edges, 144, 160)
}

/// Luminance grows with each channel.
proof fn lemma_lum_grows(r: int, g: int, b: int, r2: int, g2: int, b2: int)
    requires
        0 <= r <= r2 <= 255,
        0 <= g <= g2 <= 255,
        0 <= b <= b2 <= 255,
    ensures
        lum(r, g, b) <= lum(r2, g2, b2),
{
    lemma_luminance_grows(
        RGB { r: r as u8, g: g as u8, b: b as u8 },
        RGB { r: r2 as u8, g: g2 as u8, b: b2 as u8 },
    );
}

/// Edges that hold over a stretch hold at each place in it.
proof fn lemma_edges_hold_at(g: int, first: int, edges: Seq<u8>, from: int, to: int, k: int)
    requires
        edges_hold(g, first, edges, from, to),
        0 <= from <= k < to,
        k < edges.len(),
    ensures
        is_edge(first + k, g, edges[k] as int),
    decreases to - from,
{
    if from < k {
        lemma_edges_hold_at(g, first, edges, from + 1, to, k);
    }
}

/// In a row that holds, the class of every colour is beyond the reach of
/// rounding.
proof fn lemma_row_is_clear(g: int, first: int, edges: Seq<u8>, r: int, b: int)
    requires
        row_holds(g, first, edges),
        0 <= g <= 255,
        0 <= r <= 255,
        0 <= b <= 255,
    ensures
        is_clear(r, g, b),
{
    if r < first {
        lemma_lum_grows(r, g, b, first - 1, g, 255);
    } else if r >= first + edges.len() {
        lemma_lum_grows(first + edges.len(), g, 0, r, g, b);
    } else {
        let k = r - first;
        if k < 16 {
            lemma_edges_hold_at(g, first, edges, 0, 16, k);
        } else if k < 32 {
            lemma_edges_hold_at(g, first, edges, 16, 32, k);
        } else if k < 48 {
            lemma_edges_hold_at(g, first, edges, 32, 48, k);
        } else if k < 64 {
            lemma_edges_hold_at(g, first, edges, 48, 64, k);
        } else if k < 80 {
            lemma_edges_hold_at(g, first, edges, 64, 80, k);
        } else if k < 96 {
            lemma_edges_hold_at(g, first, edges, 80, 96, k);
        } else if k < 112 {
            lemma_edges_hold_at(g, first, edges, 96, 112, k);
        } else if k < 128 {
            lemma_edges_hold_at(g, first, edges, 112, 128, k);
        } else if k < 144 {
            lemma_edges_hold_at(g, first, edges, 128, 144, k);
        } else {
            lemma_edges_hold_at(g, first, edges, 144, 160, k);
        }
        let edge = edges[k] as int;
        if b < edge {
            lemma_lum_grows(r, g, b, r, g, edge - 1);
        } else {
            lemma_lum_grows(r, g, edge, r, g, b);
        }
    }
}

/// For a green between the all-dark and the all-light ones, the class of
/// every colour is beyond the reach of rounding.
proof fn lemma_mixed_green_is_clear(r: int, g: int, b: int)
    requires
        0 <= r <= 255,
        FIRST_MIXED_GREEN <= g <= LAST_MIXED_GREEN,
        0 <= b <= 255,
    ensures
        is_clear(r, g, b),
{
    if g < 160 {
        greens_150::lemma_greens_are_clear(r, g, b);
    } else if g < 170 {
        greens_160::lemma_greens_are_clear(r, g, b);
    } else if g < 180 {
        greens_170::lemma_greens_are_clear(r, g, b);
    } else if g < 190 {
        greens_180::lemma_greens_are_clear(r, g, b);
    } else if g < 200 {
        greens_190::lemma_greens_are_clear(r, g, b);
    } else if g < 210 {
        greens_200::lemma_greens_are_clear(r, g, b);
    } else {
        greens_210::lemma_greens_are_clear(r, g, b);
    }
}

/// Rounding never changes the class of a colour: the rounded luminance of
/// every colour is at least one half, or is at most one half with all that
/// rounding can have taken off.
pub proof fn lemma_class_is_beyond_rounding(rgb: RGB)
    ensures
        luminance_of(rgb) >= DARK_THRESHOLD || luminance_of(rgb) + ROUNDING <= DARK_THRESHOLD,
{
    let (r, g, b) = (rgb.r as int, rgb.g as int, rgb.b as int);
    if g < FIRST_MIXED_GREEN {
        lemma_lum_grows(r, g, b, 255, FIRST_MIXED_GREEN - 1, 255);
    } else if g > LAST_MIXED_GREEN {
        lemma_lum_grows(0, LAST_MIXED_GREEN + 1, 0, r, g, b);
    } else {
        lemma_mixed_green_is_clear(r, g, b);
    }
}

} // verus!
