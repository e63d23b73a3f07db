//! The two modes of the terminal that a query changes, as the flag words
//! that hold them.
//!
//! A query needs the terminal to hand over each byte as it comes and not to
//! show it, and a read that finds nothing to return at once. The first is a
//! matter of the local flags of the line discipline, the second of the
//! status flags of the descriptor. What the flags were before is kept by
//! whoever changes them and written back unchanged.

use vstd::prelude::*;

verus! {

/// The local flags `lflag` with line-wise input and echo switched off:
/// the bits of `icanon` and `echo` cleared and every other bit as it was.
pub fn raw_mode_flags(lflag: u64, icanon: u64, echo: u64) -> (raw: u64)
    ensures
        raw == lflag & !(icanon | echo),
        raw & icanon == 0,
        raw & echo == 0,
        raw | (lflag & (icanon | echo)) == lflag,
{
    let raw: u64 = lflag & !(icanon | echo);
    assert(raw & icanon == 0 && raw & echo == 0 && raw | (lflag & (icanon | echo)) == lflag)
        by (bit_vector)
        requires
            raw == lflag & !(icanon | echo),
    ;
    raw
}

/// The status flags `flags` with reads made to return at once: the bits of
/// `nonblock` set and every other bit as it was.
pub fn nonblocking_flags(flags: u32, nonblock: u32) -> (set: u32)
    ensures
        set == flags | nonblock,
        set & nonblock == nonblock,
        set & !nonblock == flags & !nonblock,
{
    let set: u32 = flags | nonblock;
    assert(set & nonblock == nonblock && set & !nonblock == flags & !nonblock) by (bit_vector)
        requires
            set == flags | nonblock,
    ;
    set
}

} // verus!
