//! Wraparound-safe arithmetic over 32-bit TCP sequence numbers.
//!
//! Sequence and acknowledgment numbers live on a circle of size 2^32; all
//! comparisons go through forward distances on that circle, never through
//! raw numeric ordering.
use vstd::prelude::*;

verus! {

/// Addition modulo 2^32 on sequence numbers.
pub open spec fn wrap_add(a: u32, k: u32) -> u32 {
    if a + k > u32::MAX {
        (a + k - 0x1_0000_0000) as u32
    } else {
        (a + k) as u32
    }
}

/// Forward distance from `from` to `to` on the circular sequence line:
/// the unique `d` in `[0, 2^32)` with `from + d == to (mod 2^32)`.
pub open spec fn distance(from: u32, to: u32) -> int {
    if to - from < 0 {
        to - from + 0x1_0000_0000
    } else {
        to - from
    }
}

/// `x` lies strictly between `start` and `end` on the circular line
/// (excluding both endpoints), which also covers the case where `end`
/// is numerically below `start` because the range wraps.
pub open spec fn spec_between(start: u32, x: u32, end: u32) -> bool {
    0 < distance(start, x) && distance(start, x) < distance(start, end)
}

/// `a` comes strictly before `b`, reading the circle within half its
/// span (the usual TCP interpretation of "older").
pub open spec fn seq_lt(a: u32, b: u32) -> bool {
    0 < distance(a, b) && distance(a, b) < 0x8000_0000
}

/// `a` comes before `b` or equals it, within half the circle's span.
pub open spec fn seq_le(a: u32, b: u32) -> bool {
    distance(a, b) < 0x8000_0000
}

/// Sequence-number addition; wraparound is the expected case, never a fault.
pub fn seq_add(a: u32, k: u32) -> (r: u32)
    ensures
        r == wrap_add(a, k),
{
    a.wrapping_add(k)
}

/// Forward distance from `from` to `to`, as a machine word.
pub fn seq_distance(from: u32, to: u32) -> (r: u32)
    ensures
        r as int == distance(from, to),
{
    to.wrapping_sub(from)
}

/// Does `a` come strictly before `b` on the circle, within half its span?
pub fn is_seq_lt(a: u32, b: u32) -> (r: bool)
    ensures
        r == seq_lt(a, b),
{
    let d: u32 = b.wrapping_sub(a);
    0 < d && d < 0x8000_0000
}

/// Does `a` come before `b` or equal it, within half the circle's span?
pub fn is_seq_le(a: u32, b: u32) -> (r: bool)
    ensures
        r == seq_le(a, b),
{
    b.wrapping_sub(a) < 0x8000_0000
}

/// The single primitive all acceptance checks are built from: is `x`
/// strictly between `start` and `end` on the circular number line?
pub fn is_between_wrapped(start: u32, x: u32, end: u32) -> (r: bool)
    ensures
        r == spec_between(start, x, end),
{
    let dx: u32 = x.wrapping_sub(start);
    let de: u32 = end.wrapping_sub(start);
    0 < dx && dx < de
}

/// Stepping from `a` forward to `b` leaves exactly the remaining distance
/// to any point `c` that is at least as far along.
pub proof fn lemma_distance_chain(a: u32, b: u32, c: u32)
    requires
        distance(a, b) <= distance(a, c),
    ensures
        distance(b, c) == distance(a, c) - distance(a, b),
{
}

/// Distances along a path concatenate as long as the path does not wrap
/// the whole circle.
pub proof fn lemma_distance_concat(a: u32, b: u32, c: u32)
    requires
        distance(a, b) + distance(b, c) < 0x1_0000_0000,
    ensures
        distance(a, c) == distance(a, b) + distance(b, c),
{
}

/// Moving `k` forward from `a` lands exactly `k` away.
pub proof fn lemma_distance_wrap_add(a: u32, k: u32)
    ensures
        distance(a, wrap_add(a, k)) == k,
{
}

/// The two ways around the circle between distinct points sum to its size.
pub proof fn lemma_distance_antisym(a: u32, b: u32)
    requires
        a != b,
    ensures
        distance(a, b) + distance(b, a) == 0x1_0000_0000,
{
}

/// Betweenness is invariant under uniform rotation of the circle: shifting
/// `start`, `x` and `end` by the same offset `k` (mod 2^32) changes nothing.
pub proof fn lemma_between_rotation(start: u32, x: u32, end: u32, k: u32)
    ensures
        spec_between(start, x, end) == spec_between(
            wrap_add(start, k),
            wrap_add(x, k),
            wrap_add(end, k),
        ),
{
    assert(distance(wrap_add(start, k), wrap_add(x, k)) == distance(start, x));
    assert(distance(wrap_add(start, k), wrap_add(end, k)) == distance(start, end));
}

} // verus!
