//! Arithmetic of size estimates: byte lengths and saturating sums.
use vstd::prelude::*;
use vstd::utf8::encode_utf8;

verus! {

/// The number of bytes that the UTF-8 encoding of `s` takes (the length of a
/// string in memory always fits in `usize`).
pub open spec fn byte_len(s: Seq<char>) -> usize {
    encode_utf8(s).len() as usize
}

/// `x`, capped at `max`.
pub open spec fn saturate(x: int, max: int) -> int {
    if x > max {
        max
    } else {
        x
    }
}

/// The byte length of an optional string; none counts as zero.
pub open spec fn opt_byte_len(s: Option<Seq<char>>) -> usize {
    match s {
        Some(t) => byte_len(t),
        None => 0,
    }
}

/// The byte length of a string.
pub fn str_len(s: &str) -> (r: usize)
    ensures
        r == byte_len(s@),
{
    s.len()
}

/// The byte length of an optional string; none counts as zero.
pub fn opt_str_len(s: Option<&str>) -> (r: usize)
    ensures
        r == opt_byte_len(
            match s {
                Some(t) => Some(t@),
                None => None,
            },
        ),
{
    match s {
        Some(t) => t.len(),
        None => 0,
    }
}

/// `x` as a `u32`, capped at `u32::MAX`.
pub fn saturate_u32(x: usize) -> (r: u32)
    ensures
        r == saturate(x as int, u32::MAX as int),
{
    if x > u32::MAX as usize {
        u32::MAX
    } else {
        x as u32
    }
}

} // verus!

verus! {

/// The sum of a sequence of sizes.
pub open spec fn sum_sizes(s: Seq<usize>) -> int
    decreases s.len(),
{
    if s.len() == 0 {
        0
    } else {
        sum_sizes(s.drop_last()) + s.last()
    }
}

/// `acc + x`, capped at `u32::MAX`.
pub fn add_capped(acc: u32, x: usize) -> (r: u32)
    ensures
        r == saturate(acc + x, u32::MAX as int),
{
    acc.saturating_add(saturate_u32(x))
}

/// Adding the next element of a sequence of sizes to its capped running sum.
pub proof fn lemma_sum_step(base: int, s: Seq<usize>, i: int, acc: u32)
    requires
        base >= 0,
        0 <= i < s.len(),
        acc == saturate(base + sum_sizes(s.take(i)), u32::MAX as int),
    ensures
        saturate(acc + s[i], u32::MAX as int) == saturate(base + sum_sizes(s.take(i + 1)), u32::MAX as int),
{
    assert(s.take(i + 1).drop_last() =~= s.take(i));
    lemma_sum_nonneg(s.take(i));
}

/// A sum of sizes is never negative.
pub proof fn lemma_sum_nonneg(s: Seq<usize>)
    ensures
        sum_sizes(s) >= 0,
    decreases s.len(),
{
    if s.len() > 0 {
        lemma_sum_nonneg(s.drop_last());
    }
}

} // verus!
