//! Turning one random word into a number of a range.

use vstd::prelude::*;
use std::ops::Range;
use vstd::std_specs::bits::{axiom_u32_leading_zeros, u32_leading_zeros};

verus! {

/// How many numbers lie between `start` and `end`, both included, counted
/// in 32-bit arithmetic that wraps around.
pub open spec fn spec_span(start: i32, end: i32) -> nat {
    ((end - start + 1) % 0x1_0000_0000) as nat
}

/// The random word scaled down to a number below `span`: the upper half of
/// their 64-bit product.
pub open spec fn spec_scaled(random: u32, span: nat) -> nat {
    ((random * span) / 0x1_0000_0000) as nat
}

/// The largest scaled value that a draw is accepted with: `span` shifted
/// left until its top bit is set, less one.
pub open spec fn spec_zone(span: u32) -> u32 {
    let shifted = span << u32_leading_zeros(span);
    if shifted == 0 {
        u32::MAX
    } else {
        (shifted - 1) as u32
    }
}

/// `value` brought into the range of `i32` by wrapping around once.
pub open spec fn spec_wrap(value: int) -> int {
    if value > i32::MAX {
        value - 0x1_0000_0000
    } else {
        value
    }
}

/// The number that `random` picks: `start` plus the scaled random word.
pub open spec fn spec_rnd_range(range: Range<i32>, random: u32) -> int {
    spec_wrap(range.start + spec_scaled(random, spec_span(range.start, range.end)))
}

/// A number between `range.start` and `range.end`, both included, picked by
/// the random word `random`. A draw outside the accepted zone would give
/// `None`, for another word to be drawn; no word falls outside it. The
/// range must not span all 32-bit numbers.
pub fn rnd_range(range: Range<i32>, random: u32) -> (picked: Option<i32>)
    requires
        spec_span(range.start, range.end) != 0,
    ensures
        picked == if spec_scaled(random, spec_span(range.start, range.end)) <= spec_zone(
            spec_span(range.start, range.end) as u32,
        ) {
            Some(spec_rnd_range(range, random) as i32)
        } else {
            None
        },
        picked is Some,
{
    let diff: i64 = range.end as i64 - range.start as i64 + 1;
    let n_range: u32 = if diff < 0 {
        (diff + 0x1_0000_0000) as u32
    } else {
        diff as u32
    };
    proof {
        axiom_u32_leading_zeros(n_range);
        lemma_draw_always_accepted(random, n_range);
    }
    let zone: u32 = (n_range << n_range.leading_zeros()).wrapping_sub(1);
    assert(random * n_range <= 0xffff_ffff * 0xffff_ffff) by (nonlinear_arith)
        requires
            random <= 0xffff_ffff,
            n_range <= 0xffff_ffff,
    ;
    let product: u64 = (random as u64) * (n_range as u64);
    let high: u64 = product / 0x1_0000_0000;
    if high <= zone as u64 {
        let sum: i64 = range.start as i64 + high as i64;
        if sum > 0x7fff_ffff {
            Some((sum - 0x1_0000_0000) as i32)
        } else {
            Some(sum as i32)
        }
    } else {
        None
    }
}

/// The scaled random word is below the span.
pub proof fn lemma_scaled_below_span(random: u32, span: u32)
    requires
        span != 0,
    ensures
        spec_scaled(random, span as nat) < span,
{
    assert(random * span < 0x1_0000_0000 * span) by (nonlinear_arith)
        requires
            random < 0x1_0000_0000,
            span > 0,
    ;
    vstd::arithmetic::div_mod::lemma_div_by_multiple_is_strongly_ordered(
        random * span,
        0x1_0000_0000 * span,
        span as int,
        0x1_0000_0000,
    );
    vstd::arithmetic::div_mod::lemma_div_by_multiple(span as int, 0x1_0000_0000);
    assert(0x1_0000_0000 * span == span * 0x1_0000_0000) by (nonlinear_arith);
}

/// Every draw is accepted: whatever the random word, its scaled value lies
/// in the zone, so no second word is ever needed.
pub proof fn lemma_draw_always_accepted(random: u32, span: u32)
    requires
        span != 0,
    ensures
        spec_scaled(random, span as nat) <= spec_zone(span),
{
    let lz = u32_leading_zeros(span);
    axiom_u32_leading_zeros(span);
    lemma_scaled_below_span(random, span);
    let top: u32 = (31 - lz) as u32;
    let shifted = span << lz;
    assert(shifted >= 0x8000_0000u32) by (bit_vector)
        requires
            lz < 32,
            top == 31 - lz,
            (span >> top) & 1u32 != 0u32,
            shifted == span << lz,
    ;
    if span > 0x8000_0000u32 {
        if lz > 0 {
            let rest: u32 = (32 - lz) as u32;
            assert(span < 0x8000_0000u32) by (bit_vector)
                requires
                    0 < lz < 32,
                    rest == 32 - lz,
                    span >> rest == 0,
            ;
        }
        assert(span << 0u32 == span) by (bit_vector);
    }
}

/// A pick from a range that runs upward lies in the range, ends included.
pub proof fn lemma_pick_lies_in_range(range: Range<i32>, random: u32)
    requires
        range.start <= range.end,
        spec_span(range.start, range.end) != 0,
    ensures
        range.start <= spec_rnd_range(range, random) <= range.end,
{
    lemma_scaled_below_span(random, spec_span(range.start, range.end) as u32);
}

} // verus!
