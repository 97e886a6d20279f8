//! Branchless operations on the sign bit (bit 31) of a binary32 bit pattern.
//!
//! All five operations treat the pattern as opaque bits: no rounding, no NaN
//! quieting, no floating-point comparison. A NaN with its sign bit set counts
//! as negative here, and negative zero is negative, because only bit 31 is
//! consulted.

use vstd::prelude::*;

verus! {

/// The magnitude bits of a pattern: bits 30..0, with the sign bit cleared.
pub open spec fn spec_magnitude(b: u32) -> u32 {
    b & 0x7fff_ffff
}

/// Whether the sign bit (bit 31) of a pattern is set.
pub open spec fn spec_sign_set(b: u32) -> bool {
    b >= 0x8000_0000
}

/// Whether the sign bit (bit 31) of a pattern is clear.
pub open spec fn spec_sign_clear(b: u32) -> bool {
    b < 0x8000_0000
}

/// The pattern with its sign bit toggled.
pub open spec fn spec_flipsign(b: u32) -> u32 {
    b ^ 0x8000_0000
}

/// The pattern carrying `value`'s magnitude bits and `sign`'s sign bit.
pub open spec fn spec_copysign(value: u32, sign: u32) -> u32 {
    (value & 0x7fff_ffff) | (sign & 0x8000_0000)
}

/// Clears the sign bit: the result's magnitude bits are `value`'s, its sign
/// bit is zero. Total over every pattern, NaNs and infinities included.
#[inline(always)]
pub fn abs(value: u32) -> (r: u32)
    ensures
        r == spec_magnitude(value),
        !spec_sign_set(r),
        spec_magnitude(r) == spec_magnitude(value),
{
    proof {
        assert((value & 0x7fff_ffff) < 0x8000_0000u32 && ((value & 0x7fff_ffff) & 0x7fff_ffff)
            == value & 0x7fff_ffff) by (bit_vector);
    }
    value & 0x7fff_ffff
}

/// True iff the sign bit is set: the pattern, read as an unsigned integer, is
/// at least 0x8000_0000. Negative zero and sign-set NaNs count as negative.
#[inline(always)]
pub fn is_negative(value: u32) -> (r: bool)
    ensures
        r == spec_sign_set(value),
{
    value >= 0x8000_0000
}

/// True iff the sign bit is clear; positive zero counts as positive.
#[inline(always)]
pub fn is_positive(value: u32) -> (r: bool)
    ensures
        r == spec_sign_clear(value),
{
    value < 0x8000_0000
}

/// Toggles the sign bit by exclusive-or, leaving bits 30..0 untouched;
/// applies uniformly to zeros, infinities and NaNs.
#[inline(always)]
pub fn flipsign(value: u32) -> (r: u32)
    ensures
        r == spec_flipsign(value),
        spec_magnitude(r) == spec_magnitude(value),
        spec_sign_set(r) == !spec_sign_set(value),
{
    proof {
        assert(((value ^ 0x8000_0000) & 0x7fff_ffff) == value & 0x7fff_ffff && (((value
            ^ 0x8000_0000) >= 0x8000_0000u32) <==> !(value >= 0x8000_0000u32))) by (bit_vector);
    }
    value ^ 0x8000_0000
}

/// Builds the pattern whose magnitude bits are `value`'s and whose sign bit
/// is `sign`'s, independent of `value`'s original sign.
#[inline(always)]
pub fn copysign(value: u32, sign: u32) -> (r: u32)
    ensures
        r == spec_copysign(value, sign),
        spec_magnitude(r) == spec_magnitude(value),
        spec_sign_set(r) == spec_sign_set(sign),
{
    proof {
        assert((((value & 0x7fff_ffff) | (sign & 0x8000_0000)) & 0x7fff_ffff) == value
            & 0x7fff_ffff && ((((value & 0x7fff_ffff) | (sign & 0x8000_0000)) >= 0x8000_0000u32)
            <==> (sign >= 0x8000_0000u32))) by (bit_vector);
    }
    (value & 0x7fff_ffff) | (sign & 0x8000_0000)
}

/// Every pattern is exactly one of negative and positive: the two sign tests
/// partition the space of bit patterns, with no gap and no overlap.
pub proof fn lemma_sign_tests_partition(b: u32)
    ensures
        spec_sign_set(b) != spec_sign_clear(b),
{
}

/// Toggling the sign bit twice restores the original pattern bit for bit.
pub proof fn lemma_flipsign_involution(b: u32)
    ensures
        spec_flipsign(spec_flipsign(b)) == b,
{
    assert(((b ^ 0x8000_0000) ^ 0x8000_0000) == b) by (bit_vector);
}

} // verus!
