//! Single-precision arctangent over binary32 bit patterns.
//!
//! The algorithm is the classic argument-reduction scheme: for magnitudes in
//! [0.4375, 2^26) the input is mapped into a small interval around zero with
//! one of four rational transformations, a minimax polynomial for
//! atan(x) - x is evaluated there, and the result is reconstructed from
//! compensated high/low arctangent constants for the region. Tiny inputs are
//! returned unchanged, huge ones collapse to the single-precision pi/2, and a
//! NaN propagates bit for bit.
//!
//! All control flow and data flow here is verified over `u32` patterns; the
//! four IEEE 754 binary32 arithmetic operations themselves are performed by
//! an exact software implementation behind trusted wrappers, and the
//! contracts name their results with uninterpreted functions.

use vstd::prelude::*;

use crate::sign::abs;
use crate::sign::flipsign;
use crate::sign::is_negative;
use crate::sign::spec_flipsign;
use crate::sign::spec_magnitude;
use crate::sign::spec_sign_set;
use rustc_apfloat::Float;
use rustc_apfloat::ieee::Single;

verus! {

// Bit patterns of the float constants the algorithm uses.
pub const BIT_ONE: u32 = 0x3f80_0000;  // 1.0
pub const BIT_TWO: u32 = 0x4000_0000;  // 2.0
pub const BIT_THREE_HALVES: u32 = 0x3fc0_0000;  // 1.5
pub const BIT_MINUS_ONE: u32 = 0xbf80_0000;  // -1.0
pub const BIT_TWO_POW_MINUS_120: u32 = 0x0380_0000;  // 2^-120

// Compensated arctangent constants: high and low parts of atan at 0.5, 1.0,
// 1.5 and infinity.
pub const ATAN_HI_0: u32 = 0x3eed_6338;  // atan(0.5) high part
pub const ATAN_HI_1: u32 = 0x3f49_0fda;  // atan(1.0) high part
pub const ATAN_HI_2: u32 = 0x3f7b_985e;  // atan(1.5) high part
pub const ATAN_HI_3: u32 = 0x3fc9_0fda;  // atan(inf) high part
pub const ATAN_LO_0: u32 = 0x31ac_3769;  // atan(0.5) low part
pub const ATAN_LO_1: u32 = 0x3322_2168;  // atan(1.0) low part
pub const ATAN_LO_2: u32 = 0x3314_0fb4;  // atan(1.5) low part
pub const ATAN_LO_3: u32 = 0x33a2_2168;  // atan(inf) low part

// Minimax polynomial coefficients for atan(x) - x on the reduced interval.
pub const A_T_0: u32 = 0x3eaa_aaa9;
pub const A_T_1: u32 = 0xbe4c_ca98;
pub const A_T_2: u32 = 0x3e11_f50d;
pub const A_T_3: u32 = 0xbdda_1247;
pub const A_T_4: u32 = 0x3d7c_ac25;

// Magnitude thresholds that pick the branch and the reduction region.
pub const MAG_HUGE: u32 = 0x4c80_0000;  // 2^26
pub const MAG_NO_REDUCE: u32 = 0x3ee0_0000;  // 0.4375: below this, no reduction
pub const MAG_TINY: u32 = 0x3980_0000;  // below this, atan(x) is x
pub const MAG_REGION_1: u32 = 0x3f30_0000;  // 0.6875
pub const MAG_REGION_2: u32 = 0x3f98_0000;  // 1.1875
pub const MAG_REGION_3: u32 = 0x401c_0000;  // 2.4375
pub const MAG_INF: u32 = 0x7f80_0000;  // infinity

/// The bit pattern of the IEEE 754 binary32 sum of the floats with patterns
/// `a` and `b`, rounded to nearest, ties to even.
pub uninterp spec fn add_bits_of(a: u32, b: u32) -> u32;

/// The bit pattern of the IEEE 754 binary32 difference of the floats with
/// patterns `a` and `b`, rounded to nearest, ties to even.
pub uninterp spec fn sub_bits_of(a: u32, b: u32) -> u32;

/// The bit pattern of the IEEE 754 binary32 product of the floats with
/// patterns `a` and `b`, rounded to nearest, ties to even.
pub uninterp spec fn mul_bits_of(a: u32, b: u32) -> u32;

/// The bit pattern of the IEEE 754 binary32 quotient of the floats with
/// patterns `a` and `b`, rounded to nearest, ties to even.
pub uninterp spec fn div_bits_of(a: u32, b: u32) -> u32;

/// Relies on rustc_apfloat's `Add` impl for `ieee::Single` (`add_r`, round to
/// nearest ties to even): exact IEEE 754 binary32 addition, a function of the
/// two operand bit patterns alone.
#[verifier::external_body]
fn add_bits(a: u32, b: u32) -> (r: u32)
    ensures
        r == add_bits_of(a, b),
{
    let x = Single::from_bits(a as u128);
    let y = Single::from_bits(b as u128);
    (x + y).value.to_bits() as u32
}

/// Relies on rustc_apfloat's `Sub` impl for `ieee::Single` (`sub_r`, round to
/// nearest ties to even): exact IEEE 754 binary32 subtraction, a function of
/// the two operand bit patterns alone.
#[verifier::external_body]
fn sub_bits(a: u32, b: u32) -> (r: u32)
    ensures
        r == sub_bits_of(a, b),
{
    let x = Single::from_bits(a as u128);
    let y = Single::from_bits(b as u128);
    (x - y).value.to_bits() as u32
}

/// Relies on rustc_apfloat's `Mul` impl for `ieee::Single` (`mul_r`, round to
/// nearest ties to even): exact IEEE 754 binary32 multiplication, a function
/// of the two operand bit patterns alone.
#[verifier::external_body]
fn mul_bits(a: u32, b: u32) -> (r: u32)
    ensures
        r == mul_bits_of(a, b),
{
    let x = Single::from_bits(a as u128);
    let y = Single::from_bits(b as u128);
    (x * y).value.to_bits() as u32
}

/// Relies on rustc_apfloat's `Div` impl for `ieee::Single` (`div_r`, round to
/// nearest ties to even): exact IEEE 754 binary32 division, a function of the
/// two operand bit patterns alone.
#[verifier::external_body]
fn div_bits(a: u32, b: u32) -> (r: u32)
    ensures
        r == div_bits_of(a, b),
{
    let x = Single::from_bits(a as u128);
    let y = Single::from_bits(b as u128);
    (x / y).value.to_bits() as u32
}

/// Whether a pattern is a NaN: magnitude bits strictly above the infinity
/// pattern.
pub open spec fn spec_is_nan(b: u32) -> bool {
    spec_magnitude(b) > MAG_INF
}

/// `x * (s1 + s2)`: the minimax polynomial for atan(x) - x, evaluated at the
/// float with pattern `x` with the sum split into even and odd accumulations
/// to limit rounding error.
pub open spec fn spec_atan_poly(x: u32) -> u32 {
    let z = mul_bits_of(x, x);
    let w = mul_bits_of(z, z);
    let s1 = mul_bits_of(z, add_bits_of(A_T_0, mul_bits_of(w, add_bits_of(A_T_2, mul_bits_of(w, A_T_4)))));
    let s2 = mul_bits_of(w, add_bits_of(A_T_1, mul_bits_of(w, A_T_3)));
    mul_bits_of(x, add_bits_of(s1, s2))
}

/// The reduced argument for a magnitude in [0.4375, 2^26): one of the four
/// rational transformations, chosen by region.
pub open spec fn spec_reduced(ix: u32) -> u32 {
    if ix < MAG_REGION_1 {
        // [0.4375, 0.6875): (2x - 1) / (2 + x)
        div_bits_of(sub_bits_of(mul_bits_of(BIT_TWO, ix), BIT_ONE), add_bits_of(BIT_TWO, ix))
    } else if ix < MAG_REGION_2 {
        // [0.6875, 1.1875): (x - 1) / (x + 1)
        div_bits_of(sub_bits_of(ix, BIT_ONE), add_bits_of(ix, BIT_ONE))
    } else if ix < MAG_REGION_3 {
        // [1.1875, 2.4375): (x - 1.5) / (1 + 1.5 x)
        div_bits_of(
            sub_bits_of(ix, BIT_THREE_HALVES),
            add_bits_of(BIT_ONE, mul_bits_of(BIT_THREE_HALVES, ix)),
        )
    } else {
        // [2.4375, 2^26): -1 / x
        div_bits_of(BIT_MINUS_ONE, ix)
    }
}

/// The high-part arctangent constant of the reduction region that a magnitude
/// in [0.4375, 2^26) falls in.
pub open spec fn spec_atan_hi(ix: u32) -> u32 {
    if ix < MAG_REGION_1 {
        ATAN_HI_0
    } else if ix < MAG_REGION_2 {
        ATAN_HI_1
    } else if ix < MAG_REGION_3 {
        ATAN_HI_2
    } else {
        ATAN_HI_3
    }
}

/// The low-part arctangent constant of the reduction region that a magnitude
/// in [0.4375, 2^26) falls in.
pub open spec fn spec_atan_lo(ix: u32) -> u32 {
    if ix < MAG_REGION_1 {
        ATAN_LO_0
    } else if ix < MAG_REGION_2 {
        ATAN_LO_1
    } else if ix < MAG_REGION_3 {
        ATAN_LO_2
    } else {
        ATAN_LO_3
    }
}

/// The arctangent of the non-NaN float whose magnitude bits are `ix` and
/// whose sign bit is clear. Huge magnitudes collapse to the rounded
/// single-precision pi/2, tiny ones are returned unchanged, everything else
/// goes through polynomial evaluation, with reduction and compensated
/// reconstruction for magnitudes of 0.4375 and above.
pub open spec fn spec_atan_mag(ix: u32) -> u32 {
    if ix >= MAG_HUGE {
        add_bits_of(ATAN_HI_3, BIT_TWO_POW_MINUS_120)
    } else if ix < MAG_NO_REDUCE {
        if ix < MAG_TINY {
            ix
        } else {
            sub_bits_of(ix, spec_atan_poly(ix))
        }
    } else {
        let xr = spec_reduced(ix);
        sub_bits_of(
            spec_atan_hi(ix),
            sub_bits_of(sub_bits_of(spec_atan_poly(xr), spec_atan_lo(ix)), xr),
        )
    }
}

/// The arctangent of an arbitrary pattern: a NaN propagates bit for bit;
/// otherwise the result is the arctangent of the magnitude, with the
/// argument's sign bit copied onto it.
pub open spec fn spec_atan(b: u32) -> u32 {
    if spec_is_nan(b) {
        b
    } else {
        let m = spec_atan_mag(spec_magnitude(b));
        if spec_sign_set(b) {
            spec_flipsign(m)
        } else {
            m
        }
    }
}

/// Evaluates the split minimax polynomial at the float with pattern `x`.
fn atan_poly(x: u32) -> (r: u32)
    ensures
        r == spec_atan_poly(x),
{
    let z = mul_bits(x, x);
    let w = mul_bits(z, z);
    let s1 = mul_bits(z, add_bits(A_T_0, mul_bits(w, add_bits(A_T_2, mul_bits(w, A_T_4)))));
    let s2 = mul_bits(w, add_bits(A_T_1, mul_bits(w, A_T_3)));
    mul_bits(x, add_bits(s1, s2))
}

/// Applies the reduction transformation of the region `ix` falls in.
fn reduce(ix: u32) -> (r: u32)
    requires
        MAG_NO_REDUCE <= ix < MAG_HUGE,
    ensures
        r == spec_reduced(ix),
{
    if ix < MAG_REGION_1 {
        div_bits(sub_bits(mul_bits(BIT_TWO, ix), BIT_ONE), add_bits(BIT_TWO, ix))
    } else if ix < MAG_REGION_2 {
        div_bits(sub_bits(ix, BIT_ONE), add_bits(ix, BIT_ONE))
    } else if ix < MAG_REGION_3 {
        div_bits(sub_bits(ix, BIT_THREE_HALVES), add_bits(BIT_ONE, mul_bits(BIT_THREE_HALVES, ix)))
    } else {
        div_bits(BIT_MINUS_ONE, ix)
    }
}

/// The arctangent of the non-NaN, sign-cleared magnitude `ix`.
fn atan_mag(ix: u32) -> (r: u32)
    requires
        ix <= MAG_INF,
    ensures
        r == spec_atan_mag(ix),
{
    if ix >= MAG_HUGE {
        add_bits(ATAN_HI_3, BIT_TWO_POW_MINUS_120)
    } else if ix < MAG_NO_REDUCE {
        if ix < MAG_TINY {
            ix
        } else {
            let p = atan_poly(ix);
            sub_bits(ix, p)
        }
    } else {
        let xr = reduce(ix);
        let hi = if ix < MAG_REGION_1 {
            ATAN_HI_0
        } else if ix < MAG_REGION_2 {
            ATAN_HI_1
        } else if ix < MAG_REGION_3 {
            ATAN_HI_2
        } else {
            ATAN_HI_3
        };
        let lo = if ix < MAG_REGION_1 {
            ATAN_LO_0
        } else if ix < MAG_REGION_2 {
            ATAN_LO_1
        } else if ix < MAG_REGION_3 {
            ATAN_LO_2
        } else {
            ATAN_LO_3
        };
        let p = atan_poly(xr);
        sub_bits(hi, sub_bits(sub_bits(p, lo), xr))
    }
}

/// The single-precision arctangent of the float whose bit pattern is `x`,
/// returned as a bit pattern. Total over every pattern: a NaN comes back bit
/// for bit, patterns below the tiny threshold come back unchanged (so
/// plus and minus zero and all subnormals map to themselves), and every other
/// input takes the reduction and polynomial path on its magnitude, with the
/// sign restored at the end.
pub fn atan(x: u32) -> (r: u32)
    ensures
        r == spec_atan(x),
        spec_is_nan(x) ==> r == x,
{
    let ix = abs(x);
    if ix > MAG_INF {
        return x;
    }
    let m = atan_mag(ix);
    if is_negative(x) {
        flipsign(m)
    } else {
        m
    }
}

/// The arctangent is exactly odd on every non-NaN pattern: flipping the
/// argument's sign bit flips the result's sign bit and changes nothing else,
/// because both signs take the same steps on the magnitude and the sign is
/// restored only at the end.
pub proof fn lemma_atan_odd(b: u32)
    requires
        !spec_is_nan(b),
    ensures
        spec_atan(spec_flipsign(b)) == spec_flipsign(spec_atan(b)),
{
    let f = spec_flipsign(b);
    assert(((b ^ 0x8000_0000) & 0x7fff_ffff) == (b & 0x7fff_ffff) && (((b ^ 0x8000_0000)
        >= 0x8000_0000u32) <==> !(b >= 0x8000_0000u32))) by (bit_vector);
    let m = spec_atan_mag(spec_magnitude(b));
    crate::sign::lemma_flipsign_involution(m);
}

/// Below the tiny magnitude threshold the arctangent is the identity on the
/// bit pattern: plus and minus zero and every subnormal map to themselves.
pub proof fn lemma_atan_tiny_identity(b: u32)
    requires
        spec_magnitude(b) < MAG_TINY,
    ensures
        spec_atan(b) == b,
{
    assert((b & 0x7fff_ffff) < 0x3980_0000u32 ==> ((b >= 0x8000_0000u32 ==> ((b & 0x7fff_ffff)
        ^ 0x8000_0000) == b) && (!(b >= 0x8000_0000u32) ==> (b & 0x7fff_ffff) == b)))
        by (bit_vector);
}

} // verus!

