//! Branchless sign-bit primitives on the bit pattern of an IEEE 754 binary32
//! float, and a single-precision arctangent over the same representation.
//!
//! Every value is carried as its raw 32-bit pattern (`u32`): bit 31 is the
//! sign, bits 30..23 the exponent, bits 22..0 the mantissa. Working on the
//! pattern keeps each operation total over all inputs, NaNs and infinities
//! included, and lets the contracts speak of exact bits.

pub mod atan;
pub mod sign;

pub use atan::atan;
pub use atan::lemma_atan_odd;
pub use atan::lemma_atan_tiny_identity;
pub use atan::spec_atan;
pub use atan::spec_is_nan;
pub use sign::abs;
pub use sign::copysign;
pub use sign::flipsign;
pub use sign::is_negative;
pub use sign::is_positive;
pub use sign::lemma_flipsign_involution;
pub use sign::lemma_sign_tests_partition;
pub use sign::spec_copysign;
pub use sign::spec_flipsign;
pub use sign::spec_magnitude;
pub use sign::spec_sign_clear;
pub use sign::spec_sign_set;
