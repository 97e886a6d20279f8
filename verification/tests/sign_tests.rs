use atan32::abs;
use atan32::copysign;
use atan32::flipsign;
use atan32::is_negative;
use atan32::is_positive;

const PATTERNS: [u32; 14] = [
    0x0000_0000, // +0.0
    0x8000_0000, // -0.0
    0x3f80_0000, // 1.0
    0xbf80_0000, // -1.0
    0x7f80_0000, // +inf
    0xff80_0000, // -inf
    0x7fc0_0001, // quiet NaN with payload
    0xffc0_0001, // sign-set quiet NaN
    0x7f80_0001, // signalling NaN
    0x0000_0001, // smallest subnormal
    0x8000_0001, // negative smallest subnormal
    0x007f_ffff, // largest subnormal
    0x7f7f_ffff, // largest finite
    0xffff_ffff, // sign-set NaN, all payload bits on
];

#[test]
fn abs_clears_sign_bit_and_keeps_magnitude() {
    for &p in PATTERNS.iter() {
        let r = abs(p);
        assert_eq!(r >> 31, 0);
        assert_eq!(r & 0x7fff_ffff, p & 0x7fff_ffff);
    }
}

#[test]
fn abs_matches_float_absolute_value() {
    assert_eq!(abs((-1.5f32).to_bits()), 1.5f32.to_bits());
    assert_eq!(abs(2.25f32.to_bits()), 2.25f32.to_bits());
    assert_eq!(abs((-0.0f32).to_bits()), 0.0f32.to_bits());
    assert_eq!(abs(f32::NEG_INFINITY.to_bits()), f32::INFINITY.to_bits());
}

#[test]
fn sign_tests_partition_every_pattern() {
    for &p in PATTERNS.iter() {
        assert_ne!(is_negative(p), is_positive(p));
    }
}

#[test]
fn negative_zero_is_negative_and_positive_zero_is_positive() {
    assert!(is_negative((-0.0f32).to_bits()));
    assert!(is_positive(0.0f32.to_bits()));
    assert!(!is_negative(0.0f32.to_bits()));
    assert!(!is_positive((-0.0f32).to_bits()));
}

#[test]
fn sign_tests_are_pure_bit_tests_on_nans() {
    // An IEEE `<` comparison is false for any NaN; the bit test is not.
    assert!(is_negative(0xffc0_0001));
    assert!(is_positive(0x7fc0_0001));
}

#[test]
fn flipsign_toggles_only_the_sign_bit() {
    for &p in PATTERNS.iter() {
        let r = flipsign(p);
        assert_eq!(r & 0x7fff_ffff, p & 0x7fff_ffff);
        assert_ne!(r >> 31, p >> 31);
    }
    assert_eq!(flipsign(1.0f32.to_bits()), (-1.0f32).to_bits());
    assert_eq!(flipsign(0.0f32.to_bits()), (-0.0f32).to_bits());
}

#[test]
fn flipsign_twice_restores_every_pattern() {
    for &p in PATTERNS.iter() {
        assert_eq!(flipsign(flipsign(p)), p);
    }
}

#[test]
fn copysign_takes_magnitude_from_value_and_sign_from_sign() {
    for &v in PATTERNS.iter() {
        for &s in PATTERNS.iter() {
            let r = copysign(v, s);
            assert_eq!(r & 0x7fff_ffff, v & 0x7fff_ffff);
            assert_eq!(r >> 31, s >> 31);
        }
    }
}

#[test]
fn copysign_matches_float_copysign_on_ordinary_values() {
    assert_eq!(
        copysign(1.5f32.to_bits(), (-0.0f32).to_bits()),
        (-1.5f32).to_bits(),
    );
    assert_eq!(
        copysign((-2.5f32).to_bits(), 3.0f32.to_bits()),
        2.5f32.to_bits(),
    );
    assert_eq!(
        copysign(0.0f32.to_bits(), (-1.0f32).to_bits()),
        (-0.0f32).to_bits(),
    );
}
