use ball_session::arithmetic::{SIX, TWO};
use ball_session::ball::{FIELD_LENGTH, TOUCH_WINDOW};
use ball_session::binary32::{abs, ge, gt, lt, nan, negative, rank_of, zero, EPSILON, INFINITY, SIGN};
use ball_session::session::TICK_DT;

fn samples() -> Vec<f32> {
    vec![
        0.0,
        -0.0,
        f32::MIN_POSITIVE,
        -f32::MIN_POSITIVE,
        f32::from_bits(1),
        f32::from_bits(0x8000_0001),
        f32::EPSILON,
        -f32::EPSILON,
        0.099_999_99,
        0.1,
        0.100_000_01,
        0.5,
        1.0,
        -1.0,
        3.0,
        92.0,
        4819.999_5,
        4820.0,
        -4820.0,
        4820.000_5,
        5120.0,
        -5120.0,
        f32::MAX,
        f32::MIN,
        f32::INFINITY,
        f32::NEG_INFINITY,
        f32::NAN,
        -f32::NAN,
        f32::from_bits(0x7f80_0001),
        f32::from_bits(0xffff_ffff),
    ]
}

#[test]
fn constants_are_the_patterns_of_their_numbers() {
    assert_eq!(EPSILON, f32::EPSILON.to_bits());
    assert_eq!(INFINITY, f32::INFINITY.to_bits());
    assert_eq!(SIGN, (-0.0f32).to_bits());
    assert_eq!(TOUCH_WINDOW, 0.1f32.to_bits());
    assert_eq!(FIELD_LENGTH, 4820.0f32.to_bits());
    assert_eq!(TICK_DT, (1.0f32 / 120.0f32).to_bits());
    assert_eq!(SIX, 6.0f32.to_bits());
    assert_eq!(TWO, 2.0f32.to_bits());
}

#[test]
fn less_than_agrees_with_the_numbers() {
    for a in samples() {
        for b in samples() {
            assert_eq!(lt(a.to_bits(), b.to_bits()), a < b, "{a:?} < {b:?}");
        }
    }
}

#[test]
fn at_least_agrees_with_the_numbers() {
    for a in samples() {
        for b in samples() {
            assert_eq!(ge(a.to_bits(), b.to_bits()), a >= b, "{a:?} >= {b:?}");
        }
    }
}

#[test]
fn greater_than_agrees_with_the_numbers() {
    for a in samples() {
        for b in samples() {
            assert_eq!(gt(a.to_bits(), b.to_bits()), a > b, "{a:?} > {b:?}");
        }
    }
}

#[test]
fn absolute_value_clears_the_sign() {
    for a in samples() {
        assert_eq!(abs(a.to_bits()), a.abs().to_bits(), "{a:?}");
    }
    assert_eq!(abs((-3.0f32).to_bits()), 3.0f32.to_bits());
}

#[test]
fn nan_is_told_from_numbers() {
    for a in samples() {
        assert_eq!(nan(a.to_bits()), a.is_nan(), "{a:?}");
    }
    assert!(nan(f32::NAN.to_bits()));
    assert!(!nan(f32::INFINITY.to_bits()));
}

#[test]
fn negative_means_a_signum_of_minus_one() {
    for a in samples() {
        assert_eq!(negative(a.to_bits()), (a.signum() + 1.0).abs() < f32::EPSILON, "{a:?}");
    }
    assert!(negative((-0.0f32).to_bits()));
    assert!(!negative(0.0f32.to_bits()));
    assert!(!negative(f32::NAN.to_bits()));
}

#[test]
fn zero_is_either_zero() {
    for a in samples() {
        assert_eq!(zero(a.to_bits()), a == 0.0, "{a:?}");
    }
}

#[test]
fn rank_counts_patterns_from_zero() {
    assert_eq!(rank_of(0.0f32.to_bits()), 0);
    assert_eq!(rank_of((-0.0f32).to_bits()), 0);
    assert_eq!(rank_of(1), 1);
    assert_eq!(rank_of(0x8000_0001), -1);
    assert_eq!(rank_of(1.0f32.to_bits()), 0x3f80_0000);
    assert_eq!(rank_of((-1.0f32).to_bits()), -0x3f80_0000);
}

#[test]
fn rank_orders_as_the_numbers_do() {
    for a in samples() {
        for b in samples() {
            if !a.is_nan() && !b.is_nan() {
                assert_eq!(rank_of(a.to_bits()) < rank_of(b.to_bits()), a < b, "{a:?} {b:?}");
            }
        }
    }
}
