use oracle_web4::price::{floor_4dp, normalize, render_scaled, AssetPrice, ScaledPrice};
use oracle_web4::render::age_string;

#[test]
fn normalize_equal_decimals_is_exact_multiplier() {
    let q = AssetPrice { multiplier: 1_500_000, decimals: 6 };
    let s = normalize(q, 6).expect("no fault when feed decimals >= display decimals");
    assert_eq!(s.multiplier, 1_500_000);
    assert_eq!(s.decimals, 0);
    assert_eq!(render_scaled(s), b"1500000".to_vec());
}

#[test]
fn normalize_larger_feed_decimals_divides() {
    let q = AssetPrice { multiplier: 1_500_000, decimals: 12 };
    let s = normalize(q, 6).unwrap();
    assert_eq!(s.multiplier, 1_500_000);
    assert_eq!(s.decimals, 6);
    assert_eq!(render_scaled(s), b"1.5".to_vec());
}

#[test]
fn normalize_smaller_feed_decimals_is_a_fault() {
    let q = AssetPrice { multiplier: 10, decimals: 4 };
    assert!(normalize(q, 6).is_none());
}

#[test]
fn render_scaled_exact_strings() {
    assert_eq!(render_scaled(ScaledPrice { multiplier: 0, decimals: 0 }), b"0".to_vec());
    assert_eq!(render_scaled(ScaledPrice { multiplier: 0, decimals: 3 }), b"0".to_vec());
    assert_eq!(render_scaled(ScaledPrice { multiplier: 5, decimals: 1 }), b"0.5".to_vec());
    assert_eq!(render_scaled(ScaledPrice { multiplier: 5, decimals: 3 }), b"0.005".to_vec());
    assert_eq!(render_scaled(ScaledPrice { multiplier: 1500000, decimals: 6 }), b"1.5".to_vec());
    assert_eq!(render_scaled(ScaledPrice { multiplier: 123456, decimals: 2 }), b"1234.56".to_vec());
    assert_eq!(render_scaled(ScaledPrice { multiplier: 100, decimals: 2 }), b"1".to_vec());
    // an exponent far beyond the mantissa's digit count still renders exactly
    assert_eq!(
        render_scaled(ScaledPrice { multiplier: 7, decimals: 40 }),
        b"0.0000000000000000000000000000000000000007".to_vec()
    );
}

#[test]
fn floor_4dp_truncates_toward_zero() {
    // 1.23456789 -> 1.2345
    let s = ScaledPrice { multiplier: 123456789, decimals: 8 };
    let f = floor_4dp(s);
    assert_eq!(f.decimals, 4);
    assert_eq!(f.multiplier, 12345);
    assert_eq!(render_scaled(f), b"1.2345".to_vec());
    // the floored value never exceeds the true one and differs by < 0.0001
    assert!(12345u128 * 10_000 <= 123456789);
    assert!(123456789 < (12345u128 + 1) * 10_000);
}

#[test]
fn floor_4dp_keeps_short_fractions() {
    let s = ScaledPrice { multiplier: 999, decimals: 2 };
    let f = floor_4dp(s);
    assert_eq!(f.multiplier, 999);
    assert_eq!(f.decimals, 2);
}

#[test]
fn age_string_two_decimals() {
    // 100 ns -> 0.00 s
    assert_eq!(age_string(300, 200), b"0.00".to_vec());
    // 1.5 s exactly
    assert_eq!(age_string(1_500_000_000, 0), b"1.50".to_vec());
    // rounds half-up at the third decimal
    assert_eq!(age_string(1_005_000_000, 0), b"1.01".to_vec());
    assert_eq!(age_string(1_004_999_999, 0), b"1.00".to_vec());
    // a timestamp in the future counts as age zero
    assert_eq!(age_string(100, 200), b"0.00".to_vec());
}
