use sendspin_cli::volume::{scale_sample, scale_samples};

#[test]
fn test_full_volume_is_exact_copy() {
    // Scaling by volume 100 reproduces the original samples exactly — no
    // rounding drift, even at the extremes.
    let samples = vec![i32::MAX, i32::MIN, -1, 0, 1, 123_456_789, -987_654_321];
    let scaled = scale_samples(&samples, 100);
    assert_eq!(scaled, samples);
}

#[test]
fn test_zero_volume_is_silence() {
    let samples = vec![i32::MAX, i32::MIN, -1, 0, 1, 424_242];
    let scaled = scale_samples(&samples, 0);
    assert_eq!(scaled, vec![0, 0, 0, 0, 0, 0]);
}

#[test]
fn test_half_volume_rounds_toward_zero() {
    let samples = vec![100, -100, 99, -99, 1, -1];
    let scaled = scale_samples(&samples, 50);
    assert_eq!(scaled, vec![50, -50, 49, -49, 0, 0]);
}

#[test]
fn test_volume_one_with_minimal_magnitude_samples() {
    // Boundary of the rounding rule: at volume 1 a sample needs magnitude
    // 100 before anything survives the division, and the quotient rounds
    // toward zero for both signs.
    assert_eq!(scale_sample(1, 1), 0);
    assert_eq!(scale_sample(-1, 1), 0);
    assert_eq!(scale_sample(99, 1), 0);
    assert_eq!(scale_sample(-99, 1), 0);
    assert_eq!(scale_sample(100, 1), 1);
    assert_eq!(scale_sample(-100, 1), -1);
    assert_eq!(scale_sample(199, 1), 1);
    assert_eq!(scale_sample(-199, 1), -1);
}

#[test]
fn test_scaled_magnitude_never_exceeds_original() {
    for &s in &[i32::MAX, i32::MIN, 7, -7, 101, -101] {
        for v in 0..=100u8 {
            let r = scale_sample(s, v);
            assert!((r as i64).abs() <= (s as i64).abs());
        }
    }
}
