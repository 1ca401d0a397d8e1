use vu_meter::ProcessingError;
use vu_meter::level::calculate_db;
use vu_meter::level::calculate_rms;
use vu_meter::level::normalize_db_to_percentage;
use vu_meter::level::AMPLITUDE_SCALE;

#[test]
fn silence_rms_db_percentage() {
    // An all-zero buffer has RMS 0; the silence clamp puts it at exactly
    // -200 dB, normalizing to exactly -100% (unclamped).
    let samples: Vec<i64> = vec![0; 8];
    let rms = calculate_rms(&samples).unwrap();
    assert_eq!(rms, 0);
    let db = calculate_db(rms);
    assert_eq!(db, -200);
    assert_eq!(normalize_db_to_percentage(db), -100_000);
}

#[test]
fn full_scale_sine_is_zero_db() {
    // A full-scale square-ish buffer (every sample at amplitude 1.0) has
    // RMS exactly 1.0 -> 0 dB -> 100%.
    let samples: Vec<i64> = vec![AMPLITUDE_SCALE, -AMPLITUDE_SCALE, AMPLITUDE_SCALE, -AMPLITUDE_SCALE];
    let rms = calculate_rms(&samples).unwrap();
    assert_eq!(rms as i64, AMPLITUDE_SCALE);
    let db = calculate_db(rms);
    assert_eq!(db, 0);
    assert_eq!(normalize_db_to_percentage(db), 100_000);
}

#[test]
fn rms_empty_buffer_invalid_input() {
    let samples: Vec<i64> = Vec::new();
    assert_eq!(calculate_rms(&samples), Err(ProcessingError::InvalidInput));
}

#[test]
fn rms_takes_floor_square_root() {
    // Mean square of [1.0, 0.0] is 0.5; its floor square root in
    // micro-units is 707106 (sqrt(0.5) = 0.70710678...).
    let samples: Vec<i64> = vec![1_000_000, 0];
    let rms = calculate_rms(&samples).unwrap();
    assert_eq!(rms, 707_106);
    // 20 * log10(0.707106) = -3.01..., floored to the whole decibel -4.
    assert_eq!(calculate_db(rms), -4);
}

#[test]
fn db_whole_decibel_staircase() {
    // Amplitude 2.0: 20 * log10(2) = 6.02..., floored to 6 dB.
    let samples: Vec<i64> = vec![2_000_000];
    let rms = calculate_rms(&samples).unwrap();
    assert_eq!(rms, 2_000_000);
    assert_eq!(calculate_db(rms), 6);

    // Decade anchors are exact.
    assert_eq!(calculate_db(1), -120);
    assert_eq!(calculate_db(10_000), -40);
    assert_eq!(calculate_db(100_000), -20);
    assert_eq!(calculate_db(100_000_000), 40);

    // The half-decade breakpoint 10^0.5 = 3.16227766...: one micro-unit
    // below stays at 9 dB, the breakpoint itself reaches 10 dB.
    assert_eq!(calculate_db(3_162_277), 9);
    assert_eq!(calculate_db(3_162_278), 10);
}

#[test]
fn normalization_is_not_clamped() {
    assert_eq!(normalize_db_to_percentage(-150), -50_000);
    assert_eq!(normalize_db_to_percentage(-50), 50_000);
    assert_eq!(normalize_db_to_percentage(20), 120_000);
    assert_eq!(normalize_db_to_percentage(0), 100_000);
    assert_eq!(normalize_db_to_percentage(-100), 0);
}
