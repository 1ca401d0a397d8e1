use vu_meter::ProcessingError;
use vu_meter::meter::Configuration;
use vu_meter::meter::MeterState;
use vu_meter::meter::Trend;
use vu_meter::meter::process_buffer;

fn raw_config(alert_threshold: i64) -> Configuration {
    Configuration {
        meter_width: 100,
        moving_avg_size: 4,
        alert_threshold,
        use_moving_average: false,
    }
}

#[test]
fn default_configuration_values() {
    let c = Configuration::default();
    assert_eq!(c.meter_width, 100);
    assert_eq!(c.moving_avg_size, 10);
    assert_eq!(c.alert_threshold, 80_000);
    assert!(c.use_moving_average);
}

#[test]
fn state_new_zero_window_invalid_configuration() {
    let mut c = Configuration::default();
    c.moving_avg_size = 0;
    assert!(matches!(
        MeterState::new(&c, 0),
        Err(ProcessingError::InvalidConfiguration)
    ));
}

#[test]
fn default_state_starts_at_the_sentinels() {
    let s = MeterState::default();
    assert_eq!(s.current_level, 0);
    assert_eq!(s.min_level, i64::MAX);
    assert_eq!(s.max_level, i64::MIN);
    assert_eq!(s.prev_smoothed_level, None);
    assert_eq!(s.start_ms, 0);
}

#[test]
fn first_update_trend_is_flat() {
    // No previous value: Flat, whatever the level is.
    let cfg = raw_config(80_000);
    let mut state = MeterState::new(&cfg, 0).unwrap();
    let snap = state.update(55_000, &cfg, 0);
    assert_eq!(snap.trend, Trend::Flat);

    let mut state2 = MeterState::new(&cfg, 0).unwrap();
    let snap2 = state2.update(-40_000, &cfg, 0);
    assert_eq!(snap2.trend, Trend::Flat);
}

#[test]
fn trend_follows_consecutive_levels() {
    let cfg = raw_config(80_000);

    let mut rising = MeterState::new(&cfg, 0).unwrap();
    rising.update(50_000, &cfg, 0);
    assert_eq!(rising.update(70_000, &cfg, 0).trend, Trend::Up);

    let mut falling = MeterState::new(&cfg, 0).unwrap();
    falling.update(70_000, &cfg, 0);
    assert_eq!(falling.update(50_000, &cfg, 0).trend, Trend::Down);

    let mut steady = MeterState::new(&cfg, 0).unwrap();
    steady.update(50_000, &cfg, 0);
    assert_eq!(steady.update(50_000, &cfg, 0).trend, Trend::Flat);
}

#[test]
fn extrema_move_monotonically() {
    let cfg = raw_config(80_000);
    let mut state = MeterState::new(&cfg, 0).unwrap();
    let levels: [i64; 5] = [30_000, 80_000, 10_000, 50_000, 10_000];
    let mut prev_min: i64 = i64::MAX;
    let mut prev_max: i64 = i64::MIN;
    for &level in levels.iter() {
        let snap = state.update(level, &cfg, 0);
        assert!(snap.min_level <= prev_min);
        assert!(snap.max_level >= prev_max);
        prev_min = snap.min_level;
        prev_max = snap.max_level;
    }
    assert_eq!(prev_min, 10_000);
    assert_eq!(prev_max, 80_000);
}

#[test]
fn alert_is_strictly_above_threshold() {
    let cfg = raw_config(80_000);

    let mut at = MeterState::new(&cfg, 0).unwrap();
    assert!(!at.update(80_000, &cfg, 0).alert);

    let mut above = MeterState::new(&cfg, 0).unwrap();
    assert!(above.update(80_001, &cfg, 0).alert);

    let mut below = MeterState::new(&cfg, 0).unwrap();
    assert!(!below.update(79_999, &cfg, 0).alert);
}

#[test]
fn empty_buffer_is_rejected_and_state_untouched() {
    let cfg = raw_config(80_000);
    let mut state = MeterState::new(&cfg, 7).unwrap();
    state.update(42_000, &cfg, 7);

    let empty: Vec<i64> = Vec::new();
    let res = process_buffer(&empty, &cfg, &mut state, 9);
    assert_eq!(res, Err(ProcessingError::InvalidInput));
    assert_eq!(state.current_level, 42_000);
    assert_eq!(state.min_level, 42_000);
    assert_eq!(state.max_level, 42_000);
    assert_eq!(state.prev_smoothed_level, Some(42_000));
    assert_eq!(state.start_ms, 7);
}

#[test]
fn process_buffer_silence_and_full_scale() {
    let cfg = raw_config(80_000);
    let mut state = MeterState::new(&cfg, 0).unwrap();

    let silence: Vec<i64> = vec![0; 16];
    let snap = process_buffer(&silence, &cfg, &mut state, 0).unwrap();
    assert_eq!(snap.current_level, -100_000);
    assert_eq!(snap.min_level, -100_000);
    assert_eq!(snap.max_level, -100_000);
    assert_eq!(snap.trend, Trend::Flat);
    assert!(!snap.alert);

    let loud: Vec<i64> = vec![1_000_000, -1_000_000, 1_000_000, -1_000_000];
    let snap2 = process_buffer(&loud, &cfg, &mut state, 5).unwrap();
    assert_eq!(snap2.current_level, 100_000);
    assert_eq!(snap2.min_level, -100_000);
    assert_eq!(snap2.max_level, 100_000);
    assert_eq!(snap2.trend, Trend::Up);
    assert!(snap2.alert);
    assert_eq!(snap2.elapsed_ms, 5);
}

#[test]
fn process_buffer_smooths_through_the_window() {
    let mut cfg = raw_config(80_000);
    cfg.moving_avg_size = 2;
    cfg.use_moving_average = true;
    let mut state = MeterState::new(&cfg, 0).unwrap();

    let silence: Vec<i64> = vec![0; 4];
    let snap = process_buffer(&silence, &cfg, &mut state, 0).unwrap();
    assert_eq!(snap.current_level, -100_000);

    // Raw levels -100% then 100%; the window holds both, so the
    // smoothed level is their mean, 0.
    let loud: Vec<i64> = vec![1_000_000, -1_000_000];
    let snap2 = process_buffer(&loud, &cfg, &mut state, 0).unwrap();
    assert_eq!(snap2.current_level, 0);
    assert_eq!(snap2.trend, Trend::Up);

    // Window full: another loud buffer evicts the silent level.
    let snap3 = process_buffer(&loud, &cfg, &mut state, 0).unwrap();
    assert_eq!(snap3.current_level, 100_000);
}

#[test]
fn elapsed_time_counts_from_construction() {
    let cfg = raw_config(80_000);
    let mut state = MeterState::new(&cfg, 1_000).unwrap();
    let snap = state.update(10_000, &cfg, 1_750);
    assert_eq!(snap.elapsed_ms, 750);
    let snap2 = state.update(10_000, &cfg, 3_000);
    assert_eq!(snap2.elapsed_ms, 2_000);
}
