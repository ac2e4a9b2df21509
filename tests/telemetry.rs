use sound_send::rate::{Ratio, RollingMean, RollingRate};
use sound_send::timesync::TimeSyncEstimator;

fn value(r: Ratio) -> f64 {
    r.num as f64 / r.den as f64
}

#[test]
fn basic_packet_rate() {
    let base = 5_000u64;
    let mut r = RollingRate::new(10_000);
    for i in 0..10u64 {
        r.record(base + i * 1_000, 1);
    }
    let now = base + 10_000;
    let rate = value(r.rate_per_sec(now));
    assert!((rate - 1.0).abs() < 1e-9, "rate was {rate}");
}

#[test]
fn pruning_works() {
    let base = 5_000u64;
    let mut r = RollingRate::new(5_000);
    r.record(base, 10);
    let now = base + 6_000;
    assert_eq!(r.total_in_window(now), 0);
    assert_eq!(value(r.rate_per_sec(now)), 0.0);
}

#[test]
fn byte_rate_example() {
    let base = 5_000u64;
    let mut r = RollingRate::new(10_000);
    for i in 0..10u64 {
        r.record(base + i * 1_000, 100);
    }
    let now = base + 10_000;
    let rate = value(r.rate_per_sec(now));
    assert!((rate - 100.0).abs() < 1e-9, "rate was {rate}");
}

#[test]
fn rolling_mean_basic() {
    let base = 5_000u64;
    let mut m = RollingMean::new(10_000);
    for i in 0..10u64 {
        m.record(base + i * 1_000, 10 + i);
    }
    let now = base + 10_000;
    let avg = value(m.average(now));
    assert!((avg - 14.5).abs() < 1e-9, "avg was {avg}");
}

#[test]
fn rolling_mean_is_exactly_fourteen_and_a_half() {
    let mut m = RollingMean::new(10_000);
    for i in 0..10u64 {
        m.record(i * 1_000, 10 + i);
    }
    assert_eq!(m.average(10_000), Ratio { num: 145, den: 10 });
}

#[test]
fn empty_mean_is_zero() {
    let mut m = RollingMean::new(1_000);
    assert_eq!(m.average(0), Ratio { num: 0, den: 1 });
    m.record(0, 7);
    assert_eq!(m.average(5_000), Ratio { num: 0, den: 1 });
}

#[test]
fn rate_after_gap_is_zero() {
    let mut r = RollingRate::new(10_000);
    for i in 0..10u64 {
        r.record(i * 1_000, 3);
    }
    assert_eq!(r.total_in_window(9_000), 30);
    assert_eq!(r.total_in_window(19_001), 0);
    assert_eq!(r.rate_per_sec(19_001), Ratio { num: 0, den: 10_000 });
}

#[test]
fn entry_exactly_one_window_old_still_counts() {
    let mut r = RollingRate::new(1_000);
    r.record(0, 4);
    assert_eq!(r.total_in_window(1_000), 4);
    assert_eq!(r.total_in_window(1_001), 0);
}

#[test]
fn zero_window_rate_is_zero() {
    let mut r = RollingRate::new(0);
    r.record(10, 5);
    assert_eq!(r.rate_per_sec(10), Ratio { num: 0, den: 1 });
    assert_eq!(r.window_ms(), 0);
}

#[test]
fn total_saturates() {
    let mut r = RollingRate::new(1_000);
    r.record(0, u64::MAX);
    r.record(1, 5);
    assert_eq!(r.total_in_window(1), u64::MAX);
}

#[test]
fn zero_drift_zero_offset() {
    let mut est = TimeSyncEstimator::new(200, 200);
    let s = est.update(1000, 1010, 1010, 1020);
    assert!((s.offset_us as f64 / 1000.0 - 0.0).abs() < 1e-9);
    assert!((s.delay_us as f64 / 1000.0 - 20.0).abs() < 1e-9);
}

#[test]
fn positive_offset() {
    let mut est = TimeSyncEstimator::new(500, 500);
    let _ = est.update(1000, 1015, 1015, 1020);
    assert!(est.state().offset_us > 0);
    assert_eq!(est.state().offset_us, 5_000);
}

#[test]
fn later_samples_are_smoothed_and_drift_follows() {
    let mut est = TimeSyncEstimator::new(200, 200);
    est.update(1000, 1010, 1010, 1020);
    // offset 10 ms, delay still 20 ms, 1000 ms after the first exchange
    let s = est.update(2000, 2020, 2020, 2020);
    assert_eq!(s.offset_us, 2_000);
    assert_eq!(s.delay_us, 20_000);
    // drift sample: 10 ms over 1000 ms = 10000 ppm, smoothed by 0.2
    assert_eq!(s.drift_milli_ppm, 2_000_000);
}

#[test]
fn negative_delay_is_clamped_and_negative_offset_truncates() {
    let mut est = TimeSyncEstimator::new(200, 200);
    let s = est.update(1000, 990, 1005, 1001);
    assert_eq!(s.delay_us, 0);
    assert_eq!(s.offset_us, -3_000);
    let s = est.update(1000, 1000, 1000, 1001);
    // 0.8 * -3000 + 0.2 * -500 = -2500
    assert_eq!(s.offset_us, -2_500);
    // t3 did not advance: drift unchanged
    assert_eq!(s.drift_milli_ppm, 0);
}
