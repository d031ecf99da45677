use lake_pulse::stats::Rate;
use lake_pulse::stats::Stats;

#[test]
fn record_sequence_counts_events() {
    let mut s = Stats::new();
    for h in [10u64, 11, 12, 13, 14] {
        let anomaly = s.record_event(h);
        assert!(!anomaly);
    }
    assert_eq!(s.blocks_processed_count, 5);
    assert_eq!(s.last_processed_block_height, 14);
}

#[test]
fn decreasing_height_is_anomaly_but_still_counted() {
    let mut s = Stats::new();
    assert!(!s.record_event(10));
    let anomaly = s.record_event(5);
    assert!(anomaly);
    assert_eq!(s.blocks_processed_count, 2);
    assert_eq!(s.last_processed_block_height, 10);
}

#[test]
fn equal_height_is_not_an_anomaly() {
    let mut s = Stats::new();
    assert!(!s.record_event(10));
    assert!(!s.record_event(10));
    assert_eq!(s.last_processed_block_height, 10);
}

#[test]
fn sample_yields_exact_rate_and_resets_baseline() {
    let mut s = Stats::new();
    for h in 1u64..=5 {
        s.record_event(h);
    }
    let (count, rate) = s.sample_and_reset_rate(10);
    assert_eq!(count, 5);
    assert_eq!(rate, Rate { events: 5, interval_secs: 10 });
    let bps = rate.events as f64 / rate.interval_secs as f64;
    assert!((bps - 0.5).abs() < 1e-12);
    let (count2, rate2) = s.sample_and_reset_rate(10);
    assert_eq!(count2, 5);
    assert_eq!(rate2.events, 0);
    let bps2 = rate2.events as f64 / rate2.interval_secs as f64;
    assert_eq!(bps2, 0.0);
}

#[test]
fn zero_rate_after_active_interval_is_stalled() {
    let mut s = Stats::new();
    for h in 1u64..=3 {
        s.record_event(h);
    }
    let (_, busy) = s.sample_and_reset_rate(10);
    assert!(!busy.is_stalled());
    let (_, idle) = s.sample_and_reset_rate(10);
    assert!(idle.is_stalled());
}

#[test]
fn many_events_lose_no_update() {
    let mut s = Stats::new();
    for h in 1u64..=10_000 {
        s.record_event(h);
    }
    assert_eq!(s.blocks_processed_count, 10_000);
    assert_eq!(s.last_processed_block_height, 10_000);
}

#[test]
fn new_stats_are_zeroed() {
    let s = Stats::new();
    assert_eq!(s.blocks_processed_count, 0);
    assert_eq!(s.last_processed_block_height, 0);
    assert_eq!(s.rate.events, 0);
}
