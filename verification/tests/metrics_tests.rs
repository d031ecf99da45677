use lake_pulse::consumer::handle_block_event;
use lake_pulse::consumer::BlockEvent;
use lake_pulse::metrics::Metrics;
use lake_pulse::stats::Stats;

#[test]
fn fresh_registry_reports_zeroes() {
    let metrics = Metrics::new().unwrap();
    let text = metrics.render().unwrap();
    assert!(text.contains("pulse_blocks_indexed 0"));
    assert!(text.contains("pulse_latest_block 0"));
}

#[test]
fn exposition_carries_help_and_type() {
    let metrics = Metrics::new().unwrap();
    let text = metrics.render().unwrap();
    assert!(text.contains("# HELP pulse_blocks_indexed Number of indexed blocks"));
    assert!(text.contains("# TYPE pulse_blocks_indexed counter"));
    assert!(text.contains("# HELP pulse_latest_block Latest known block height"));
    assert!(text.contains("# TYPE pulse_latest_block gauge"));
}

#[test]
fn metrics_report_five_processed_events() {
    let mut metrics = Metrics::new().unwrap();
    let mut stats = Stats::new();
    for h in 100u64..105 {
        let event = BlockEvent { height: h, shard_count: 4 };
        let anomaly = handle_block_event(&mut stats, &mut metrics, &event);
        assert!(!anomaly);
    }
    assert_eq!(stats.blocks_processed_count, 5);
    let text = metrics.render().unwrap();
    assert!(text.contains("pulse_blocks_indexed 5"));
    assert!(text.contains("pulse_latest_block 104"));
}

#[test]
fn anomalous_event_is_counted_and_gauge_follows_the_stream() {
    let mut metrics = Metrics::new().unwrap();
    let mut stats = Stats::new();
    handle_block_event(&mut stats, &mut metrics, &BlockEvent { height: 10, shard_count: 1 });
    let anomaly = handle_block_event(
        &mut stats,
        &mut metrics,
        &BlockEvent { height: 5, shard_count: 1 },
    );
    assert!(anomaly);
    // The statistics keep the highest height seen; the gauge mirrors the
    // stream and shows the height of the event that arrived last.
    assert_eq!(stats.last_processed_block_height, 10);
    assert_eq!(stats.blocks_processed_count, 2);
    let text = metrics.render().unwrap();
    assert!(text.contains("pulse_blocks_indexed 2"));
    assert!(text.contains("pulse_latest_block 5"));
}
