use vstd::prelude::*;

use crate::metrics::blocks_indexed_name;
use crate::metrics::counters_of;
use crate::metrics::initial_counters;
use crate::metrics::latest_block_name;
use crate::metrics::wrap_inc;
use crate::metrics::Metrics;
use crate::stats::Stats;

verus! {

/// One block-arrival event from the external streaming source: the block's
/// height and how many shards it carried.
#[derive(Clone, Copy, Debug, PartialEq, Eq, Structural)]
pub struct BlockEvent {
    pub height: u64,
    pub shard_count: u32,
}

/// What consuming one event does to the exported metric values: the
/// indexed-blocks counter grows by one and the latest-block gauge takes the
/// event's height.
pub open spec fn consume_counters(m: Map<Seq<char>, int>, height: u64) -> Map<Seq<char>, int> {
    m.insert(blocks_indexed_name(), wrap_inc(m[blocks_indexed_name()])).insert(
        latest_block_name(),
        height as int,
    )
}

/// Handles one event from the stream: mirrors it into the metrics registry
/// and records it in the statistics. Returns whether the height was a
/// protocol anomaly, which the caller logs together with its diagnostic
/// line. The consumption loop around this call takes one event at a time,
/// in source order, so no event is ever dropped or reordered; this function
/// itself only needs the exclusive access it is handed.
pub fn handle_block_event(stats: &mut Stats, metrics: &mut Metrics, event: &BlockEvent) -> (anomaly:
    bool)
    requires
        old(stats).wf(),
        old(stats).blocks_processed_count < u64::MAX,
        event.height <= i64::MAX as u64,
    ensures
        *final(stats) == old(stats).record_spec(event.height),
        final(stats).wf(),
        anomaly == old(stats).spec_is_anomaly(event.height),
        counters_of(*final(metrics)) == consume_counters(
            counters_of(*old(metrics)),
            event.height,
        ),
{
    metrics.inc_blocks_indexed();
    metrics.set_latest_block(event.height);
    stats.record_event(event.height)
}

/// The exported metric values after consuming a whole sequence of events,
/// in source order, starting from the values `m`.
pub open spec fn consume_all(m: Map<Seq<char>, int>, heights: Seq<u64>) -> Map<Seq<char>, int>
    decreases heights.len(),
{
    if heights.len() == 0 {
        m
    } else {
        consume_counters(consume_all(m, heights.drop_last()), heights.last())
    }
}

/// The two exposition names are distinct, so updating one metric never
/// disturbs the other.
pub proof fn lemma_metric_names_differ()
    ensures
        latest_block_name() != blocks_indexed_name(),
{
    reveal_strlit("pulse_latest_block");
    reveal_strlit("pulse_blocks_indexed");
    assert(latest_block_name().len() == 18);
    assert(blocks_indexed_name().len() == 20);
}

/// Law: starting from fresh metric values, consuming a sequence of events
/// leaves the indexed-blocks counter at exactly the number of events, and
/// the latest-block gauge at the height of the event that arrived last.
pub proof fn lemma_counters_mirror_events(heights: Seq<u64>)
    requires
        heights.len() <= u64::MAX,
    ensures
        consume_all(initial_counters(), heights)[blocks_indexed_name()] == heights.len(),
        heights.len() > 0 ==> consume_all(initial_counters(), heights)[latest_block_name()]
            == heights.last() as int,
{
    lemma_metric_names_differ();
    lemma_consume_all_adds(initial_counters(), heights);
}

/// The inductive step behind the mirror law: consuming `heights` adds their
/// number to whatever the counter held, as long as that stays within the
/// 64-bit range.
proof fn lemma_consume_all_adds(m: Map<Seq<char>, int>, heights: Seq<u64>)
    requires
        0 <= m[blocks_indexed_name()],
        m[blocks_indexed_name()] + heights.len() <= u64::MAX,
    ensures
        consume_all(m, heights)[blocks_indexed_name()] == m[blocks_indexed_name()]
            + heights.len(),
        heights.len() > 0 ==> consume_all(m, heights)[latest_block_name()] == heights.last() as int,
    decreases heights.len(),
{
    lemma_metric_names_differ();
    if heights.len() > 0 {
        lemma_consume_all_adds(m, heights.drop_last());
    }
}

} // verus!
