use vstd::prelude::*;

verus! {

/// A processing rate over one sampling interval: `events` block events were
/// observed in `interval_secs` seconds of wall-clock time. The rate in
/// events per second is the quotient of the two fields; keeping the exact
/// pair in the core avoids any rounding in the contracts, and the quotient
/// is only formed at the reporting edge.
#[derive(Clone, Copy, Debug, PartialEq, Eq, Structural)]
pub struct Rate {
    pub events: u64,
    pub interval_secs: u64,
}

impl Rate {
    pub open spec fn wf(self) -> bool {
        self.interval_secs > 0
    }

    /// The stall boundary is inclusive: zero events in an interval is a rate
    /// of exactly zero, and counts as stalled. Event counts never go
    /// backwards, so the rate is never negative.
    pub open spec fn spec_is_stalled(self) -> bool {
        self.events == 0
    }

    pub fn is_stalled(&self) -> (r: bool)
        ensures
            r == self.spec_is_stalled(),
    {
        self.events == 0
    }
}

/// Liveness statistics for the block pipeline: how many events have been
/// processed, the last observed height, the most recently computed rate, and
/// the baseline count taken at the previous rate sample.
#[derive(Clone, Copy, Debug, PartialEq, Eq, Structural)]
pub struct Stats {
    pub blocks_processed_count: u64,
    pub last_processed_block_height: u64,
    pub rate: Rate,
    pub prev_sample_count: u64,
}

impl Stats {
    /// Well-formed: the sampling baseline never runs ahead of the counter,
    /// and the stored rate has a positive interval.
    pub open spec fn wf(self) -> bool {
        self.prev_sample_count <= self.blocks_processed_count && self.rate.wf()
    }

    /// The startup value: all counters zero and a zero rate.
    pub open spec fn init_spec() -> Stats {
        Stats {
            blocks_processed_count: 0,
            last_processed_block_height: 0,
            rate: Rate { events: 0, interval_secs: 1 },
            prev_sample_count: 0,
        }
    }

    pub fn new() -> (r: Stats)
        ensures
            r == Stats::init_spec(),
            r.wf(),
    {
        Stats {
            blocks_processed_count: 0,
            last_processed_block_height: 0,
            rate: Rate { events: 0, interval_secs: 1 },
            prev_sample_count: 0,
        }
    }

    /// Whether `height` is a protocol anomaly: the source promises
    /// non-decreasing heights, so a decreasing one is only logged.
    pub open spec fn spec_is_anomaly(self, height: u64) -> bool {
        height < self.last_processed_block_height
    }

    /// What recording one event at `height` does to the statistics: the
    /// count grows by one, and the last height is updated unless it would
    /// decrease.
    pub open spec fn record_spec(self, height: u64) -> Stats
        recommends
            self.blocks_processed_count < u64::MAX,
    {
        Stats {
            blocks_processed_count: (self.blocks_processed_count + 1) as u64,
            last_processed_block_height: if self.spec_is_anomaly(height) {
                self.last_processed_block_height
            } else {
                height
            },
            ..self
        }
    }

    /// Records one block-arrival event. Returns whether the height was an
    /// anomaly (strictly below the last height seen), which the caller logs;
    /// the event is still counted either way.
    pub fn record_event(&mut self, height: u64) -> (anomaly: bool)
        requires
            old(self).wf(),
            old(self).blocks_processed_count < u64::MAX,
        ensures
            *final(self) == old(self).record_spec(height),
            final(self).wf(),
            final(self).blocks_processed_count == old(self).blocks_processed_count + 1,
            !old(self).spec_is_anomaly(height) ==> final(self).last_processed_block_height
                == height,
            old(self).spec_is_anomaly(height) ==> final(self).last_processed_block_height
                == old(self).last_processed_block_height,
            final(self).rate == old(self).rate,
            final(self).prev_sample_count == old(self).prev_sample_count,
            anomaly == old(self).spec_is_anomaly(height),
    {
        let anomaly = height < self.last_processed_block_height;
        if !anomaly {
            self.last_processed_block_height = height;
        }
        self.blocks_processed_count = self.blocks_processed_count + 1;
        anomaly
    }

    /// What one rate sample does: the rate becomes the number of events
    /// since the previous sample over the given interval, and the baseline
    /// is reset to the current count.
    pub open spec fn sample_spec(self, interval_secs: u64) -> Stats
        recommends
            self.wf(),
            interval_secs > 0,
    {
        Stats {
            rate: Rate {
                events: (self.blocks_processed_count - self.prev_sample_count) as u64,
                interval_secs,
            },
            prev_sample_count: self.blocks_processed_count,
            ..self
        }
    }

    /// Reads the processed count and computes the windowed rate over
    /// `interval_secs`, storing it and resetting the baseline so the next
    /// sample starts from zero new events. Returns the count and the rate.
    pub fn sample_and_reset_rate(&mut self, interval_secs: u64) -> (r: (u64, Rate))
        requires
            old(self).wf(),
            interval_secs > 0,
        ensures
            *final(self) == old(self).sample_spec(interval_secs),
            final(self).wf(),
            r.0 == old(self).blocks_processed_count,
            r.1 == final(self).rate,
            r.1.events == old(self).blocks_processed_count - old(self).prev_sample_count,
            r.1.interval_secs == interval_secs,
            r.1.wf(),
            final(self).prev_sample_count == old(self).blocks_processed_count,
            final(self).blocks_processed_count == old(self).blocks_processed_count,
            final(self).last_processed_block_height == old(self).last_processed_block_height,
    {
        let events: u64 = self.blocks_processed_count - self.prev_sample_count;
        let rate = Rate { events, interval_secs };
        self.rate = rate;
        self.prev_sample_count = self.blocks_processed_count;
        (self.blocks_processed_count, rate)
    }
}

/// The cumulative effect of recording a whole sequence of events, in source
/// order.
pub open spec fn record_all(s: Stats, heights: Seq<u64>) -> Stats
    decreases heights.len(),
{
    if heights.len() == 0 {
        s
    } else {
        record_all(s, heights.drop_last()).record_spec(heights.last())
    }
}

/// Heights as the source promises them: non-decreasing.
pub open spec fn non_decreasing(heights: Seq<u64>) -> bool {
    forall|i: int, j: int| 0 <= i <= j < heights.len() ==> heights[i] <= heights[j]
}

/// Law: recording a sequence of events grows the processed count by exactly
/// the length of the sequence, and, absent anomalies (heights non-decreasing
/// and no lower than the height already seen), leaves the last height equal
/// to the last of the sequence. Recording never touches the rate or the
/// sampling baseline.
pub proof fn lemma_record_sequence(s: Stats, heights: Seq<u64>)
    requires
        s.blocks_processed_count + heights.len() <= u64::MAX,
    ensures
        record_all(s, heights).blocks_processed_count == s.blocks_processed_count
            + heights.len(),
        record_all(s, heights).rate == s.rate,
        record_all(s, heights).prev_sample_count == s.prev_sample_count,
        non_decreasing(heights) && heights.len() > 0 && heights[0]
            >= s.last_processed_block_height
            ==> record_all(s, heights).last_processed_block_height == heights.last(),
    decreases heights.len(),
{
    if heights.len() > 0 {
        let prefix = heights.drop_last();
        lemma_record_sequence(s, prefix);
        assert(forall|i: int| 0 <= i < prefix.len() ==> prefix[i] == heights[i]);
    }
}

/// Law: starting from a freshly sampled store (baseline equal to the count),
/// recording any sequence of events and then sampling over `t` seconds
/// yields the exact rate: as many events as were recorded, over `t`.
pub proof fn lemma_rate_counts_recorded_events(s: Stats, heights: Seq<u64>, t: u64)
    requires
        s.wf(),
        s.prev_sample_count == s.blocks_processed_count,
        s.blocks_processed_count + heights.len() <= u64::MAX,
        t > 0,
    ensures
        record_all(s, heights).sample_spec(t).rate.events == heights.len(),
        record_all(s, heights).sample_spec(t).rate.interval_secs == t,
{
    lemma_record_sequence(s, heights);
}

/// Law: one sample resets the baseline, so an immediate second sample — with
/// no events recorded in between — yields zero events over its interval,
/// which counts as stalled.
pub proof fn lemma_sample_resets_baseline(s: Stats, t1: u64, t2: u64)
    requires
        s.wf(),
        t1 > 0,
        t2 > 0,
    ensures
        s.sample_spec(t1).rate.events == s.blocks_processed_count - s.prev_sample_count,
        s.sample_spec(t1).rate.interval_secs == t1,
        s.sample_spec(t1).sample_spec(t2).rate.events == 0,
        s.sample_spec(t1).sample_spec(t2).rate.spec_is_stalled(),
{
}

} // verus!
