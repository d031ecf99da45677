use vstd::prelude::*;

verus! {

/// The current integer metric values held by the registry, by exposition
/// name.
pub uninterp spec fn counters_of(m: Metrics) -> Map<Seq<char>, int>;

/// The exposition-format text for a set of gathered metric values. Relies
/// on prometheus's text encoder, whose output is a function of the gathered
/// metric families alone (the registry hands them over sorted by name).
pub uninterp spec fn exposition_of(m: Map<Seq<char>, int>) -> Seq<char>;

/// The exposition name of the latest-known-block gauge.
pub open spec fn latest_block_name() -> Seq<char> {
    "pulse_latest_block"@
}

/// The exposition name of the indexed-blocks counter.
pub open spec fn blocks_indexed_name() -> Seq<char> {
    "pulse_blocks_indexed"@
}

/// The metric values a freshly built registry holds: both metrics at zero.
pub open spec fn initial_counters() -> Map<Seq<char>, int> {
    Map::<Seq<char>, int>::empty().insert(latest_block_name(), 0).insert(
        blocks_indexed_name(),
        0,
    )
}

/// A 64-bit counter increment as the metrics library performs it: a relaxed
/// atomic fetch-add of one, which wraps at the unsigned 64-bit boundary.
pub open spec fn wrap_inc(v: int) -> int {
    if v + 1 <= u64::MAX {
        v + 1
    } else {
        0
    }
}

/// The process-wide metrics registry together with its two integer metrics:
/// the latest known block height (a gauge) and the number of indexed blocks
/// (a counter). The prometheus handles share their state with the registry
/// that gathers them, so the whole set is held opaquely and is read or
/// written only through the methods below, over its one view `counters_of`.
#[verifier::external_body]
pub struct Metrics {
    registry: prometheus::Registry,
    latest_block_height: prometheus::IntGauge,
    blocks_indexed: prometheus::IntCounter,
}

impl Metrics {
    /// Relies on prometheus::Registry::new, prometheus::IntGauge::new,
    /// prometheus::IntCounter::new and prometheus::Registry::register: a
    /// newly built metric starts at zero, and registering it makes it part
    /// of what the registry gathers. Building cannot fail here: the two
    /// names and help texts are fixed valid literals, and registering two
    /// freshly built, distinctly named collectors on a fresh registry
    /// cannot collide.
    #[verifier::external_body]
    fn build() -> (r: Result<Metrics, String>)
        ensures
            r is Ok,
            r is Ok ==> counters_of(r->Ok_0) == initial_counters(),
    {
        let registry = prometheus::Registry::new();
        let latest = prometheus::IntGauge::new("pulse_latest_block", "Latest known block height")
            .map_err(|e| format!("{:?}", e))?;
        let indexed = prometheus::IntCounter::new(
            "pulse_blocks_indexed",
            "Number of indexed blocks",
        ).map_err(|e| format!("{:?}", e))?;
        registry.register(Box::new(latest.clone())).map_err(|e| format!("{:?}", e))?;
        registry.register(Box::new(indexed.clone())).map_err(|e| format!("{:?}", e))?;
        Ok(Metrics { registry, latest_block_height: latest, blocks_indexed: indexed })
    }

    /// A fresh registry with both metrics registered at zero. The result
    /// keeps the fallible shape of the underlying registration API, but
    /// with this registry's fixed metric names it always succeeds.
    pub fn new() -> (r: Result<Metrics, String>)
        ensures
            r is Ok,
            r is Ok ==> counters_of(r->Ok_0) == initial_counters(),
    {
        Metrics::build()
    }

    /// Adds one to the indexed-blocks counter. Relies on
    /// prometheus::core::GenericCounter::inc: a relaxed atomic fetch-add of
    /// one, wrapping at the unsigned 64-bit boundary.
    #[verifier::external_body]
    pub(crate) fn inc_blocks_indexed(&mut self)
        ensures
            counters_of(*final(self)) == counters_of(*old(self)).insert(blocks_indexed_name(), wrap_inc(counters_of(*old(self))[blocks_indexed_name()])),
    {
        self.blocks_indexed.inc();
    }

    /// Sets the latest-known-block gauge. Relies on
    /// prometheus::core::GenericGauge::set: a relaxed atomic store. The
    /// gauge is signed, so heights above the signed 64-bit range are ruled
    /// out here.
    #[verifier::external_body]
    pub(crate) fn set_latest_block(&mut self, height: u64)
        requires
            height <= i64::MAX as u64,
        ensures
            counters_of(*final(self)) == counters_of(*old(self)).insert(latest_block_name(), height as int),
    {
        self.latest_block_height.set(height as i64);
    }

    /// Relies on prometheus::Registry::gather (collects the registered
    /// families, sorted by name) and
    /// prometheus::TextEncoder::encode_to_string, whose text is a function
    /// of the gathered values alone. Encoding cannot fail here: writing to
    /// a String cannot fail, and the encoder's family check accepts this
    /// registry's two named, non-empty counter and gauge families.
    #[verifier::external_body]
    fn render_text(&self) -> (r: Result<String, String>)
        ensures
            r is Ok,
            r is Ok ==> (r->Ok_0)@ == exposition_of(counters_of(*self)),
    {
        let encoder = prometheus::TextEncoder::new();
        encoder.encode_to_string(&self.registry.gather()).map_err(|e| format!("{:?}", e))
    }

    /// The read side of the metrics endpoint: the registry's current
    /// contents in the exposition format, rendered in a single attempt. The
    /// result keeps the encoder's fallible shape — a caller turns an error
    /// into a request-level response, never a retry loop — but on this
    /// registry's families encoding always succeeds.
    pub fn render(&self) -> (r: Result<String, String>)
        ensures
            r is Ok,
            r is Ok ==> (r->Ok_0)@ == exposition_of(counters_of(*self)),
    {
        self.render_text()
    }
}

} // verus!
