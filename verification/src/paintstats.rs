//! Low-overhead WM_PAINT / throttle counters for render-latency profiling,
//! and the registry that hands out one set of counters per native window.
//!
//! The counters are atomics shared between threads: what a read returns
//! depends on the other threads, so the contracts here say nothing of the
//! counted values.
use std::collections::HashMap;
use std::sync::atomic::AtomicU64;
use std::sync::atomic::Ordering;
use std::sync::Arc;
use vstd::prelude::*;

verus! {

broadcast use vstd::std_specs::hash::group_hash_axioms;

#[derive(Debug)]
pub struct PaintStats {
    pub wm_paint_received: AtomicU64,
    pub wm_paint_throttled: AtomicU64,
    pub wm_paint_dispatched: AtomicU64,
    pub throttle_count: AtomicU64,
    pub throttle_requested_ns: AtomicU64,
    pub throttle_actual_ns: AtomicU64,
    pub throttle_actual_max_ns: AtomicU64,
}

#[derive(Debug, Clone, Copy, PartialEq, Eq, Structural)]
pub struct PaintStatsSnapshot {
    pub wm_paint_received: u64,
    pub wm_paint_throttled: u64,
    pub wm_paint_dispatched: u64,
    pub throttle_count: u64,
    pub throttle_requested_ns: u64,
    pub throttle_actual_ns: u64,
    pub throttle_actual_max_ns: u64,
}

impl Default for PaintStatsSnapshot {
    fn default() -> (r: Self)
        ensures
            r == (PaintStatsSnapshot {
                wm_paint_received: 0,
                wm_paint_throttled: 0,
                wm_paint_dispatched: 0,
                throttle_count: 0,
                throttle_requested_ns: 0,
                throttle_actual_ns: 0,
                throttle_actual_max_ns: 0,
            }),
    {
        PaintStatsSnapshot {
            wm_paint_received: 0,
            wm_paint_throttled: 0,
            wm_paint_dispatched: 0,
            throttle_count: 0,
            throttle_requested_ns: 0,
            throttle_actual_ns: 0,
            throttle_actual_max_ns: 0,
        }
    }
}

impl Default for PaintStats {
    /// All counters start at zero.
    fn default() -> Self {
        PaintStats {
            wm_paint_received: AtomicU64::new(0),
            wm_paint_throttled: AtomicU64::new(0),
            wm_paint_dispatched: AtomicU64::new(0),
            throttle_count: AtomicU64::new(0),
            throttle_requested_ns: AtomicU64::new(0),
            throttle_actual_ns: AtomicU64::new(0),
            throttle_actual_max_ns: AtomicU64::new(0),
        }
    }
}

impl PaintStats {
    /// Adds `value` to `counter` (wrapping, as atomic additions do)
    pub fn add(counter: &AtomicU64, value: u64) {
        let _ = counter.fetch_add(value, Ordering::Relaxed);
    }

    /// Returns the accumulated values and resets them to zero
    pub fn take(&self) -> PaintStatsSnapshot {
        PaintStatsSnapshot {
            wm_paint_received: self.wm_paint_received.swap(0, Ordering::Relaxed),
            wm_paint_throttled: self.wm_paint_throttled.swap(0, Ordering::Relaxed),
            wm_paint_dispatched: self.wm_paint_dispatched.swap(0, Ordering::Relaxed),
            throttle_count: self.throttle_count.swap(0, Ordering::Relaxed),
            throttle_requested_ns: self.throttle_requested_ns.swap(0, Ordering::Relaxed),
            throttle_actual_ns: self.throttle_actual_ns.swap(0, Ordering::Relaxed),
            throttle_actual_max_ns: self.throttle_actual_max_ns.swap(0, Ordering::Relaxed),
        }
    }
}

/// `Arc::clone`: another pointer to the same allocation, so the same
/// counters.
#[verifier::external_body]
fn share(stats: &Arc<PaintStats>) -> (r: Arc<PaintStats>)
    ensures
        r == *stats,
{
    Arc::clone(stats)
}

/// The counters of each native window, keyed by window handle so that
/// they can be read without borrowing the platform window state (which
/// is borrowed during paint).
#[derive(Debug)]
pub struct PaintStatsRegistry {
    pub windows: HashMap<usize, Arc<PaintStats>>,
}

impl View for PaintStatsRegistry {
    type V = Map<usize, Arc<PaintStats>>;

    open spec fn view(&self) -> Map<usize, Arc<PaintStats>> {
        self.windows@
    }
}

/// The registry after a lookup of `id` that creates `fresh` when `id`
/// has no counters yet
pub open spec fn after_lookup(m: Map<usize, Arc<PaintStats>>, id: usize, fresh: Arc<PaintStats>) -> Map<
    usize,
    Arc<PaintStats>,
> {
    if m.contains_key(id) {
        m
    } else {
        m.insert(id, fresh)
    }
}

impl PaintStatsRegistry {
    /// No window has counters
    pub fn new() -> (r: Self)
        ensures
            r@ == Map::<usize, Arc<PaintStats>>::empty(),
    {
        PaintStatsRegistry { windows: HashMap::new() }
    }
}

/// The counters of window `id`, created on first use
pub fn paint_stats_for(registry: &mut PaintStatsRegistry, id: usize) -> (r: Arc<PaintStats>)
    ensures
        final(registry)@ == after_lookup(old(registry)@, id, r),
        old(registry)@.contains_key(id) ==> r == old(registry)@[id],
        final(registry)@.contains_key(id),
        final(registry)@[id] == r,
{
    match registry.windows.get(&id) {
        Some(stats) => share(stats),
        None => {
            let stats = Arc::new(PaintStats::default());
            registry.windows.insert(id, share(&stats));
            stats
        },
    }
}

/// Drops the counters of window `id`
pub fn forget_paint_stats(registry: &mut PaintStatsRegistry, id: usize)
    ensures
        final(registry)@ == old(registry)@.remove(id),
{
    let _ = registry.windows.remove(&id);
}

/// Until it is forgotten, a window keeps its counters: every lookup
/// hands out the counters that the first one created.  After it is
/// forgotten, the next lookup creates new ones.
pub proof fn counters_are_stable(
    m: Map<usize, Arc<PaintStats>>,
    id: usize,
    first: Arc<PaintStats>,
    second: Arc<PaintStats>,
    other: usize,
)
    requires
        id != other,
    ensures
        after_lookup(after_lookup(m, id, first), id, second) == after_lookup(m, id, first),
        after_lookup(m, id, first)[id] == (if m.contains_key(id) {
            m[id]
        } else {
            first
        }),
        !after_lookup(m, id, first).remove(id).contains_key(id),
        after_lookup(after_lookup(m, id, first).remove(id), id, second)[id] == second,
        after_lookup(m, id, first).remove(id).contains_key(other) == m.contains_key(other),
{
}

} // verus!
