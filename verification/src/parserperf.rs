//! Per-pane parser counters for render-latency profiling.
//!
//! The counters of all panes live in a [`ParserStats`]; the application
//! keeps one of them behind a lock for the whole process.
use std::collections::HashMap;
use vstd::prelude::*;

verus! {

broadcast use vstd::std_specs::hash::group_hash_axioms;

/// Identifies a pane
pub type PaneId = usize;

#[derive(Debug, Clone, Copy, PartialEq, Eq, Structural)]
pub struct ParserPerf {
    /// Number of send_actions_to_mux flushes
    pub flushes: u64,
    /// Number of parsed actions applied
    pub actions: u64,
    /// Time spent in Pane::perform_actions, including waiting
    /// for the terminal lock
    pub perform_ns: u64,
    pub perform_max_ns: u64,
}

/// Counters that have seen nothing
pub open spec fn zero_perf() -> ParserPerf {
    ParserPerf { flushes: 0, actions: 0, perform_ns: 0, perform_max_ns: 0 }
}

impl Default for ParserPerf {
    fn default() -> (r: Self)
        ensures
            r == zero_perf(),
    {
        ParserPerf { flushes: 0, actions: 0, perform_ns: 0, perform_max_ns: 0 }
    }
}

/// The counters of `pane_id`, zero when the pane has recorded nothing
pub open spec fn counters_of(m: Map<PaneId, ParserPerf>, pane_id: PaneId) -> ParserPerf {
    if m.contains_key(pane_id) {
        m[pane_id]
    } else {
        zero_perf()
    }
}

/// True when one more flush of `actions` actions taking `perform_ns`
/// fits in the counters `e`
pub open spec fn record_fits(e: ParserPerf, actions: usize, perform_ns: u64) -> bool {
    &&& e.flushes + 1 <= u64::MAX
    &&& e.actions + actions <= u64::MAX
    &&& e.perform_ns + perform_ns <= u64::MAX
}

/// The counters `e` after one more flush
pub open spec fn recorded(e: ParserPerf, actions: usize, perform_ns: u64) -> ParserPerf {
    ParserPerf {
        flushes: (e.flushes + 1) as u64,
        actions: (e.actions + actions) as u64,
        perform_ns: (e.perform_ns + perform_ns) as u64,
        perform_max_ns: if e.perform_max_ns >= perform_ns {
            e.perform_max_ns
        } else {
            perform_ns
        },
    }
}

/// The parser counters of every pane
#[derive(Debug)]
pub struct ParserStats {
    pub counters: HashMap<PaneId, ParserPerf>,
}

impl View for ParserStats {
    type V = Map<PaneId, ParserPerf>;

    open spec fn view(&self) -> Map<PaneId, ParserPerf> {
        self.counters@
    }
}

impl ParserStats {
    /// No pane has recorded anything
    pub fn new() -> (r: Self)
        ensures
            r@ == Map::<PaneId, ParserPerf>::empty(),
    {
        ParserStats { counters: HashMap::new() }
    }
}

/// Called once per flush from the parser thread
pub fn record(stats: &mut ParserStats, pane_id: PaneId, actions: usize, perform_ns: u64)
    requires
        record_fits(counters_of(old(stats)@, pane_id), actions, perform_ns),
    ensures
        final(stats)@ == old(stats)@.insert(
            pane_id,
            recorded(counters_of(old(stats)@, pane_id), actions, perform_ns),
        ),
{
    let mut entry = match stats.counters.get(&pane_id) {
        Some(e) => *e,
        None => ParserPerf::default(),
    };
    entry.flushes = entry.flushes + 1;
    entry.actions = entry.actions + actions as u64;
    entry.perform_ns = entry.perform_ns + perform_ns;
    entry.perform_max_ns =
        if entry.perform_max_ns >= perform_ns {
            entry.perform_max_ns
        } else {
            perform_ns
        };
    stats.counters.insert(pane_id, entry);
}

/// Returns and resets the accumulated counters for a pane
pub fn take(stats: &mut ParserStats, pane_id: PaneId) -> (r: ParserPerf)
    ensures
        r == counters_of(old(stats)@, pane_id),
        final(stats)@ == old(stats)@.remove(pane_id),
{
    match stats.counters.remove(&pane_id) {
        Some(e) => e,
        None => ParserPerf::default(),
    }
}

/// Taking the counters resets them: a second take returns zeros, and
/// a take right after a single flush returns that flush.
pub proof fn take_resets(m: Map<PaneId, ParserPerf>, pane_id: PaneId, actions: usize, ns: u64)
    ensures
        counters_of(m.remove(pane_id), pane_id) == zero_perf(),
        counters_of(m.remove(pane_id).insert(pane_id, recorded(zero_perf(), actions, ns)), pane_id)
            == (ParserPerf {
            flushes: 1,
            actions: actions as u64,
            perform_ns: ns,
            perform_max_ns: ns,
        }),
{
}

/// Recording or taking the counters of one pane leaves every other
/// pane's counters as they were.
pub proof fn panes_are_independent(
    m: Map<PaneId, ParserPerf>,
    pane_id: PaneId,
    other: PaneId,
    e: ParserPerf,
)
    requires
        pane_id != other,
    ensures
        counters_of(m.insert(pane_id, e), other) == counters_of(m, other),
        counters_of(m.remove(pane_id), other) == counters_of(m, other),
{
}

/// Flushes add up: recording twice counts two flushes, sums the actions
/// and the time, and keeps the longest flush.
pub proof fn records_accumulate(e: ParserPerf, a1: usize, n1: u64, a2: usize, n2: u64)
    requires
        record_fits(e, a1, n1),
        record_fits(recorded(e, a1, n1), a2, n2),
    ensures
        ({
            let r = recorded(recorded(e, a1, n1), a2, n2);
            &&& r.flushes == e.flushes + 2
            &&& r.actions == e.actions + a1 + a2
            &&& r.perform_ns == e.perform_ns + n1 + n2
            &&& r.perform_max_ns >= n1
            &&& r.perform_max_ns >= n2
            &&& r.perform_max_ns >= e.perform_max_ns
            &&& (r.perform_max_ns == n1 || r.perform_max_ns == n2 || r.perform_max_ns
                == e.perform_max_ns)
        }),
{
}

} // verus!
