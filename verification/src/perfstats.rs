//! Low-overhead render-latency counters.
//!
//! Everything is plain integer accumulation; the application logs a
//! report block at most once per second per window and then starts a new
//! report window.  Times are nanoseconds on a monotonic clock whose
//! origin the application chooses.
use crate::parserperf::PaneId;
use std::collections::HashMap;
use std::time::Duration;
use vstd::prelude::*;

verus! {

broadcast use vstd::std_specs::hash::group_hash_axioms;

/// Sequence number of a line, as the terminal model counts changes
pub type SequenceNo = usize;

/// At most this many frame times are kept per report window
pub const FRAME_RING: usize = 1024;

/// The length of `d` in nanoseconds, as `Duration::as_nanos` gives it
pub uninterp spec fn duration_nanos(d: Duration) -> u128;

/// `Duration::as_nanos`: the total number of whole nanoseconds in the
/// duration.  Its value is left unnamed beyond `duration_nanos`.
#[verifier::external_body]
fn as_nanos(d: &Duration) -> (n: u128)
    ensures
        n == duration_nanos(*d),
{
    d.as_nanos()
}

/// `ns(d)`: the nanoseconds of `d`, truncated to 64 bits
pub open spec fn spec_ns(d: Duration) -> u64 {
    duration_nanos(d) as u64
}

pub fn ns(d: Duration) -> (r: u64)
    ensures
        r == spec_ns(d),
{
    let n = as_nanos(&d);
    n as u64
}

/// Per-pane counters for the pane rendering loop
#[derive(Debug, Clone, Copy, PartialEq, Eq, Structural)]
pub struct PanePerf {
    pub paints: u64,
    pub rows: u64,
    /// Rows whose seqno did not advance since the previous paint of this pane
    pub clean_rows: u64,
    pub quad_hits: u64,
    pub quads_copied_on_hit: u64,
    pub hit_ns: u64,
    /// Quad cache missed but the line-to-element shape cache hit:
    /// same content, different position/cursor/selection/hover
    pub miss_moved_or_context: u64,
    /// Both quad and element-shape caches missed: content changed
    pub miss_content: u64,
    /// Quad cache entry existed but was expired or hover-invalidated
    pub miss_expired_or_hover: u64,
    pub miss_ns: u64,
    pub quads_built: u64,
    /// Duration of Pane::with_lines_mut; for local panes this is
    /// the time the terminal lock is held by the renderer
    pub lock_held_ns: u64,
    pub harfbuzz_calls: u64,
    pub harfbuzz_ns: u64,
}

/// Counters that have seen nothing
pub open spec fn zero_pane_perf() -> PanePerf {
    PanePerf {
        paints: 0,
        rows: 0,
        clean_rows: 0,
        quad_hits: 0,
        quads_copied_on_hit: 0,
        hit_ns: 0,
        miss_moved_or_context: 0,
        miss_content: 0,
        miss_expired_or_hover: 0,
        miss_ns: 0,
        quads_built: 0,
        lock_held_ns: 0,
        harfbuzz_calls: 0,
        harfbuzz_ns: 0,
    }
}

impl Default for PanePerf {
    fn default() -> (r: Self)
        ensures
            r == zero_pane_perf(),
    {
        PanePerf {
            paints: 0,
            rows: 0,
            clean_rows: 0,
            quad_hits: 0,
            quads_copied_on_hit: 0,
            hit_ns: 0,
            miss_moved_or_context: 0,
            miss_content: 0,
            miss_expired_or_hover: 0,
            miss_ns: 0,
            quads_built: 0,
            lock_held_ns: 0,
            harfbuzz_calls: 0,
            harfbuzz_ns: 0,
        }
    }
}

impl PanePerf {
    /// All quad cache misses
    pub fn misses(&self) -> (r: u64)
        requires
            self.miss_moved_or_context + self.miss_content + self.miss_expired_or_hover
                <= u64::MAX,
        ensures
            r == self.miss_moved_or_context + self.miss_content + self.miss_expired_or_hover,
    {
        self.miss_moved_or_context + self.miss_content + self.miss_expired_or_hover
    }
}

/// The counters of `pane_id`, zero when the pane has none yet
pub open spec fn pane_or_zero(m: Map<PaneId, PanePerf>, pane_id: PaneId) -> PanePerf {
    if m.contains_key(pane_id) {
        m[pane_id]
    } else {
        zero_pane_perf()
    }
}

/// The render counters of one window for one report window
#[derive(Debug)]
pub struct RenderPerfStats {
    pub enabled: bool,
    /// When the current report window started
    pub last_report: u64,
    /// The length of each frame, in nanoseconds, up to `FRAME_RING` of them
    pub frame_ns_ring: Vec<u64>,
    pub frames: u64,
    pub frame_ns: u64,
    pub paint_pass_runs: u64,
    pub map_ns: u64,
    pub unmap_ns: u64,
    pub call_draw_ns: u64,
    pub present_ns: u64,
    pub quads: u64,
    pub quads_max: u64,
    pub panes: HashMap<PaneId, PanePerf>,
    /// Highest line seqno seen in the previous paint of each pane;
    /// persists across report windows
    pub prev_max_seqno: HashMap<PaneId, SequenceNo>,
    pub cur_max_seqno: SequenceNo,
    /// The pane currently being painted; shaping outside of a pane
    /// (tab bar etc) is attributed to `ui_*`
    pub current_pane: Option<PaneId>,
    pub ui_harfbuzz_calls: u64,
    pub ui_harfbuzz_ns: u64,
    /// Set by render_screen_line when the element-shape cache hit
    pub line_shape_cache_hit: bool,
}

impl RenderPerfStats {
    /// True when every counter of this report window is zero and no
    /// pane is being painted
    pub open spec fn is_empty_window(&self) -> bool {
        &&& self.frame_ns_ring@.len() == 0
        &&& self.frames == 0
        &&& self.frame_ns == 0
        &&& self.paint_pass_runs == 0
        &&& self.map_ns == 0
        &&& self.unmap_ns == 0
        &&& self.call_draw_ns == 0
        &&& self.present_ns == 0
        &&& self.quads == 0
        &&& self.quads_max == 0
        &&& self.panes@ == Map::<PaneId, PanePerf>::empty()
        &&& self.cur_max_seqno == 0
        &&& self.current_pane is None
        &&& self.ui_harfbuzz_calls == 0
        &&& self.ui_harfbuzz_ns == 0
        &&& !self.line_shape_cache_hit
    }

    /// Counters for a new window: `enabled` tells whether statistics are
    /// collected at all, `now` starts the first report window.
    pub fn new(enabled: bool, now: u64) -> (r: Self)
        ensures
            r.is_empty_window(),
            r.enabled == enabled,
            r.last_report == now,
            r.prev_max_seqno@ == Map::<PaneId, SequenceNo>::empty(),
    {
        RenderPerfStats {
            enabled,
            last_report: now,
            frame_ns_ring: Vec::new(),
            frames: 0,
            frame_ns: 0,
            paint_pass_runs: 0,
            map_ns: 0,
            unmap_ns: 0,
            call_draw_ns: 0,
            present_ns: 0,
            quads: 0,
            quads_max: 0,
            panes: HashMap::new(),
            prev_max_seqno: HashMap::new(),
            cur_max_seqno: 0,
            current_pane: None,
            ui_harfbuzz_calls: 0,
            ui_harfbuzz_ns: 0,
            line_shape_cache_hit: false,
        }
    }
}


impl RenderPerfStats {
    /// The counters of the pane being painted, created on first use
    pub fn pane(&mut self) -> (r: Option<&mut PanePerf>)
        ensures
            match old(self).current_pane {
                None => r is None && *final(self) == *old(self),
                Some(id) => {
                    &&& r is Some
                    &&& *r->0 == pane_or_zero(old(self).panes@, id)
                    &&& final(self).panes@ == old(self).panes@.insert(id, *final(r->0))
                    &&& *final(self) == RenderPerfStats { panes: final(self).panes, ..*old(self) }
                },
            },
    {
        let id = self.current_pane?;
        Some(self.panes.entry(id).or_insert(PanePerf::default()))
    }
}


/// The kept frame lengths after a frame of `n` nanoseconds
pub open spec fn kept_frames(ring: Seq<u64>, n: u64) -> Seq<u64> {
    if ring.len() < FRAME_RING {
        ring.push(n)
    } else {
        ring
    }
}

/// `a` plus `b` when that fits in 64 bits
pub open spec fn fits(a: u64, b: u64) -> bool {
    a + b <= u64::MAX
}

impl RenderPerfStats {
    /// Called before paint_pane's line loop.
    /// Returns the seqno threshold used to classify clean rows
    /// (None on the first paint of a pane).
    pub fn begin_pane(&mut self, pane_id: PaneId) -> (r: Option<SequenceNo>)
        requires
            pane_or_zero(old(self).panes@, pane_id).paints < u64::MAX,
        ensures
            r == (if old(self).prev_max_seqno@.contains_key(pane_id) {
                Some(old(self).prev_max_seqno@[pane_id])
            } else {
                None
            }),
            final(self).panes@ == old(self).panes@.insert(
                pane_id,
                (PanePerf {
                    paints: (pane_or_zero(old(self).panes@, pane_id).paints + 1) as u64,
                    ..pane_or_zero(old(self).panes@, pane_id)
                }),
            ),
            *final(self) == (RenderPerfStats {
                panes: final(self).panes,
                current_pane: Some(pane_id),
                cur_max_seqno: 0,
                ..*old(self)
            }),
    {
        self.current_pane = Some(pane_id);
        self.cur_max_seqno = 0;
        let entry = self.panes.entry(pane_id).or_insert(PanePerf::default());
        entry.paints = entry.paints + 1;
        match self.prev_max_seqno.get(&pane_id) {
            Some(seqno) => Some(*seqno),
            None => None,
        }
    }

    pub fn note_line_seqno(&mut self, seqno: SequenceNo)
        ensures
            *final(self) == (RenderPerfStats {
                cur_max_seqno: if old(self).cur_max_seqno >= seqno {
                    old(self).cur_max_seqno
                } else {
                    seqno
                },
                ..*old(self)
            }),
    {
        if seqno > self.cur_max_seqno {
            self.cur_max_seqno = seqno;
        }
    }

    /// Called after paint_pane's line loop: remembers the highest seqno
    /// seen for the next paint of the pane and accounts the time the
    /// terminal lock was held to the pane being painted.
    pub fn end_pane(&mut self, pane_id: PaneId, lock_held: Duration)
        requires
            old(self).current_pane matches Some(id) ==> fits(
                pane_or_zero(old(self).panes@, id).lock_held_ns,
                spec_ns(lock_held),
            ),
        ensures
            final(self).prev_max_seqno@ == old(self).prev_max_seqno@.insert(
                pane_id,
                old(self).cur_max_seqno,
            ),
            final(self).panes@ == (match old(self).current_pane {
                Some(id) => old(self).panes@.insert(
                    id,
                    (PanePerf {
                        lock_held_ns: (pane_or_zero(old(self).panes@, id).lock_held_ns + spec_ns(
                            lock_held,
                        )) as u64,
                        ..pane_or_zero(old(self).panes@, id)
                    }),
                ),
                None => old(self).panes@,
            }),
            *final(self) == (RenderPerfStats {
                panes: final(self).panes,
                prev_max_seqno: final(self).prev_max_seqno,
                current_pane: None,
                ..*old(self)
            }),
    {
        let cur = self.cur_max_seqno;
        self.prev_max_seqno.insert(pane_id, cur);
        let held = ns(lock_held);
        if let Some(p) = self.pane() {
            p.lock_held_ns = p.lock_held_ns + held;
        }
        self.current_pane = None;
    }

    /// Accounts one harfbuzz shaping call to the pane being painted, or
    /// to the UI when no pane is being painted.
    pub fn record_harfbuzz(&mut self, elapsed: Duration)
        requires
            match old(self).current_pane {
                Some(id) => {
                    &&& pane_or_zero(old(self).panes@, id).harfbuzz_calls < u64::MAX
                    &&& fits(pane_or_zero(old(self).panes@, id).harfbuzz_ns, spec_ns(elapsed))
                },
                None => {
                    &&& old(self).ui_harfbuzz_calls < u64::MAX
                    &&& fits(old(self).ui_harfbuzz_ns, spec_ns(elapsed))
                },
            },
        ensures
            match old(self).current_pane {
                Some(id) => {
                    &&& final(self).panes@ == old(self).panes@.insert(
                        id,
                        (PanePerf {
                            harfbuzz_calls: (pane_or_zero(old(self).panes@, id).harfbuzz_calls
                                + 1) as u64,
                            harfbuzz_ns: (pane_or_zero(old(self).panes@, id).harfbuzz_ns + spec_ns(
                                elapsed,
                            )) as u64,
                            ..pane_or_zero(old(self).panes@, id)
                        }),
                    )
                    &&& *final(self) == (RenderPerfStats { panes: final(self).panes, ..*old(self) })
                },
                None => *final(self) == (RenderPerfStats {
                    ui_harfbuzz_calls: (old(self).ui_harfbuzz_calls + 1) as u64,
                    ui_harfbuzz_ns: (old(self).ui_harfbuzz_ns + spec_ns(elapsed)) as u64,
                    ..*old(self)
                }),
            },
    {
        let n = ns(elapsed);
        match self.pane() {
            Some(p) => {
                p.harfbuzz_calls = p.harfbuzz_calls + 1;
                p.harfbuzz_ns = p.harfbuzz_ns + n;
            },
            None => {
                self.ui_harfbuzz_calls = self.ui_harfbuzz_calls + 1;
                self.ui_harfbuzz_ns = self.ui_harfbuzz_ns + n;
            },
        }
    }

    pub fn record_paint_pass(&mut self)
        requires
            old(self).paint_pass_runs < u64::MAX,
        ensures
            *final(self) == (RenderPerfStats {
                paint_pass_runs: (old(self).paint_pass_runs + 1) as u64,
                ..*old(self)
            }),
    {
        self.paint_pass_runs = self.paint_pass_runs + 1;
    }

    pub fn record_map(&mut self, d: Duration)
        requires
            fits(old(self).map_ns, spec_ns(d)),
        ensures
            *final(self) == (RenderPerfStats {
                map_ns: (old(self).map_ns + spec_ns(d)) as u64,
                ..*old(self)
            }),
    {
        self.map_ns = self.map_ns + ns(d);
    }

    pub fn record_unmap(&mut self, d: Duration)
        requires
            fits(old(self).unmap_ns, spec_ns(d)),
        ensures
            *final(self) == (RenderPerfStats {
                unmap_ns: (old(self).unmap_ns + spec_ns(d)) as u64,
                ..*old(self)
            }),
    {
        self.unmap_ns = self.unmap_ns + ns(d);
    }

    pub fn record_call_draw(&mut self, d: Duration)
        requires
            fits(old(self).call_draw_ns, spec_ns(d)),
        ensures
            *final(self) == (RenderPerfStats {
                call_draw_ns: (old(self).call_draw_ns + spec_ns(d)) as u64,
                ..*old(self)
            }),
    {
        self.call_draw_ns = self.call_draw_ns + ns(d);
    }

    pub fn record_present(&mut self, d: Duration)
        requires
            fits(old(self).present_ns, spec_ns(d)),
        ensures
            *final(self) == (RenderPerfStats {
                present_ns: (old(self).present_ns + spec_ns(d)) as u64,
                ..*old(self)
            }),
    {
        self.present_ns = self.present_ns + ns(d);
    }

    /// Accounts one frame of length `frame` drawing `quads` quads; the
    /// first `FRAME_RING` frame lengths of the report window are kept.
    pub fn record_frame(&mut self, frame: Duration, quads: u64)
        requires
            old(self).frames < u64::MAX,
            fits(old(self).frame_ns, spec_ns(frame)),
            fits(old(self).quads, quads),
        ensures
            final(self).frame_ns_ring@ == kept_frames(old(self).frame_ns_ring@, spec_ns(frame)),
            *final(self) == (RenderPerfStats {
                frames: (old(self).frames + 1) as u64,
                frame_ns: (old(self).frame_ns + spec_ns(frame)) as u64,
                frame_ns_ring: final(self).frame_ns_ring,
                quads: (old(self).quads + quads) as u64,
                quads_max: if old(self).quads_max >= quads {
                    old(self).quads_max
                } else {
                    quads
                },
                ..*old(self)
            }),
    {
        let n = ns(frame);
        self.frames = self.frames + 1;
        self.frame_ns = self.frame_ns + n;
        if self.frame_ns_ring.len() < FRAME_RING {
            self.frame_ns_ring.push(n);
        }
        self.quads = self.quads + quads;
        if quads > self.quads_max {
            self.quads_max = quads;
        }
    }

    /// True once a second has passed since the report window started
    pub fn report_due(&self, now: u64) -> (r: bool)
        ensures
            r == (now >= self.last_report && now - self.last_report >= 1_000_000_000),
    {
        now >= self.last_report && now - self.last_report >= 1_000_000_000
    }
}


impl RenderPerfStats {
    /// The counters of `pane_id`, zero when it has none yet
    fn counters_of(&self, pane_id: PaneId) -> (r: PanePerf)
        ensures
            r == pane_or_zero(self.panes@, pane_id),
    {
        match self.panes.get(&pane_id) {
            Some(p) => *p,
            None => PanePerf::default(),
        }
    }

    /// `end_pane`, where the lock time still fits the pane's counter.
    /// Returns false, and changes nothing, where it would overflow.
    pub fn try_end_pane(&mut self, pane_id: PaneId, lock_held: Duration) -> (r: bool)
        ensures
            r == (old(self).current_pane matches Some(id) ==> fits(
                pane_or_zero(old(self).panes@, id).lock_held_ns,
                spec_ns(lock_held),
            )),
            !r ==> *final(self) == *old(self),
            r ==> final(self).prev_max_seqno@ == old(self).prev_max_seqno@.insert(
                pane_id,
                old(self).cur_max_seqno,
            ),
            r ==> final(self).panes@ == (match old(self).current_pane {
                Some(id) => old(self).panes@.insert(
                    id,
                    (PanePerf {
                        lock_held_ns: (pane_or_zero(old(self).panes@, id).lock_held_ns + spec_ns(
                            lock_held,
                        )) as u64,
                        ..pane_or_zero(old(self).panes@, id)
                    }),
                ),
                None => old(self).panes@,
            }),
            r ==> *final(self) == (RenderPerfStats {
                panes: final(self).panes,
                prev_max_seqno: final(self).prev_max_seqno,
                current_pane: None,
                ..*old(self)
            }),
    {
        if let Some(id) = self.current_pane {
            let held = self.counters_of(id).lock_held_ns;
            if held.checked_add(ns(lock_held)).is_none() {
                return false;
            }
        }
        self.end_pane(pane_id, lock_held);
        true
    }

    /// `record_harfbuzz`, where the counters it adds to still fit.
    /// Returns false, and changes nothing, where one would overflow.
    pub fn try_record_harfbuzz(&mut self, elapsed: Duration) -> (r: bool)
        ensures
            r == (match old(self).current_pane {
                Some(id) => {
                    &&& pane_or_zero(old(self).panes@, id).harfbuzz_calls < u64::MAX
                    &&& fits(pane_or_zero(old(self).panes@, id).harfbuzz_ns, spec_ns(elapsed))
                },
                None => {
                    &&& old(self).ui_harfbuzz_calls < u64::MAX
                    &&& fits(old(self).ui_harfbuzz_ns, spec_ns(elapsed))
                },
            }),
            !r ==> *final(self) == *old(self),
            r ==> match old(self).current_pane {
                Some(id) => {
                    &&& final(self).panes@ == old(self).panes@.insert(
                        id,
                        (PanePerf {
                            harfbuzz_calls: (pane_or_zero(old(self).panes@, id).harfbuzz_calls
                                + 1) as u64,
                            harfbuzz_ns: (pane_or_zero(old(self).panes@, id).harfbuzz_ns + spec_ns(
                                elapsed,
                            )) as u64,
                            ..pane_or_zero(old(self).panes@, id)
                        }),
                    )
                    &&& *final(self) == (RenderPerfStats { panes: final(self).panes, ..*old(self) })
                },
                None => *final(self) == (RenderPerfStats {
                    ui_harfbuzz_calls: (old(self).ui_harfbuzz_calls + 1) as u64,
                    ui_harfbuzz_ns: (old(self).ui_harfbuzz_ns + spec_ns(elapsed)) as u64,
                    ..*old(self)
                }),
            },
    {
        let (calls, total) = match self.current_pane {
            Some(id) => {
                let p = self.counters_of(id);
                (p.harfbuzz_calls, p.harfbuzz_ns)
            },
            None => (self.ui_harfbuzz_calls, self.ui_harfbuzz_ns),
        };
        if calls == u64::MAX || total.checked_add(ns(elapsed)).is_none() {
            return false;
        }
        self.record_harfbuzz(elapsed);
        true
    }

    /// `record_map`, where the total still fits; false, and no change,
    /// where it would overflow.
    pub fn try_record_map(&mut self, d: Duration) -> (r: bool)
        ensures
            r == fits(old(self).map_ns, spec_ns(d)),
            r ==> *final(self) == (RenderPerfStats {
                map_ns: (old(self).map_ns + spec_ns(d)) as u64,
                ..*old(self)
            }),
            !r ==> *final(self) == *old(self),
    {
        if self.map_ns.checked_add(ns(d)).is_none() {
            return false;
        }
        self.record_map(d);
        true
    }

    /// `record_unmap`, where the total still fits; false, and no change,
    /// where it would overflow.
    pub fn try_record_unmap(&mut self, d: Duration) -> (r: bool)
        ensures
            r == fits(old(self).unmap_ns, spec_ns(d)),
            r ==> *final(self) == (RenderPerfStats {
                unmap_ns: (old(self).unmap_ns + spec_ns(d)) as u64,
                ..*old(self)
            }),
            !r ==> *final(self) == *old(self),
    {
        if self.unmap_ns.checked_add(ns(d)).is_none() {
            return false;
        }
        self.record_unmap(d);
        true
    }

    /// `record_call_draw`, where the total still fits; false, and no
    /// change, where it would overflow.
    pub fn try_record_call_draw(&mut self, d: Duration) -> (r: bool)
        ensures
            r == fits(old(self).call_draw_ns, spec_ns(d)),
            r ==> *final(self) == (RenderPerfStats {
                call_draw_ns: (old(self).call_draw_ns + spec_ns(d)) as u64,
                ..*old(self)
            }),
            !r ==> *final(self) == *old(self),
    {
        if self.call_draw_ns.checked_add(ns(d)).is_none() {
            return false;
        }
        self.record_call_draw(d);
        true
    }

    /// `record_present`, where the total still fits; false, and no
    /// change, where it would overflow.
    pub fn try_record_present(&mut self, d: Duration) -> (r: bool)
        ensures
            r == fits(old(self).present_ns, spec_ns(d)),
            r ==> *final(self) == (RenderPerfStats {
                present_ns: (old(self).present_ns + spec_ns(d)) as u64,
                ..*old(self)
            }),
            !r ==> *final(self) == *old(self),
    {
        if self.present_ns.checked_add(ns(d)).is_none() {
            return false;
        }
        self.record_present(d);
        true
    }

    /// `record_frame`, where the counters it adds to still fit; false,
    /// and no change, where one would overflow.
    pub fn try_record_frame(&mut self, frame: Duration, quads: u64) -> (r: bool)
        ensures
            r == (old(self).frames < u64::MAX && fits(old(self).frame_ns, spec_ns(frame)) && fits(
                old(self).quads,
                quads,
            )),
            !r ==> *final(self) == *old(self),
            r ==> final(self).frame_ns_ring@ == kept_frames(
                old(self).frame_ns_ring@,
                spec_ns(frame),
            ),
            r ==> *final(self) == (RenderPerfStats {
                frames: (old(self).frames + 1) as u64,
                frame_ns: (old(self).frame_ns + spec_ns(frame)) as u64,
                frame_ns_ring: final(self).frame_ns_ring,
                quads: (old(self).quads + quads) as u64,
                quads_max: if old(self).quads_max >= quads {
                    old(self).quads_max
                } else {
                    quads
                },
                ..*old(self)
            }),
    {
        if self.frames == u64::MAX || self.frame_ns.checked_add(ns(frame)).is_none()
            || self.quads.checked_add(quads).is_none() {
            return false;
        }
        self.record_frame(frame, quads);
        true
    }
}

/// `s` is in ascending order
pub open spec fn ascending(s: Seq<u64>) -> bool {
    forall|i: int, j: int| 0 <= i <= j < s.len() ==> s[i] <= s[j]
}

/// `s` is in strictly ascending order
pub open spec fn strictly_ascending(s: Seq<PaneId>) -> bool {
    forall|i: int, j: int| 0 <= i < j < s.len() ==> s[i] < s[j]
}

/// The elements of `v` in ascending order
pub fn sorted_u64(v: &Vec<u64>) -> (r: Vec<u64>)
    ensures
        ascending(r@),
        r@.to_multiset() == v@.to_multiset(),
{
    broadcast use vstd::seq_lib::group_to_multiset_ensures;

    let mut out: Vec<u64> = Vec::new();
    let mut i: usize = 0;
    while i < v.len()
        invariant
            i <= v.len(),
            ascending(out@),
            out@.to_multiset() == v@.take(i as int).to_multiset(),
        decreases v.len() - i,
    {
        let x = v[i];
        let mut k: usize = 0;
        while k < out.len() && out[k] <= x
            invariant
                k <= out.len(),
                forall|j: int| 0 <= j < k ==> out@[j] <= x,
            decreases out.len() - k,
        {
            k = k + 1;
        }
        proof {
            vstd::seq_lib::to_multiset_insert(out@, k as int, x);
            assert(v@.take(i + 1) == v@.take(i as int).push(x));
            vstd::seq_lib::to_multiset_build(v@.take(i as int), x);
        }
        out.insert(k, x);
        i = i + 1;
    }
    proof {
        assert(v@.take(v@.len() as int) == v@);
    }
    out
}

/// The `percent` percentile of the ascending values `sorted`: the value
/// at index `(n - 1) * percent / 100`, rounded half up, 0 when there is
/// no value.  For at most 1024 values and the percentiles 50, 95, 99 and
/// 100 this is the index that `((n - 1) as f64 * p).round()` selects.
pub fn percentile(sorted: &Vec<u64>, percent: u64) -> (r: u64)
    requires
        percent <= 100,
        sorted@.len() <= FRAME_RING,
    ensures
        sorted@.len() == 0 ==> r == 0,
        sorted@.len() > 0 ==> r == sorted@[((sorted@.len() - 1) * percent + 50) / 100],
{
    if sorted.len() == 0 {
        return 0;
    }
    let n = (sorted.len() - 1) as u64;
    assert(n * percent <= 1023 * 100) by (nonlinear_arith)
        requires
            n <= 1023,
            percent <= 100,
    ;
    let idx = (n * percent + 50) / 100;
    assert(idx <= n) by (nonlinear_arith)
        requires
            idx == (n * percent + 50) / 100,
            percent <= 100,
    ;
    sorted[idx as usize]
}

impl RenderPerfStats {
    /// The frame lengths of this report window in ascending order
    pub fn sorted_frames(&self) -> (r: Vec<u64>)
        ensures
            ascending(r@),
            r@.to_multiset() == self.frame_ns_ring@.to_multiset(),
    {
        sorted_u64(&self.frame_ns_ring)
    }

    /// The panes with counters in this report window, in ascending order
    pub fn pane_ids(&self) -> (r: Vec<PaneId>)
        ensures
            strictly_ascending(r@),
            r@.to_set() == self.panes@.dom(),
    {
        broadcast use vstd::std_specs::hash::axiom_spec_keys_iter;

        let mut ids: Vec<PaneId> = Vec::new();
        for id in it: self.panes.keys()
            invariant
                strictly_ascending(ids@),
                ids@.to_set() == it.seq().unref().take(it.index()).to_set(),
                it.seq().unref().to_set() == self.panes@.dom(),
                it.index() == it.seq().len() ==> ids@.to_set() == self.panes@.dom(),
        {
            let x = *id;
            let ghost before = ids@;
            let ghost idx = it.index();
            assert(x == it.seq().unref()[idx]);
            let mut k: usize = 0;
            while k < ids.len() && ids[k] < x
                invariant
                    k <= ids.len(),
                    forall|j: int| 0 <= j < k ==> ids@[j] < x,
                decreases ids.len() - k,
            {
                k = k + 1;
            }
            if k == ids.len() || ids[k] != x {
                ids.insert(k, x);
                proof {
                    assert forall|i: int, j: int| 0 <= i < j < ids@.len() implies ids@[i]
                        < ids@[j] by {
                        if j < k {
                        } else if j == k {
                        } else if i < k {
                            assert(ids@[j] == before[j - 1]);
                        } else if i == k {
                            assert(ids@[j] == before[j - 1]);
                            assert(before[k as int] >= x);
                        } else {
                            assert(ids@[j] == before[j - 1]);
                            assert(ids@[i] == before[i - 1]);
                        }
                    }
                    assert(ids@.to_set() =~= before.to_set().insert(x)) by {
                        assert forall|y: PaneId| ids@.contains(y) implies before.contains(y)
                            || y == x by {
                            let j = choose|j: int| 0 <= j < ids@.len() && ids@[j] == y;
                            if j < k {
                                assert(before[j] == y);
                            } else if j > k {
                                assert(before[j - 1] == y);
                            }
                        }
                        assert forall|y: PaneId| before.contains(y) implies ids@.contains(y) by {
                            let j = choose|j: int| 0 <= j < before.len() && before[j] == y;
                            if j < k {
                                assert(ids@[j] == y);
                            } else {
                                assert(ids@[j + 1] == y);
                            }
                        }
                        assert(ids@[k as int] == x);
                    }
                }
            } else {
                proof {
                    assert(before[k as int] == x);
                    assert(ids@.to_set() =~= before.to_set().insert(x));
                }
            }
            proof {
                let s = it.seq().unref();
                assert(s.take(idx + 1) =~= s.take(idx).push(x));
                s.take(idx).lemma_push_to_set_commute(x);
                assert(s.take(s.len() as int) =~= s);
            }
        }
        ids
    }

    /// Starts a new report window at `now`: every counter of the window
    /// goes back to zero, while the per-pane line seqnos, which span
    /// report windows, and the on switch are kept.
    pub fn start_report_window(&mut self, now: u64)
        ensures
            final(self).is_empty_window(),
            final(self).enabled == old(self).enabled,
            final(self).last_report == now,
            final(self).prev_max_seqno == old(self).prev_max_seqno,
    {
        let mut fresh = RenderPerfStats::new(self.enabled, now);
        std::mem::swap(&mut fresh.prev_max_seqno, &mut self.prev_max_seqno);
        *self = fresh;
    }
}


/// The kept frame lengths never exceed `FRAME_RING`: once the ring is
/// full, further frames are counted but not kept, and the kept ones are
/// the first frames of the report window, in order.
pub proof fn frame_ring_is_bounded(ring: Seq<u64>, n: u64)
    requires
        ring.len() <= FRAME_RING,
    ensures
        kept_frames(ring, n).len() <= FRAME_RING,
        kept_frames(ring, n).take(ring.len() as int) == ring,
        ring.len() == FRAME_RING ==> kept_frames(ring, n) == ring,
{
    assert(kept_frames(ring, n).take(ring.len() as int) =~= ring);
}

/// A percentile is one of the kept values, between the smallest and the
/// largest; the 100th percentile is the largest and the 0th the smallest.
pub proof fn percentile_is_a_kept_value(sorted: Seq<u64>, percent: int)
    requires
        ascending(sorted),
        0 <= percent <= 100,
        sorted.len() > 0,
    ensures
        ({
            let i = ((sorted.len() - 1) * percent + 50) / 100;
            &&& 0 <= i < sorted.len()
            &&& sorted[0] <= sorted[i] <= sorted[sorted.len() - 1]
            &&& percent == 100 ==> i == sorted.len() - 1
            &&& percent == 0 ==> i == 0
        }),
{
    let n = sorted.len() - 1;
    assert(0 <= (n * percent + 50) / 100 <= n) by (nonlinear_arith)
        requires
            0 <= percent <= 100,
            n >= 0,
    ;
}

/// The clean-row threshold that `begin_pane` returns is the highest line
/// seqno noted during that pane's previous paint, whatever other panes
/// were painted in between and across report windows.
pub proof fn seqno_threshold_carries_over(
    prev: Map<PaneId, SequenceNo>,
    pane_id: PaneId,
    cur_max: SequenceNo,
    other: PaneId,
    other_max: SequenceNo,
)
    requires
        other != pane_id,
    ensures
        prev.insert(pane_id, cur_max).insert(other, other_max).contains_key(pane_id),
        prev.insert(pane_id, cur_max).insert(other, other_max)[pane_id] == cur_max,
{
}

} // verus!
