use cursor_anim::perfstats::{
    ns, percentile, sorted_u64, PanePerf, RenderPerfStats, FRAME_RING,
};
use std::time::Duration;

const SEC: u64 = 1_000_000_000;

#[test]
fn ns_of_durations() {
    assert_eq!(ns(Duration::from_millis(3)), 3_000_000);
    assert_eq!(ns(Duration::new(2, 5)), 2 * SEC + 5);
    assert_eq!(ns(Duration::ZERO), 0);
}

#[test]
fn pane_counters() {
    let mut s = RenderPerfStats::new(true, 0);
    assert_eq!(s.begin_pane(4), None);
    s.note_line_seqno(10);
    s.note_line_seqno(7);
    s.pane().unwrap().rows += 3;
    s.record_harfbuzz(Duration::from_nanos(50));
    s.end_pane(4, Duration::from_nanos(1_000));
    // Outside of a pane, shaping is attributed to the UI
    s.record_harfbuzz(Duration::from_nanos(20));
    assert!(s.pane().is_none());
    let p = s.panes[&4];
    assert_eq!(p.paints, 1);
    assert_eq!(p.rows, 3);
    assert_eq!(p.harfbuzz_calls, 1);
    assert_eq!(p.harfbuzz_ns, 50);
    assert_eq!(p.lock_held_ns, 1_000);
    assert_eq!(s.ui_harfbuzz_calls, 1);
    assert_eq!(s.ui_harfbuzz_ns, 20);
    // The next paint of the pane sees the highest seqno of this one
    assert_eq!(s.begin_pane(4), Some(10));
    assert_eq!(s.panes[&4].paints, 2);
    assert_eq!(s.cur_max_seqno, 0);
}

#[test]
fn frames_and_report_window() {
    let mut s = RenderPerfStats::new(true, 5 * SEC);
    for ms in [5u64, 1, 3, 2, 4] {
        s.record_frame(Duration::from_millis(ms), ms * 10);
    }
    s.record_paint_pass();
    s.record_map(Duration::from_nanos(1));
    s.record_unmap(Duration::from_nanos(2));
    s.record_call_draw(Duration::from_nanos(3));
    s.record_present(Duration::from_nanos(4));
    assert_eq!(s.frames, 5);
    assert_eq!(s.frame_ns, 15_000_000);
    assert_eq!(s.quads, 150);
    assert_eq!(s.quads_max, 50);
    assert_eq!(
        (s.map_ns, s.unmap_ns, s.call_draw_ns, s.present_ns),
        (1, 2, 3, 4)
    );
    let sorted = s.sorted_frames();
    assert_eq!(sorted, vec![1_000_000, 2_000_000, 3_000_000, 4_000_000, 5_000_000]);
    assert_eq!(percentile(&sorted, 50), 3_000_000);
    assert_eq!(percentile(&sorted, 95), 5_000_000);
    assert_eq!(percentile(&sorted, 99), 5_000_000);
    assert_eq!(percentile(&sorted, 100), 5_000_000);
    assert_eq!(percentile(&Vec::new(), 50), 0);

    assert!(!s.report_due(5 * SEC + SEC - 1));
    assert!(s.report_due(6 * SEC));
    assert!(!s.report_due(4 * SEC));

    s.begin_pane(1);
    s.note_line_seqno(99);
    s.end_pane(1, Duration::ZERO);
    s.start_report_window(6 * SEC);
    assert_eq!(s.frames, 0);
    assert!(s.frame_ns_ring.is_empty());
    assert!(s.panes.is_empty());
    assert_eq!(s.last_report, 6 * SEC);
    assert!(s.enabled);
    // Line seqnos persist across report windows
    assert_eq!(s.begin_pane(1), Some(99));
}

#[test]
fn frame_ring_keeps_first_frames() {
    let mut s = RenderPerfStats::new(false, 0);
    for i in 0..(FRAME_RING as u64 + 10) {
        s.record_frame(Duration::from_nanos(i), 1);
    }
    assert_eq!(s.frame_ns_ring.len(), FRAME_RING);
    assert_eq!(s.frames, FRAME_RING as u64 + 10);
    assert_eq!(s.frame_ns_ring[FRAME_RING - 1], FRAME_RING as u64 - 1);
}

#[test]
fn percentile_index_rounds_half_up() {
    let v: Vec<u64> = (0..4).collect();
    // (4 - 1) * 0.5 = 1.5 rounds to 2
    assert_eq!(percentile(&v, 50), 2);
    let v: Vec<u64> = (0..11).collect();
    // 10 * 0.95 = 9.5 rounds to 10
    assert_eq!(percentile(&v, 95), 10);
    assert_eq!(sorted_u64(&vec![3, 1, 3, 0]), vec![0, 1, 3, 3]);
}

#[test]
fn pane_ids_ascending_and_misses() {
    let mut s = RenderPerfStats::new(true, 0);
    for id in [9usize, 3, 7, 3] {
        s.begin_pane(id);
        s.end_pane(id, Duration::ZERO);
    }
    assert_eq!(s.pane_ids(), vec![3, 7, 9]);
    let p = PanePerf {
        miss_moved_or_context: 1,
        miss_content: 2,
        miss_expired_or_hover: 3,
        ..Default::default()
    };
    assert_eq!(p.misses(), 6);
}

#[test]
fn checked_records_refuse_overflow() {
    let mut s = RenderPerfStats::new(true, 0);
    s.map_ns = u64::MAX - 5;
    assert!(!s.try_record_map(Duration::from_nanos(6)));
    assert_eq!(s.map_ns, u64::MAX - 5);
    assert!(s.try_record_map(Duration::from_nanos(5)));
    assert_eq!(s.map_ns, u64::MAX);

    s.unmap_ns = u64::MAX;
    assert!(!s.try_record_unmap(Duration::from_nanos(1)));
    assert!(s.try_record_unmap(Duration::ZERO));
    assert!(s.try_record_call_draw(Duration::from_nanos(7)));
    assert_eq!(s.call_draw_ns, 7);
    assert!(s.try_record_present(Duration::from_micros(2)));
    assert_eq!(s.present_ns, 2_000);

    s.quads = u64::MAX - 1;
    assert!(!s.try_record_frame(Duration::from_millis(1), 2));
    assert_eq!(s.frames, 0);
    assert!(s.frame_ns_ring.is_empty());
    assert!(s.try_record_frame(Duration::from_millis(1), 1));
    assert_eq!(s.frames, 1);
    assert_eq!(s.frame_ns_ring, vec![1_000_000]);
    assert_eq!(s.quads_max, 1);
}

#[test]
fn checked_pane_records_refuse_overflow() {
    let mut s = RenderPerfStats::new(true, 0);
    assert_eq!(s.begin_pane(2), None);
    s.pane().unwrap().harfbuzz_calls = u64::MAX;
    assert!(!s.try_record_harfbuzz(Duration::from_nanos(1)));
    assert_eq!(s.panes[&2].harfbuzz_ns, 0);
    s.pane().unwrap().lock_held_ns = u64::MAX;
    s.note_line_seqno(9);
    assert!(!s.try_end_pane(2, Duration::from_nanos(1)));
    // Nothing changed: the pane is still being painted
    assert_eq!(s.current_pane, Some(2));
    assert!(s.try_end_pane(2, Duration::ZERO));
    assert_eq!(s.current_pane, None);
    assert_eq!(s.begin_pane(2), Some(9));
    // Outside of a pane the UI counters are checked
    s.try_end_pane(2, Duration::ZERO);
    s.ui_harfbuzz_ns = u64::MAX;
    assert!(!s.try_record_harfbuzz(Duration::from_nanos(1)));
    assert!(s.try_record_harfbuzz(Duration::ZERO));
    assert_eq!(s.ui_harfbuzz_calls, 1);
}
