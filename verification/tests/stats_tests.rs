use cursor_anim::paintstats::{
    forget_paint_stats, paint_stats_for, PaintStats, PaintStatsRegistry, PaintStatsSnapshot,
};
use cursor_anim::parserperf::{record, take, ParserPerf, ParserStats};
use std::sync::Arc;

#[test]
fn parser_record_and_take() {
    let mut stats = ParserStats::new();
    record(&mut stats, 1, 10, 500);
    record(&mut stats, 1, 5, 2_000);
    record(&mut stats, 2, 7, 100);
    let p = take(&mut stats, 1);
    assert_eq!(
        p,
        ParserPerf {
            flushes: 2,
            actions: 15,
            perform_ns: 2_500,
            perform_max_ns: 2_000,
        }
    );
    // Taking resets the counters of that pane only
    assert_eq!(take(&mut stats, 1), ParserPerf::default());
    assert_eq!(take(&mut stats, 2).flushes, 1);
    assert_eq!(take(&mut stats, 3), ParserPerf::default());
}

#[test]
fn paint_stats_take_resets() {
    let s = PaintStats::default();
    PaintStats::add(&s.wm_paint_received, 3);
    PaintStats::add(&s.wm_paint_received, 4);
    PaintStats::add(&s.throttle_actual_max_ns, 9);
    let snap = s.take();
    assert_eq!(snap.wm_paint_received, 7);
    assert_eq!(snap.throttle_actual_max_ns, 9);
    assert_eq!(snap.throttle_count, 0);
    assert_eq!(s.take(), PaintStatsSnapshot::default());
}

#[test]
fn paint_stats_registry() {
    let mut reg = PaintStatsRegistry::new();
    let a = paint_stats_for(&mut reg, 7);
    let b = paint_stats_for(&mut reg, 7);
    assert!(Arc::ptr_eq(&a, &b));
    PaintStats::add(&a.wm_paint_dispatched, 1);
    assert_eq!(b.take().wm_paint_dispatched, 1);
    let other = paint_stats_for(&mut reg, 8);
    assert!(!Arc::ptr_eq(&a, &other));
    forget_paint_stats(&mut reg, 7);
    let c = paint_stats_for(&mut reg, 7);
    assert!(!Arc::ptr_eq(&a, &c));
    assert_eq!(reg.windows.len(), 2);
}
