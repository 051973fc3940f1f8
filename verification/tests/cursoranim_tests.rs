use cursor_anim::config::{CursorAnimation, CursorModeChangePreset, CursorMotionPreset};
use cursor_anim::cursoranim::{
    effects_end, CursorAnimState, CursorInput, CursorKind, CursorMeasure, CursorShape,
    CursorVisualSnapshot, MotionAnim,
};

/// The pixel geometry that the tests animate: the cursor rectangle and
/// the height of a cell.
#[derive(Clone, Copy, Debug, PartialEq)]
struct Geo {
    x: f32,
    y: f32,
    w: f32,
    h: f32,
    cell_height: f32,
}

const MIN_DISTANCE: f32 = 1.5;
const MS: u64 = 1_000_000;

fn cfg(motion: CursorMotionPreset, mode: CursorModeChangePreset) -> CursorAnimation {
    let mut c = CursorAnimation {
        enabled: true,
        ..Default::default()
    };
    c.motion.preset = motion;
    c.mode_change.preset = mode;
    c
}

fn snap(col: f32, row: f32, kind: CursorKind) -> CursorVisualSnapshot<Geo> {
    let (cw, ch) = (10., 20.);
    let (x, y, w, h) = match kind {
        CursorKind::Block => (col * cw, row * ch, cw, ch),
        CursorKind::Bar => (col * cw, row * ch, 2., ch),
        CursorKind::Underline => (col * cw, row * ch + ch - 2., cw, 2.),
    };
    CursorVisualSnapshot {
        geometry: Geo {
            x,
            y,
            w,
            h,
            cell_height: ch,
        },
        kind,
        layout_key: 1,
    }
}

fn tail() -> CursorAnimation {
    cfg(CursorMotionPreset::Tail, CursorModeChangePreset::Ripple)
}

/// What the renderer measures of a snapshot against the last visible one
fn measure(st: &CursorAnimState<Geo>, input: &CursorInput<Geo>) -> CursorMeasure {
    let snap = match input {
        CursorInput::Visible(s) => s.geometry,
        _ => {
            return CursorMeasure {
                valid: false,
                moved: false,
                far: false,
            }
        }
    };
    let valid = [snap.x, snap.y, snap.w, snap.h].iter().all(|v| v.is_finite())
        && snap.w >= 0.
        && snap.h >= 0.;
    let (moved, far) = match st.previous {
        Some(prev) => {
            let p = prev.geometry;
            let moved = (p.x, p.y, p.w, p.h) != (snap.x, snap.y, snap.w, snap.h);
            let (px, py) = (p.x + p.w / 2., p.y + p.h / 2.);
            let (cx, cy) = (snap.x + snap.w / 2., snap.y + snap.h / 2.);
            let dist = (cx - px).hypot(cy - py);
            (moved, dist > MIN_DISTANCE * snap.cell_height)
        }
        None => (false, false),
    };
    CursorMeasure { valid, moved, far }
}

fn feed(st: &mut CursorAnimState<Geo>, input: CursorInput<Geo>, now: u64, c: &CursorAnimation) {
    let m = measure(st, &input);
    st.update(input, m, now, c);
}

fn visible(col: f32, row: f32, kind: CursorKind) -> CursorInput<Geo> {
    CursorInput::Visible(snap(col, row, kind))
}

#[test]
fn threshold() {
    let c = tail();
    let now = 1_000 * MS;
    let mut st = CursorAnimState::default();
    feed(&mut st, visible(0., 0., CursorKind::Block), now, &c);
    // One cell right: 10px < 1.5 * 20px
    feed(&mut st, visible(1., 0., CursorKind::Block), now, &c);
    assert!(!st.is_animating());
    // Far away
    feed(&mut st, visible(40., 10., CursorKind::Block), now, &c);
    assert!(st.motion.is_some());
    // A following small move cancels the trail
    feed(&mut st, visible(41., 10., CursorKind::Block), now, &c);
    assert!(st.motion.is_none());
}

#[test]
fn replaced_by_new_move() {
    let c = tail();
    let t0 = 1_000 * MS;
    let mut st = CursorAnimState::default();
    feed(&mut st, visible(0., 0., CursorKind::Block), t0, &c);
    feed(&mut st, visible(40., 0., CursorKind::Block), t0, &c);
    let t1 = t0 + 30 * MS;
    feed(&mut st, visible(0., 20., CursorKind::Block), t1, &c);
    let m = st.motion.unwrap();
    assert_eq!(m.from, snap(40., 0., CursorKind::Block).geometry);
    assert_eq!(m.start, t1);
}

#[test]
fn completion_stops_frames() {
    let c = tail();
    let t0 = 1_000 * MS;
    let mut st = CursorAnimState::default();
    feed(&mut st, visible(0., 0., CursorKind::Block), t0, &c);
    feed(&mut st, visible(50., 20., CursorKind::Block), t0, &c);
    let frame = st.render_motion(t0 + 40 * MS, &c).unwrap();
    assert_eq!(frame.end_ns, (t0 + 90 * MS) as u128);
    assert_eq!(frame.elapsed_ns, 40 * MS);
    assert_eq!(frame.duration_ms, 90);
    assert_eq!(frame.from, snap(0., 0., CursorKind::Block).geometry);
    assert_eq!(frame.to, snap(50., 20., CursorKind::Block).geometry);
    assert!(st.render_motion(t0 + 90 * MS, &c).is_none());
    assert!(!st.is_animating());
}

#[test]
fn resets() {
    let c = tail();
    let now = 1_000 * MS;
    let mut st = CursorAnimState::default();
    feed(&mut st, visible(0., 0., CursorKind::Block), now, &c);

    // Layout (resize, scroll, focus, config...) changes snap
    let mut moved = snap(40., 10., CursorKind::Bar);
    moved.layout_key = 2;
    feed(&mut st, CursorInput::Visible(moved), now, &c);
    assert!(!st.is_animating());

    // Inactive (unfocused, other pane...) resets; the next position
    // is a fresh start
    feed(&mut st, CursorInput::Inactive, now, &c);
    assert!(st.previous.is_none());
    let mut back = snap(0., 0., CursorKind::Block);
    back.layout_key = 2;
    feed(&mut st, CursorInput::Visible(back), now, &c);
    assert!(!st.is_animating());
}

#[test]
fn hidden_keeps_last_position() {
    let c = tail();
    let now = 1_000 * MS;
    let mut st = CursorAnimState::default();
    feed(&mut st, visible(0., 0., CursorKind::Block), now, &c);
    // Applications hide the cursor while redrawing, then show it
    // at the new position
    feed(&mut st, CursorInput::Hidden, now, &c);
    assert!(!st.is_animating());
    feed(&mut st, visible(40., 20., CursorKind::Block), now, &c);
    assert!(st.is_animating());
    // Hidden mid-animation: nothing drawn, resumes when shown
    feed(&mut st, CursorInput::Hidden, now, &c);
    assert!(!st.is_animating());
    feed(&mut st, visible(40., 20., CursorKind::Block), now, &c);
    assert!(st.is_animating());
}

#[test]
fn skipped_paint_resets() {
    let c = tail();
    let now = 1_000 * MS;
    let mut st = CursorAnimState::default();
    st.mark_painted(1);
    feed(&mut st, visible(0., 0., CursorKind::Block), now, &c);
    // Painted twice in the same frame, then in the next frame
    st.mark_painted(1);
    st.mark_painted(2);
    assert!(st.previous.is_some());
    // Tab was hidden for frames 3..=9
    st.mark_painted(10);
    feed(&mut st, visible(40., 20., CursorKind::Block), now, &c);
    assert!(!st.is_animating());
}

#[test]
fn mode_change_detection() {
    let c = tail();
    let now = 1_000 * MS;
    let mut st = CursorAnimState::default();
    feed(&mut st, visible(3., 3., CursorKind::Block), now, &c);
    // Redraw with identical state (eg: blink toggle) does nothing
    feed(&mut st, visible(3., 3., CursorKind::Block), now, &c);
    assert!(st.mode_change.is_none());
    feed(&mut st, visible(3., 3., CursorKind::Bar), now, &c);
    assert!(st.mode_change.is_some());
    // Shape change in place must not produce a trail
    assert!(st.motion.is_none());

    let mut st = CursorAnimState::default();
    feed(&mut st, visible(3., 3., CursorKind::Block), now, &c);
    feed(&mut st, visible(3., 3., CursorKind::Underline), now, &c);
    assert!(st.mode_change.is_some());

    // Blinking and steady variants are the same kind
    assert_eq!(
        CursorKind::from_shape(CursorShape::BlinkingBlock),
        CursorKind::from_shape(CursorShape::SteadyBlock)
    );
    assert_eq!(
        CursorKind::from_shape(CursorShape::Default),
        CursorKind::Block
    );

    // Focus loss resets rather than triggering on the way back
    let mut st = CursorAnimState::default();
    feed(&mut st, visible(3., 3., CursorKind::Bar), now, &c);
    feed(&mut st, CursorInput::Inactive, now, &c);
    feed(&mut st, visible(3., 3., CursorKind::Block), now, &c);
    assert!(st.mode_change.is_none());
}

#[test]
fn mode_change_disabled() {
    let c = cfg(CursorMotionPreset::Disabled, CursorModeChangePreset::Disabled);
    let now = 1_000 * MS;
    let mut st = CursorAnimState::default();
    feed(&mut st, visible(0., 0., CursorKind::Block), now, &c);
    feed(&mut st, visible(30., 10., CursorKind::Bar), now, &c);
    assert!(!st.is_animating());
}

#[test]
fn invalid_geometry_resets() {
    let c = tail();
    let now = 1_000 * MS;
    let mut st = CursorAnimState::default();
    feed(&mut st, visible(0., 0., CursorKind::Block), now, &c);
    let mut bad = snap(0., 0., CursorKind::Block);
    bad.geometry.w = f32::NAN;
    feed(&mut st, CursorInput::Visible(bad), now, &c);
    assert!(st.previous.is_none());
    assert!(!st.visible);
}

#[test]
fn mode_change_frame_and_end() {
    let c = tail();
    let t0 = 1_000 * MS;
    let mut st = CursorAnimState::default();
    feed(&mut st, visible(3., 3., CursorKind::Block), t0, &c);
    feed(&mut st, visible(3., 3., CursorKind::Bar), t0, &c);
    let f = st.render_mode_change(t0 + 20 * MS, &c).unwrap();
    assert_eq!(f.elapsed_ns, 20 * MS);
    assert_eq!(f.duration_ms, 150);
    assert_eq!(f.start, t0);
    assert_eq!(f.geometry, snap(3., 3., CursorKind::Bar).geometry);
    // A clock that reads earlier than the start counts as no time
    assert_eq!(st.render_mode_change(t0 - MS, &c).unwrap().elapsed_ns, 0);
    st.end_mode_change();
    assert!(st.render_mode_change(t0 + 20 * MS, &c).is_none());
    assert!(!st.is_animating());
}

#[test]
fn new_move_starts_from_last_visible_position() {
    let c = cfg(CursorMotionPreset::Warp, CursorModeChangePreset::Disabled);
    let t0 = 1_000 * MS;
    let mut st = CursorAnimState::default();
    feed(&mut st, visible(0., 0., CursorKind::Block), t0, &c);
    feed(&mut st, visible(20., 5., CursorKind::Block), t0 + MS, &c);
    assert_eq!(
        st.motion,
        Some(MotionAnim {
            from: snap(0., 0., CursorKind::Block).geometry,
            to: snap(20., 5., CursorKind::Block).geometry,
            start: t0 + MS,
        })
    );
    // Warp lasts 200ms by default
    assert_eq!(
        st.render_motion(t0 + MS, &c).unwrap().end_ns,
        (t0 + 201 * MS) as u128
    );
}

#[test]
fn input_selection_and_effect_end() {
    let s = snap(1., 1., CursorKind::Block);
    assert_eq!(CursorInput::from_rendered(false, Some(s)), CursorInput::Inactive);
    assert_eq!(CursorInput::<Geo>::from_rendered(true, None), CursorInput::Hidden);
    assert_eq!(CursorInput::from_rendered(true, Some(s)), CursorInput::Visible(s));
    assert_eq!(effects_end(Some(5), Some(3)), Some(3));
    assert_eq!(effects_end(Some(5), None), Some(5));
    assert_eq!(effects_end(None, Some(7)), Some(7));
    assert_eq!(effects_end(None, None), None);
}

#[test]
fn all_presets_render() {
    for motion in [
        CursorMotionPreset::Tail,
        CursorMotionPreset::Warp,
        CursorMotionPreset::Sweep,
    ] {
        for mode in [
            CursorModeChangePreset::Ripple,
            CursorModeChangePreset::SonicBoom,
            CursorModeChangePreset::RectangleBoom,
            CursorModeChangePreset::RectangleRipple,
        ] {
            let c = cfg(motion, mode);
            let t0 = 1_000 * MS;
            let mut st = CursorAnimState::default();
            feed(&mut st, visible(2., 2., CursorKind::Block), t0, &c);
            feed(&mut st, visible(50., 20., CursorKind::Bar), t0, &c);
            let now = t0 + 50 * MS;
            let frame = st.render_motion(now, &c);
            assert!(frame.is_some(), "{:?}", motion);
            assert_eq!(frame.unwrap().elapsed_ns, 50 * MS);
            let mode_frame = st.render_mode_change(now, &c);
            assert!(mode_frame.is_some(), "{:?}", mode);
            assert_eq!(mode_frame.unwrap().duration_ms, 150);
            assert!(st.is_animating());
        }
    }
}

fn anchored(st: &CursorAnimState<Geo>) -> bool {
    !(st.visible || st.motion.is_some() || st.mode_change.is_some()) || st.previous.is_some()
}

#[test]
fn effects_stay_anchored_to_a_cursor() {
    let c = tail();
    let t0 = 1_000 * MS;
    let mut st = CursorAnimState::default();
    assert!(anchored(&st));
    st.mark_painted(1);
    feed(&mut st, visible(0., 0., CursorKind::Block), t0, &c);
    assert!(anchored(&st));
    feed(&mut st, visible(40., 10., CursorKind::Bar), t0, &c);
    assert!(st.is_animating() && st.previous.is_some());
    feed(&mut st, CursorInput::Hidden, t0, &c);
    assert!(anchored(&st));
    st.mark_painted(5);
    assert!(anchored(&st));
    assert!(st.previous.is_none() && st.motion.is_none());
    feed(&mut st, visible(3., 3., CursorKind::Block), t0, &c);
    let _ = st.render_motion(t0 + 500 * MS, &c);
    st.end_mode_change();
    assert!(anchored(&st));
    feed(&mut st, CursorInput::Inactive, t0, &c);
    assert!(anchored(&st));
}
