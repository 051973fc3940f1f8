//! Decisions of the cursor animation: when a motion effect (Tail, Warp,
//! Sweep) starts, is replaced, cancelled or ends, when a shape change
//! effect (Ripple, SonicBoom, RectangleBoom, RectangleRipple) starts, and
//! when the per-pane state starts afresh.
//!
//! The state is generic over `G`, the pixel geometry of a cursor (its
//! rectangle, color, cell height, pane rectangle and window height).  The
//! state stores and hands back geometry but never looks inside it: the
//! caller measures geometry (is it finite, did the cursor move, is the
//! move long enough) and passes the answers in a [`CursorMeasure`].
//!
//! Times are nanoseconds on a monotonic clock whose origin the caller
//! chooses.
use crate::config::{CursorAnimation, CursorModeChangePreset, CursorMotionPreset};
use vstd::prelude::*;

verus! {

/// The cursor shape as the terminal reports it.
#[derive(Debug, Clone, Copy, PartialEq, Eq, Structural)]
pub enum CursorShape {
    Default,
    BlinkingBlock,
    SteadyBlock,
    BlinkingUnderline,
    SteadyUnderline,
    BlinkingBar,
    SteadyBar,
}

/// The cursor shape, ignoring blinking
#[derive(Debug, Clone, Copy, PartialEq, Eq, Structural)]
pub enum CursorKind {
    Block,
    Bar,
    Underline,
}

/// The kind of a cursor shape: blinking and steady variants are the
/// same kind, and the terminal's default cursor is a block.
pub open spec fn kind_of_shape(shape: CursorShape) -> CursorKind {
    match shape {
        CursorShape::BlinkingBar | CursorShape::SteadyBar => CursorKind::Bar,
        CursorShape::BlinkingUnderline | CursorShape::SteadyUnderline => CursorKind::Underline,
        _ => CursorKind::Block,
    }
}

impl CursorKind {
    pub fn from_shape(shape: CursorShape) -> (r: Self)
        ensures
            r == kind_of_shape(shape),
    {
        match shape {
            CursorShape::BlinkingBar | CursorShape::SteadyBar => CursorKind::Bar,
            CursorShape::BlinkingUnderline | CursorShape::SteadyUnderline => CursorKind::Underline,
            CursorShape::Default | CursorShape::BlinkingBlock | CursorShape::SteadyBlock => {
                CursorKind::Block
            },
        }
    }
}

/// Everything the animation needs to know about the cursor in one frame
#[derive(Debug, Clone, Copy, PartialEq)]
pub struct CursorVisualSnapshot<G> {
    /// The cursor's pixel geometry
    pub geometry: G,
    pub kind: CursorKind,
    /// Changes whenever the mapping from cells to pixels changes
    /// (resize, font, scrolling, alt screen, config reload...).
    /// A change snaps the animation instead of animating the jump.
    pub layout_key: u64,
}

/// What the caller measured of a visible cursor's geometry.
#[derive(Debug, Clone, Copy, PartialEq, Eq, Structural)]
pub struct CursorMeasure {
    /// The cursor rectangle and the pane rectangle are finite and
    /// have no negative size
    pub valid: bool,
    /// The cursor rectangle differs from that of the last visible cursor
    pub moved: bool,
    /// The centers of the last visible and of this cursor are further
    /// apart than `min_distance` cell heights
    pub far: bool,
}

/// A running motion effect
#[derive(Debug, Clone, Copy, PartialEq)]
pub struct MotionAnim<G> {
    pub from: G,
    pub to: G,
    pub start: u64,
}

/// A running shape change effect
#[derive(Debug, Clone, Copy, PartialEq)]
pub struct ModeAnim<G> {
    pub geometry: G,
    pub start: u64,
}

/// What the animation sees of a pane's cursor in one frame
#[derive(Debug, Clone, Copy, PartialEq)]
pub enum CursorInput<G> {
    /// Nothing to animate: pane inactive, window unfocused,
    /// composing, or the cursor is outside the viewport.
    Inactive,
    /// The application hid the cursor.  Programs (and ConPTY) commonly
    /// hide the cursor while they redraw, so this keeps the last visible
    /// position and the next visible cursor animates from there.
    Hidden,
    Visible(CursorVisualSnapshot<G>),
}

impl<G> CursorInput<G> {
    /// The input for a pane in one frame: nothing when the pane is not
    /// eligible (inactive pane, unfocused window, composing, leader key),
    /// hidden when the cursor was not drawn, else the drawn cursor.
    pub fn from_rendered(eligible: bool, rendered: Option<CursorVisualSnapshot<G>>) -> (r: Self)
        ensures
            r == (if !eligible {
                CursorInput::Inactive
            } else {
                match rendered {
                    None => CursorInput::Hidden,
                    Some(snap) => CursorInput::Visible(snap),
                }
            }),
    {
        if !eligible {
            return CursorInput::Inactive;
        }
        match rendered {
            None => CursorInput::Hidden,
            Some(snap) => CursorInput::Visible(snap),
        }
    }
}

/// What the caller needs to draw the motion effect in one frame
#[derive(Debug, Clone, Copy, PartialEq)]
pub struct MotionFrame<G> {
    pub from: G,
    pub to: G,
    /// The cursor as it is now (its pane rectangle clips the effect, its
    /// rectangle is left uncovered)
    pub cursor: CursorVisualSnapshot<G>,
    /// Time since the effect started
    pub elapsed_ns: u64,
    /// Length of the effect, at least one millisecond
    pub duration_ms: u64,
    /// The time at which the effect ends
    pub end_ns: u128,
}

/// What the caller needs to draw the shape change effect in one frame
#[derive(Debug, Clone, Copy, PartialEq)]
pub struct ModeChangeFrame<G> {
    pub geometry: G,
    pub cursor: CursorVisualSnapshot<G>,
    pub start: u64,
    /// Time since the effect started
    pub elapsed_ns: u64,
    /// Length of the effect, at least one millisecond
    pub duration_ms: u64,
}

/// Per-pane animation state
#[derive(Debug, Clone, Copy)]
pub struct CursorAnimState<G> {
    /// The paint generation in which this pane was last painted
    pub painted: Option<usize>,
    /// The last visible cursor
    pub previous: Option<CursorVisualSnapshot<G>>,
    pub visible: bool,
    pub motion: Option<MotionAnim<G>>,
    pub mode_change: Option<ModeAnim<G>>,
}

/// `a - b`, or 0 when `b` is later than `a`
pub open spec fn saturating_elapsed(now: u64, start: u64) -> u64 {
    if now >= start {
        (now - start) as u64
    } else {
        0
    }
}

/// The length of the motion effect in milliseconds, at least one.
pub open spec fn motion_duration_ms(config: CursorAnimation) -> u64 {
    let ms = config.motion.spec_effective_duration_ms();
    if ms >= 1 {
        ms
    } else {
        1
    }
}

/// The length of the shape change effect in milliseconds, at least one.
pub open spec fn mode_duration_ms(config: CursorAnimation) -> u64 {
    let ms = config.mode_change.spec_effective_duration_ms();
    if ms >= 1 {
        ms
    } else {
        1
    }
}

impl<G> CursorAnimState<G> {
    /// The state of a pane that has not been painted yet.
    pub open spec fn fresh() -> Self {
        CursorAnimState {
            painted: None,
            previous: None,
            visible: false,
            motion: None,
            mode_change: None,
        }
    }

    /// True if an effect should be drawn this frame
    pub open spec fn spec_is_animating(self) -> bool {
        self.visible && (self.motion is Some || self.mode_change is Some)
    }

    /// The state after `mark_painted(generation)`.
    pub open spec fn after_mark_painted(self, generation: usize) -> Self {
        let kept = match self.painted {
            Some(last) => {
                if last != generation && last + 1 != generation {
                    Self::fresh()
                } else {
                    self
                }
            },
            None => self,
        };
        CursorAnimState { painted: Some(generation), ..kept }
    }

    /// The state after `update(input, measure, now, config)`.
    pub open spec fn after_update(
        self,
        input: CursorInput<G>,
        measure: CursorMeasure,
        now: u64,
        config: CursorAnimation,
    ) -> Self {
        match input {
            CursorInput::Hidden => CursorAnimState { visible: false, ..self },
            CursorInput::Visible(snap) => {
                if !measure.valid {
                    Self::fresh()
                } else {
                    match self.previous {
                        Some(prev) => {
                            if prev.layout_key == snap.layout_key {
                                let mode_change = if prev.kind != snap.kind
                                    && config.mode_change.preset
                                    != CursorModeChangePreset::Disabled {
                                    Some(ModeAnim { geometry: snap.geometry, start: now })
                                } else {
                                    self.mode_change
                                };
                                let motion = if measure.moved {
                                    if config.motion.preset != CursorMotionPreset::Disabled
                                        && measure.far {
                                        Some(
                                            MotionAnim {
                                                from: prev.geometry,
                                                to: snap.geometry,
                                                start: now,
                                            },
                                        )
                                    } else {
                                        None
                                    }
                                } else {
                                    self.motion
                                };
                                CursorAnimState {
                                    painted: self.painted,
                                    previous: Some(snap),
                                    visible: true,
                                    motion,
                                    mode_change,
                                }
                            } else {
                                CursorAnimState {
                                    painted: self.painted,
                                    previous: Some(snap),
                                    visible: true,
                                    motion: None,
                                    mode_change: None,
                                }
                            }
                        },
                        None => CursorAnimState {
                            painted: self.painted,
                            previous: Some(snap),
                            visible: true,
                            motion: None,
                            mode_change: None,
                        },
                    }
                }
            },
            CursorInput::Inactive => Self::fresh(),
        }
    }
}

impl<G> CursorAnimState<G> {
    /// True when the motion effect has run for its whole length at `now`
    pub open spec fn motion_over(self, now: u64, config: CursorAnimation) -> bool {
        match self.motion {
            Some(anim) => saturating_elapsed(now, anim.start) >= motion_duration_ms(config)
                * 1_000_000,
            None => false,
        }
    }

    /// The state after `render_motion(now, config)`: the motion effect is
    /// forgotten once it is over.
    pub open spec fn after_render_motion(self, now: u64, config: CursorAnimation) -> Self {
        if self.previous is Some && self.motion_over(now, config) {
            CursorAnimState { motion: None, ..self }
        } else {
            self
        }
    }
}

impl<G> Default for CursorAnimState<G> {
    fn default() -> (r: Self)
        ensures
            r == Self::fresh(),
    {
        CursorAnimState {
            painted: None,
            previous: None,
            visible: false,
            motion: None,
            mode_change: None,
        }
    }
}

impl<G: Copy> CursorAnimState<G> {
    /// Record that the pane is being painted in paint `generation`.
    /// A pane that was skipped (eg: its tab was not visible) may have a
    /// cursor that moved while hidden, so it starts afresh.
    pub fn mark_painted(&mut self, generation: usize)
        requires
            old(self).painted == Some(usize::MAX) ==> generation == usize::MAX,
        ensures
            *final(self) == old(self).after_mark_painted(generation),
    {
        if let Some(last) = self.painted {
            if last != generation && last + 1 != generation {
                *self = Self::default();
            }
        }
        self.painted = Some(generation);
    }

    /// Feed the current cursor state
    pub fn update(
        &mut self,
        input: CursorInput<G>,
        measure: CursorMeasure,
        now: u64,
        config: &CursorAnimation,
    )
        ensures
            *final(self) == old(self).after_update(input, measure, now, *config),
    {
        let snap = match input {
            CursorInput::Hidden => {
                self.visible = false;
                return ;
            },
            CursorInput::Visible(snap) if measure.valid => snap,
            _ => {
                *self = Self::default();
                return ;
            },
        };
        self.visible = true;

        match self.previous {
            Some(prev) if prev.layout_key == snap.layout_key => {
                if prev.kind != snap.kind && config.mode_change.preset
                    != CursorModeChangePreset::Disabled {
                    self.mode_change = Some(ModeAnim { geometry: snap.geometry, start: now });
                }
                if measure.moved {
                    self.motion =
                        if config.motion.preset != CursorMotionPreset::Disabled && measure.far {
                        Some(MotionAnim { from: prev.geometry, to: snap.geometry, start: now })
                    } else {
                        None
                    };
                }
            },
            _ => {
                self.motion = None;
                self.mode_change = None;
            },
        }
        self.previous = Some(snap);
    }

    /// True if an effect should be drawn this frame
    pub fn is_animating(&self) -> (r: bool)
        ensures
            r == self.spec_is_animating(),
    {
        self.visible && (self.motion.is_some() || self.mode_change.is_some())
    }

    /// The motion effect to draw at time `now`.
    /// Returns None, and forgets the effect, once it has ended.
    pub fn render_motion(&mut self, now: u64, config: &CursorAnimation) -> (r: Option<
        MotionFrame<G>,
    >)
        ensures
            *final(self) == old(self).after_render_motion(now, *config),
            match (old(self).motion, old(self).previous) {
                (Some(anim), Some(snap)) => {
                    let duration_ms = motion_duration_ms(*config);
                    let elapsed = saturating_elapsed(now, anim.start);
                    if elapsed >= duration_ms * 1_000_000 {
                        &&& r is None
                        &&& *final(self) == CursorAnimState { motion: None, ..*old(self) }
                    } else {
                        &&& r == Some(
                            MotionFrame {
                                from: anim.from,
                                to: anim.to,
                                cursor: snap,
                                elapsed_ns: elapsed,
                                duration_ms,
                                end_ns: (anim.start + duration_ms * 1_000_000) as u128,
                            },
                        )
                        &&& *final(self) == *old(self)
                    }
                },
                _ => r is None && *final(self) == *old(self),
            },
    {
        let (anim, snap) = match (self.motion, self.previous) {
            (Some(anim), Some(snap)) => (anim, snap),
            _ => return None,
        };
        let ms = config.motion.effective_duration_ms();
        let duration_ms = if ms >= 1 {
            ms
        } else {
            1
        };
        let elapsed = if now >= anim.start {
            now - anim.start
        } else {
            0
        };
        let duration_ns = duration_ms as u128 * 1_000_000;
        if elapsed as u128 >= duration_ns {
            self.motion = None;
            return None;
        }
        Some(
            MotionFrame {
                from: anim.from,
                to: anim.to,
                cursor: snap,
                elapsed_ns: elapsed,
                duration_ms,
                end_ns: anim.start as u128 + duration_ns,
            },
        )
    }

    /// The shape change effect to draw at time `now`, if one is running.
    /// The caller ends it with `end_mode_change` once its progress,
    /// which also depends on the configured start offset, reaches 1.
    pub fn render_mode_change(&self, now: u64, config: &CursorAnimation) -> (r: Option<
        ModeChangeFrame<G>,
    >)
        ensures
            r == (match (self.mode_change, self.previous) {
                (Some(anim), Some(snap)) => Some(
                    ModeChangeFrame {
                        geometry: anim.geometry,
                        cursor: snap,
                        start: anim.start,
                        elapsed_ns: saturating_elapsed(now, anim.start),
                        duration_ms: mode_duration_ms(*config),
                    },
                ),
                _ => None,
            }),
    {
        let (anim, snap) = match (self.mode_change, self.previous) {
            (Some(anim), Some(snap)) => (anim, snap),
            _ => return None,
        };
        let ms = config.mode_change.effective_duration_ms();
        let duration_ms = if ms >= 1 {
            ms
        } else {
            1
        };
        let elapsed = if now >= anim.start {
            now - anim.start
        } else {
            0
        };
        Some(
            ModeChangeFrame {
                geometry: anim.geometry,
                cursor: snap,
                start: anim.start,
                elapsed_ns: elapsed,
                duration_ms,
            },
        )
    }

    /// Forget the shape change effect: it has run its course.
    pub fn end_mode_change(&mut self)
        ensures
            *final(self) == (CursorAnimState { mode_change: None, ..*old(self) }),
    {
        self.mode_change = None;
    }
}


/// The time at which the running effects are all over: the earlier of
/// the two end times when both effects run.
pub fn effects_end(motion_end: Option<u128>, mode_end: Option<u128>) -> (r: Option<u128>)
    ensures
        r == (match (motion_end, mode_end) {
            (Some(a), Some(b)) => Some(if a <= b { a } else { b }),
            (Some(a), None) => Some(a),
            (None, b) => b,
        }),
{
    match (motion_end, mode_end) {
        (Some(a), Some(b)) => Some(if a <= b { a } else { b }),
        (a, b) => if a.is_some() { a } else { b },
    }
}

impl<G> CursorAnimState<G> {
    /// An effect runs, and the cursor counts as visible, only while there
    /// is a last visible cursor to draw it for
    pub open spec fn anchored(self) -> bool {
        (self.visible || self.motion is Some || self.mode_change is Some) ==> self.previous is Some
    }
}

/// Every operation keeps the effects anchored to a last visible cursor,
/// starting from a fresh pane: whenever a pane is animating, the cursor
/// whose color the effects default to is there.
pub proof fn effects_stay_anchored<G>(
    s: CursorAnimState<G>,
    input: CursorInput<G>,
    measure: CursorMeasure,
    now: u64,
    config: CursorAnimation,
    generation: usize,
)
    requires
        s.anchored(),
    ensures
        CursorAnimState::<G>::fresh().anchored(),
        s.after_update(input, measure, now, config).anchored(),
        s.after_mark_painted(generation).anchored(),
        s.after_render_motion(now, config).anchored(),
        (CursorAnimState { mode_change: None, ..s }).anchored(),
        s.spec_is_animating() ==> s.previous is Some,
{
}

/// Blinking and steady variants of a shape are the same kind, so
/// switching between them never starts a shape change effect.
pub proof fn blinking_is_not_a_shape_change()
    ensures
        kind_of_shape(CursorShape::BlinkingBlock) == kind_of_shape(CursorShape::SteadyBlock),
        kind_of_shape(CursorShape::BlinkingBar) == kind_of_shape(CursorShape::SteadyBar),
        kind_of_shape(CursorShape::BlinkingUnderline) == kind_of_shape(
            CursorShape::SteadyUnderline,
        ),
        kind_of_shape(CursorShape::Default) == CursorKind::Block,
{
}

/// Each terminal cursor shape has its kind: the bar shapes are bars, the
/// underline shapes underlines, and the block shapes and the terminal's
/// default cursor blocks.  So switching between a block, a bar and an
/// underline is a change of kind, while blinking on or off is not.
pub proof fn shape_kinds()
    ensures
        kind_of_shape(CursorShape::BlinkingBar) == CursorKind::Bar,
        kind_of_shape(CursorShape::SteadyBar) == CursorKind::Bar,
        kind_of_shape(CursorShape::BlinkingUnderline) == CursorKind::Underline,
        kind_of_shape(CursorShape::SteadyUnderline) == CursorKind::Underline,
        kind_of_shape(CursorShape::Default) == CursorKind::Block,
        kind_of_shape(CursorShape::BlinkingBlock) == CursorKind::Block,
        kind_of_shape(CursorShape::SteadyBlock) == CursorKind::Block,
        forall|a: CursorShape, b: CursorShape|
            (kind_of_shape(a) == kind_of_shape(b)) <==> ((a == CursorShape::BlinkingBar || a
                == CursorShape::SteadyBar) == (b == CursorShape::BlinkingBar || b
                == CursorShape::SteadyBar) && (a == CursorShape::BlinkingUnderline || a
                == CursorShape::SteadyUnderline) == (b == CursorShape::BlinkingUnderline || b
                == CursorShape::SteadyUnderline)),
{
}

/// A cursor that keeps its kind (or any cursor, with the shape change
/// preset disabled) never starts, replaces or cancels the shape change
/// effect, whether it moved or not: only the trail reacts to a move.
pub proof fn moves_leave_the_shape_change_effect<G>(
    s: CursorAnimState<G>,
    snap: CursorVisualSnapshot<G>,
    measure: CursorMeasure,
    now: u64,
    config: CursorAnimation,
)
    requires
        measure.valid,
        s.previous is Some,
        s.previous->0.layout_key == snap.layout_key,
        s.previous->0.kind == snap.kind || config.mode_change.preset
            == CursorModeChangePreset::Disabled,
    ensures
        s.after_update(CursorInput::Visible(snap), measure, now, config).mode_change
            == s.mode_change,
{
}

/// Hiding the cursor draws nothing but keeps the last visible position,
/// the running effects and the paint generation.
pub proof fn hidden_keeps_last_position<G>(
    s: CursorAnimState<G>,
    measure: CursorMeasure,
    now: u64,
    config: CursorAnimation,
)
    ensures
        ({
            let t = s.after_update(CursorInput::Hidden, measure, now, config);
            &&& !t.spec_is_animating()
            &&& t.previous == s.previous
            &&& t.motion == s.motion
            &&& t.mode_change == s.mode_change
            &&& t.painted == s.painted
        }),
{
}

/// A cursor that is hidden and shown again at the same place, with the
/// same shape and layout, resumes the effects that were running.
pub proof fn hide_and_show_resumes<G>(
    s: CursorAnimState<G>,
    snap: CursorVisualSnapshot<G>,
    hidden: CursorMeasure,
    now1: u64,
    now2: u64,
    config: CursorAnimation,
)
    requires
        s.previous == Some(snap),
    ensures
        ({
            let shown = CursorMeasure { valid: true, moved: false, far: false };
            let t = s.after_update(CursorInput::Hidden, hidden, now1, config).after_update(
                CursorInput::Visible(snap),
                shown,
                now2,
                config,
            );
            &&& t.motion == s.motion
            &&& t.mode_change == s.mode_change
            &&& t.spec_is_animating() == (s.motion is Some || s.mode_change is Some)
        }),
{
}

/// Losing eligibility (other pane, unfocused window, composing), or an
/// unusable cursor geometry, forgets everything: the next visible cursor
/// is a fresh start and animates nothing.
pub proof fn inactive_starts_afresh<G>(
    s: CursorAnimState<G>,
    measure: CursorMeasure,
    snap: CursorVisualSnapshot<G>,
    next: CursorMeasure,
    now1: u64,
    now2: u64,
    config: CursorAnimation,
)
    requires
        next.valid,
    ensures
        s.after_update(CursorInput::Inactive, measure, now1, config) == CursorAnimState::<G>::fresh(),
        !measure.valid ==> s.after_update(CursorInput::Visible(snap), measure, now1, config)
            == CursorAnimState::<G>::fresh(),
        !s.after_update(CursorInput::Inactive, measure, now1, config).after_update(
            CursorInput::Visible(snap),
            next,
            now2,
            config,
        ).spec_is_animating(),
{
}

/// A change of layout (resize, font, scrolling, alt screen, config
/// reload) snaps to the new cursor: no effect runs afterwards.
pub proof fn layout_change_snaps<G>(
    s: CursorAnimState<G>,
    snap: CursorVisualSnapshot<G>,
    measure: CursorMeasure,
    now: u64,
    config: CursorAnimation,
)
    requires
        measure.valid,
        s.previous is Some ==> s.previous->0.layout_key != snap.layout_key,
    ensures
        ({
            let t = s.after_update(CursorInput::Visible(snap), measure, now, config);
            &&& !t.spec_is_animating()
            &&& t.previous == Some(snap)
            &&& t.visible
        }),
{
}

/// A move that is too short for a trail cancels the running trail; a
/// long enough one starts a trail from the last visible position, which
/// replaces any running trail.
pub proof fn moves_start_or_cancel_the_trail<G>(
    s: CursorAnimState<G>,
    snap: CursorVisualSnapshot<G>,
    measure: CursorMeasure,
    now: u64,
    config: CursorAnimation,
)
    requires
        measure.valid,
        measure.moved,
        s.previous is Some,
        s.previous->0.layout_key == snap.layout_key,
    ensures
        ({
            let t = s.after_update(CursorInput::Visible(snap), measure, now, config);
            &&& !measure.far ==> t.motion is None
            &&& config.motion.preset == CursorMotionPreset::Disabled ==> t.motion is None
            &&& (measure.far && config.motion.preset != CursorMotionPreset::Disabled) ==> t.motion
                == Some(
                MotionAnim { from: s.previous->0.geometry, to: snap.geometry, start: now },
            )
        }),
{
}

/// A shape change in place starts the shape change effect (unless that
/// is disabled) and never a trail; a redraw of an unchanged cursor (for
/// example a blink) changes no effect.
pub proof fn shape_changes_in_place<G>(
    s: CursorAnimState<G>,
    snap: CursorVisualSnapshot<G>,
    measure: CursorMeasure,
    now: u64,
    config: CursorAnimation,
)
    requires
        measure.valid,
        !measure.moved,
        s.previous is Some,
        s.previous->0.layout_key == snap.layout_key,
    ensures
        ({
            let t = s.after_update(CursorInput::Visible(snap), measure, now, config);
            &&& t.motion == s.motion
            &&& (s.previous->0.kind != snap.kind && config.mode_change.preset
                != CursorModeChangePreset::Disabled) ==> t.mode_change == Some(
                ModeAnim { geometry: snap.geometry, start: now },
            )
            &&& (s.previous->0.kind == snap.kind || config.mode_change.preset
                == CursorModeChangePreset::Disabled) ==> t.mode_change == s.mode_change
        }),
{
}

/// With both presets disabled no effect is ever started.
pub proof fn disabled_presets_never_animate<G>(
    s: CursorAnimState<G>,
    input: CursorInput<G>,
    measure: CursorMeasure,
    now: u64,
    config: CursorAnimation,
)
    requires
        s.motion is None,
        s.mode_change is None,
        config.motion.preset == CursorMotionPreset::Disabled,
        config.mode_change.preset == CursorModeChangePreset::Disabled,
    ensures
        s.after_update(input, measure, now, config).motion is None,
        s.after_update(input, measure, now, config).mode_change is None,
        !s.after_update(input, measure, now, config).spec_is_animating(),
{
}

/// Painting a pane again in the same or the next generation keeps its
/// state; a pane that skipped a generation starts afresh.
pub proof fn skipped_paint_starts_afresh<G>(s: CursorAnimState<G>, generation: usize)
    requires
        s.painted is Some,
    ensures
        ({
            let last = s.painted->0;
            let t = s.after_mark_painted(generation);
            &&& t.painted == Some(generation)
            &&& (last == generation || last + 1 == generation) ==> t == CursorAnimState {
                painted: Some(generation),
                ..s
            }
            &&& (last != generation && last + 1 != generation) ==> t == CursorAnimState {
                painted: Some(generation),
                ..CursorAnimState::<G>::fresh()
            }
        }),
{
}


/// Once the effects have run their course no more frames are needed: a
/// motion effect that is over is forgotten, and with no shape change
/// effect running the pane stops animating.
pub proof fn finished_effects_stop_frames<G>(s: CursorAnimState<G>, now: u64, config: CursorAnimation)
    requires
        s.previous is Some,
        s.motion is None || s.motion_over(now, config),
        s.mode_change is None,
    ensures
        !s.after_render_motion(now, config).spec_is_animating(),
        s.after_render_motion(now, config).motion is None,
{
}

} // verus!
