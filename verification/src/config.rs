//! Configuration for the native cursor animation effects: the easing
//! curves, the presets, the per-preset defaults and the validation of
//! the integer settings.
//!
//! Only the settings that the animation logic decides on are held here
//! (presets, durations, easing curves, the frame rate, the on switch).
//! The geometric settings are floating point numbers and are kept by the
//! application next to this configuration.
use crate::text::{decimal_text, push_decimal};
use vstd::prelude::*;

verus! {

/// Easing curves available to the cursor animations.
#[derive(Debug, Clone, Copy, PartialEq, Eq, Structural)]
pub enum CursorEasing {
    Linear,
    Ease,
    EaseIn,
    EaseOut,
    EaseInOut,
    EaseOutCubic,
    EaseOutCirc,
    EaseOutBack,
    EaseOutElastic,
}

/// The effect drawn when the cursor jumps.
#[derive(Debug, Clone, Copy, PartialEq, Eq, Structural)]
pub enum CursorMotionPreset {
    /// No motion effect (spelled `None` in the settings).
    Disabled,
    Tail,
    Warp,
    Sweep,
}

impl Default for CursorMotionPreset {
    fn default() -> (r: Self)
        ensures
            r == CursorMotionPreset::Tail,
    {
        CursorMotionPreset::Tail
    }
}

/// The effect drawn when the cursor changes shape.
#[derive(Debug, Clone, Copy, PartialEq, Eq, Structural)]
pub enum CursorModeChangePreset {
    /// No shape change effect (spelled `None` in the settings).
    Disabled,
    Ripple,
    SonicBoom,
    RectangleBoom,
    RectangleRipple,
}

impl Default for CursorModeChangePreset {
    fn default() -> (r: Self)
        ensures
            r == CursorModeChangePreset::Disabled,
    {
        CursorModeChangePreset::Disabled
    }
}

/// Top level cursor animation settings.
#[derive(Debug, Clone, Copy, PartialEq, Eq, Structural)]
pub struct CursorAnimation {
    pub enabled: bool,
    /// Frame rate used while a cursor effect is running.
    /// None inherits `animation_fps`.
    pub fps: Option<u16>,
    pub motion: CursorMotion,
    pub mode_change: CursorModeChange,
}

/// Settings of the motion effect.
#[derive(Debug, Clone, Copy, PartialEq, Eq, Structural)]
pub struct CursorMotion {
    pub preset: CursorMotionPreset,
    /// None selects the preset default
    pub duration_ms: Option<u64>,
    /// None selects the preset default
    pub easing: Option<CursorEasing>,
}

/// Settings of the shape change effect.
#[derive(Debug, Clone, Copy, PartialEq, Eq, Structural)]
pub struct CursorModeChange {
    pub preset: CursorModeChangePreset,
    pub duration_ms: Option<u64>,
    pub easing: Option<CursorEasing>,
}

impl Default for CursorMotion {
    fn default() -> (r: Self)
        ensures
            r == (CursorMotion {
                preset: CursorMotionPreset::Tail,
                duration_ms: None,
                easing: None,
            }),
    {
        CursorMotion { preset: CursorMotionPreset::Tail, duration_ms: None, easing: None }
    }
}

impl Default for CursorModeChange {
    fn default() -> (r: Self)
        ensures
            r == (CursorModeChange {
                preset: CursorModeChangePreset::Disabled,
                duration_ms: None,
                easing: None,
            }),
    {
        CursorModeChange { preset: CursorModeChangePreset::Disabled, duration_ms: None, easing: None }
    }
}

/// The configuration that an empty settings table gives.
pub open spec fn default_cursor_animation() -> CursorAnimation {
    CursorAnimation {
        enabled: false,
        fps: None,
        motion: CursorMotion {
            preset: CursorMotionPreset::Tail,
            duration_ms: None,
            easing: None,
        },
        mode_change: CursorModeChange {
            preset: CursorModeChangePreset::Disabled,
            duration_ms: None,
            easing: None,
        },
    }
}

impl Default for CursorAnimation {
    fn default() -> (r: Self)
        ensures
            r == default_cursor_animation(),
    {
        CursorAnimation {
            enabled: false,
            fps: None,
            motion: CursorMotion::default(),
            mode_change: CursorModeChange::default(),
        }
    }
}

/// The duration that a motion preset uses when none is configured.
pub open spec fn motion_preset_duration_ms(preset: CursorMotionPreset) -> u64 {
    match preset {
        CursorMotionPreset::Tail => 90,
        _ => 200,
    }
}

/// The easing curve that a motion preset uses when none is configured.
pub open spec fn motion_preset_easing(preset: CursorMotionPreset) -> CursorEasing {
    match preset {
        CursorMotionPreset::Sweep => CursorEasing::EaseOutCubic,
        _ => CursorEasing::EaseOutCirc,
    }
}

impl CursorMotion {
    pub open spec fn spec_effective_duration_ms(&self) -> u64 {
        match self.duration_ms {
            Some(ms) => ms,
            None => motion_preset_duration_ms(self.preset),
        }
    }

    pub open spec fn spec_effective_easing(&self) -> CursorEasing {
        match self.easing {
            Some(e) => e,
            None => motion_preset_easing(self.preset),
        }
    }

    /// The configured duration, or the preset's default.
    #[verifier::when_used_as_spec(spec_effective_duration_ms)]
    pub fn effective_duration_ms(&self) -> (r: u64)
        ensures
            r == self.spec_effective_duration_ms(),
    {
        match self.duration_ms {
            Some(ms) => ms,
            None => match self.preset {
                CursorMotionPreset::Tail => 90,
                _ => 200,
            },
        }
    }

    /// The configured easing curve, or the preset's default.
    #[verifier::when_used_as_spec(spec_effective_easing)]
    pub fn effective_easing(&self) -> (r: CursorEasing)
        ensures
            r == self.spec_effective_easing(),
    {
        match self.easing {
            Some(e) => e,
            None => match self.preset {
                CursorMotionPreset::Sweep => CursorEasing::EaseOutCubic,
                _ => CursorEasing::EaseOutCirc,
            },
        }
    }
}

impl CursorModeChange {
    pub open spec fn spec_effective_duration_ms(&self) -> u64 {
        match self.duration_ms {
            Some(ms) => ms,
            None => 150,
        }
    }

    pub open spec fn spec_effective_easing(&self) -> CursorEasing {
        match self.easing {
            Some(e) => e,
            None => CursorEasing::EaseOutCirc,
        }
    }

    /// The configured duration, 150ms when none is configured.
    #[verifier::when_used_as_spec(spec_effective_duration_ms)]
    pub fn effective_duration_ms(&self) -> (r: u64)
        ensures
            r == self.spec_effective_duration_ms(),
    {
        match self.duration_ms {
            Some(ms) => ms,
            None => 150,
        }
    }

    /// The configured easing curve, EaseOutCirc when none is configured.
    #[verifier::when_used_as_spec(spec_effective_easing)]
    pub fn effective_easing(&self) -> (r: CursorEasing)
        ensures
            r == self.spec_effective_easing(),
    {
        match self.easing {
            Some(e) => e,
            None => CursorEasing::EaseOutCirc,
        }
    }
}

/// The text of the error for an out of range frame rate.
pub open spec fn fps_error_text(fps: u16) -> Seq<char> {
    "fps must be in the range 1-480, got "@ + decimal_text(fps as nat)
}

/// True when a configured frame rate is accepted.
pub open spec fn fps_is_valid(value: Option<u16>) -> bool {
    match value {
        Some(fps) => 1 <= fps <= 480,
        None => true,
    }
}

/// The text of the error for a zero duration.
pub open spec fn duration_zero_text() -> Seq<char> {
    "duration_ms must be greater than zero"@
}

/// The text of the error for a too long duration.
pub open spec fn duration_too_long_text(ms: u64) -> Seq<char> {
    "duration_ms must be at most 10000, got "@ + decimal_text(ms as nat)
}

/// True when a configured duration is accepted.
pub open spec fn duration_is_valid(value: Option<u64>) -> bool {
    match value {
        Some(ms) => 1 <= ms <= 10_000,
        None => true,
    }
}

/// Accepts no frame rate, or one in the range 1-480.
pub fn validate_fps(value: &Option<u16>) -> (r: Result<(), String>)
    ensures
        r is Ok <==> fps_is_valid(*value),
        r matches Err(e) ==> (*value matches Some(fps) && e@ == fps_error_text(fps)),
{
    match value {
        Some(fps) if !(1 <= *fps && *fps <= 480) => {
            let mut msg = String::from_str("fps must be in the range 1-480, got ");
            proof {
                reveal_strlit("fps must be in the range 1-480, got ");
            }
            push_decimal(&mut msg, *fps as u64);
            Err(msg)
        },
        _ => Ok(()),
    }
}

/// Accepts no duration, or one of 1 to 10000 milliseconds.
pub fn validate_duration(value: &Option<u64>) -> (r: Result<(), String>)
    ensures
        r is Ok <==> duration_is_valid(*value),
        r matches Err(e) ==> (*value matches Some(ms) && (if ms == 0 {
            e@ == duration_zero_text()
        } else {
            e@ == duration_too_long_text(ms)
        })),
{
    match value {
        Some(0) => {
            proof {
                reveal_strlit("duration_ms must be greater than zero");
            }
            Err(String::from_str("duration_ms must be greater than zero"))
        },
        Some(ms) if *ms > 10_000 => {
            let mut msg = String::from_str("duration_ms must be at most 10000, got ");
            proof {
                reveal_strlit("duration_ms must be at most 10000, got ");
            }
            push_decimal(&mut msg, *ms);
            Err(msg)
        },
        _ => Ok(()),
    }
}

impl CursorAnimation {
    /// The frame rate used while an effect runs: the configured one, or
    /// `animation_fps` when none is configured, and at least 1.
    pub fn frame_rate(&self, animation_fps: u8) -> (r: u16)
        ensures
            r == (match self.fps {
                Some(f) => if f >= 1 { f } else { 1 },
                None => if animation_fps >= 1 { animation_fps as u16 } else { 1 },
            }),
    {
        let fps = match self.fps {
            Some(f) => f,
            None => animation_fps as u16,
        };
        if fps >= 1 {
            fps
        } else {
            1
        }
    }

    /// True when every integer setting is in its accepted range.
    pub open spec fn is_valid(&self) -> bool {
        &&& fps_is_valid(self.fps)
        &&& duration_is_valid(self.motion.duration_ms)
        &&& duration_is_valid(self.mode_change.duration_ms)
    }
}

/// A configured duration or easing curve wins, whatever the preset; only
/// when none is configured does the preset's default apply: 90 ms for
/// Tail and 200 ms for the other motion presets, 150 ms for every shape
/// change preset, EaseOutCubic for Sweep and EaseOutCirc otherwise.
pub proof fn configured_settings_win(m: CursorMotion, mc: CursorModeChange)
    ensures
        m.duration_ms matches Some(ms) ==> m.effective_duration_ms() == ms,
        m.duration_ms is None && m.preset == CursorMotionPreset::Tail ==> m.effective_duration_ms()
            == 90,
        m.duration_ms is None && m.preset != CursorMotionPreset::Tail ==> m.effective_duration_ms()
            == 200,
        m.easing matches Some(e) ==> m.effective_easing() == e,
        m.easing is None && m.preset == CursorMotionPreset::Sweep ==> m.effective_easing()
            == CursorEasing::EaseOutCubic,
        m.easing is None && m.preset != CursorMotionPreset::Sweep ==> m.effective_easing()
            == CursorEasing::EaseOutCirc,
        mc.duration_ms matches Some(ms) ==> mc.effective_duration_ms() == ms,
        mc.duration_ms is None ==> mc.effective_duration_ms() == 150,
        mc.easing matches Some(e) ==> mc.effective_easing() == e,
        mc.easing is None ==> mc.effective_easing() == CursorEasing::EaseOutCirc,
{
}

/// The defaults pass validation: an empty configuration is accepted.
pub proof fn default_is_valid()
    ensures
        default_cursor_animation().is_valid(),
        default_cursor_animation().motion.effective_duration_ms() == 90,
        default_cursor_animation().motion.effective_easing() == CursorEasing::EaseOutCirc,
        default_cursor_animation().mode_change.effective_duration_ms() == 150,
        default_cursor_animation().mode_change.effective_easing() == CursorEasing::EaseOutCirc,
{
}

/// The effective duration of a validated motion or mode change setting
/// lies in 1..=10000 milliseconds, whatever the preset.
pub proof fn effective_durations_in_range(c: CursorAnimation)
    requires
        c.is_valid(),
    ensures
        1 <= c.motion.effective_duration_ms() <= 10_000,
        1 <= c.mode_change.effective_duration_ms() <= 10_000,
{
}

} // verus!
