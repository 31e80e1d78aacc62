//! Animation state and per-frame tick rules.
//!
//! A border owns one [`Animations`] record: the per-kind speeds resolved from
//! the configuration once at load time, and the mutable per-frame counters
//! (`fade_progress`, `fade_to_visible`, `spiral_angle`). The tick functions
//! consume an elapsed wall-clock interval in milliseconds and a fixed-point
//! speed, and derive the border's visual parameters: a rotation transform for
//! the spiral family, an opacity pair for the fade.

use vstd::prelude::*;

use crate::easing::cubic_bezier;
use crate::easing::ease_value;
use crate::easing::EASE_IN_OUT_X1;
use crate::easing::EASE_IN_OUT_X2;
use crate::easing::EASE_IN_OUT_Y1;
use crate::easing::EASE_IN_OUT_Y2;
use crate::AnimationError;
use crate::DEFAULT_SPEED;
use crate::FULL_TURN;
use crate::MAX_TICK_DELTA;
use crate::MILLIS_PER_SEC;
use crate::SCALE;

verus! {

/// No animation is active for the border this frame.
pub const ANIM_NONE: i32 = 0;

/// The fade animation is active for the border.
pub const ANIM_FADE: i32 = 1;

/// The closed set of animation kinds a border can be configured with.
#[derive(Clone, Copy, Debug, PartialEq, Eq, Hash, Structural)]
pub enum AnimationType {
    Spiral,
    ReverseSpiral,
    Fade,
}

/// One raw speed entry as it stands in the configuration file: a number, an
/// explicit null, or something that is not a number at all.
#[derive(Clone, Copy, Debug, PartialEq, Eq, Structural)]
pub enum RawSpeed {
    /// A numeric speed, already in fixed-point units per second.
    Number(i64),
    /// The kind is listed with a null speed.
    Null,
    /// The kind is listed with a non-numeric speed.
    Malformed,
}

/// The raw per-kind speed entries of one configuration section; `None` means
/// the kind is not listed at all.
#[derive(Clone, Copy, Debug, PartialEq, Eq)]
pub struct RawSpeedMap {
    pub spiral: Option<RawSpeed>,
    pub reverse_spiral: Option<RawSpeed>,
    pub fade: Option<RawSpeed>,
}

/// The resolved per-kind speeds of one configuration section: a kind maps to
/// a fixed-point speed exactly when it was listed.
#[derive(Clone, Copy, Debug, PartialEq, Eq)]
pub struct SpeedMap {
    pub spiral: Option<i64>,
    pub reverse_spiral: Option<i64>,
    pub fade: Option<i64>,
}

impl SpeedMap {
    /// The speed configured for one kind, if any.
    pub open spec fn spec_get(self, kind: AnimationType) -> Option<i64> {
        match kind {
            AnimationType::Spiral => self.spiral,
            AnimationType::ReverseSpiral => self.reverse_spiral,
            AnimationType::Fade => self.fade,
        }
    }

    /// Looks up the speed configured for one kind.
    pub fn get(&self, kind: AnimationType) -> (r: Option<i64>)
        ensures
            r == self.spec_get(kind),
    {
        match kind {
            AnimationType::Spiral => self.spiral,
            AnimationType::ReverseSpiral => self.reverse_spiral,
            AnimationType::Fade => self.fade,
        }
    }

    /// A section with no kinds configured.
    pub fn empty() -> (r: SpeedMap)
        ensures
            r == (SpeedMap { spiral: None, reverse_spiral: None, fade: None }),
    {
        SpeedMap { spiral: None, reverse_spiral: None, fade: None }
    }
}

/// What one listed entry classifies to: a number is its value, a null asks
/// for the default, and a non-numeric speed is a malformed-value error.
pub open spec fn speed_value_spec(raw: RawSpeed) -> Result<Option<i64>, AnimationError> {
    match raw {
        RawSpeed::Number(n) => Ok(Some(n)),
        RawSpeed::Null => Ok(None),
        RawSpeed::Malformed => Err(AnimationError::MalformedConfigValue),
    }
}

/// Classifies one listed speed entry, reporting a non-numeric speed as
/// [`AnimationError::MalformedConfigValue`]. The error is recoverable:
/// [`resolve_speed`] falls back to the default on it.
pub fn speed_value(raw: RawSpeed) -> (r: Result<Option<i64>, AnimationError>)
    ensures
        r == speed_value_spec(raw),
{
    match raw {
        RawSpeed::Number(n) => Ok(Some(n)),
        RawSpeed::Null => Ok(None),
        RawSpeed::Malformed => Err(AnimationError::MalformedConfigValue),
    }
}

/// What one raw speed entry resolves to: absent kinds stay absent, a number
/// is kept, and a null or malformed speed falls back to [`DEFAULT_SPEED`].
pub open spec fn resolve_speed_spec(raw: Option<RawSpeed>) -> Option<i64> {
    match raw {
        None => None,
        Some(RawSpeed::Number(n)) => Some(n),
        Some(RawSpeed::Null) => Some(DEFAULT_SPEED),
        Some(RawSpeed::Malformed) => Some(DEFAULT_SPEED),
    }
}

/// Resolves one raw speed entry, applying the default for null or malformed
/// speeds. This runs once at load time, not per frame.
pub fn resolve_speed(raw: Option<RawSpeed>) -> (r: Option<i64>)
    ensures
        r == resolve_speed_spec(raw),
{
    match raw {
        None => None,
        Some(entry) => match speed_value(entry) {
            Ok(Some(n)) => Some(n),
            Ok(None) => Some(DEFAULT_SPEED),
            Err(_) => Some(DEFAULT_SPEED),
        },
    }
}

/// Resolves a whole configuration section entry by entry.
pub fn resolve_speed_map(raw: &RawSpeedMap) -> (r: SpeedMap)
    ensures
        r.spiral == resolve_speed_spec(raw.spiral),
        r.reverse_spiral == resolve_speed_spec(raw.reverse_spiral),
        r.fade == resolve_speed_spec(raw.fade),
{
    SpeedMap {
        spiral: resolve_speed(raw.spiral),
        reverse_spiral: resolve_speed(raw.reverse_spiral),
        fade: resolve_speed(raw.fade),
    }
}

/// The frame rate the render driver is advised to run at when the
/// configuration names none.
pub fn default_fps() -> (r: i32)
    ensures
        r == 60,
{
    60
}

/// Per-border animation record: resolved speeds for the focused ("active")
/// and unfocused ("inactive") appearance, the set currently in effect, the
/// advisory frame rate, and the per-frame counters.
#[derive(Clone, Copy, Debug, PartialEq)]
pub struct Animations {
    pub active: SpeedMap,
    pub inactive: SpeedMap,
    pub current: SpeedMap,
    pub fps: i32,
    pub fade_progress: i64,
    pub fade_to_visible: bool,
    pub spiral_angle: i64,
}

impl Animations {
    /// The record's invariant: fade progress stays inside the unit interval.
    pub open spec fn wf(self) -> bool {
        0 <= self.fade_progress <= SCALE
    }

    /// Builds the record from the two raw configuration sections and the
    /// optional frame rate, with zeroed per-frame counters. Default
    /// resolution happens here, once, not per frame.
    pub fn from_config(active: &RawSpeedMap, inactive: &RawSpeedMap, fps: Option<i32>) -> (r:
        Animations)
        ensures
            r.wf(),
            r.active.spiral == resolve_speed_spec(active.spiral),
            r.active.reverse_spiral == resolve_speed_spec(active.reverse_spiral),
            r.active.fade == resolve_speed_spec(active.fade),
            r.inactive.spiral == resolve_speed_spec(inactive.spiral),
            r.inactive.reverse_spiral == resolve_speed_spec(inactive.reverse_spiral),
            r.inactive.fade == resolve_speed_spec(inactive.fade),
            r.current == (SpeedMap { spiral: None, reverse_spiral: None, fade: None }),
            r.fps == (match fps {
                Some(f) => f,
                None => 60,
            }),
            r.fade_progress == 0,
            !r.fade_to_visible,
            r.spiral_angle == 0,
    {
        let fps_value: i32 = match fps {
            Some(f) => f,
            None => default_fps(),
        };
        Animations {
            active: resolve_speed_map(active),
            inactive: resolve_speed_map(inactive),
            current: SpeedMap::empty(),
            fps: fps_value,
            fade_progress: 0,
            fade_to_visible: false,
            spiral_angle: 0,
        }
    }
}

impl Default for Animations {
    /// A record with nothing configured and zeroed counters.
    fn default() -> (r: Animations)
        ensures
            r.wf(),
            r == (Animations {
                active: SpeedMap { spiral: None, reverse_spiral: None, fade: None },
                inactive: SpeedMap { spiral: None, reverse_spiral: None, fade: None },
                current: SpeedMap { spiral: None, reverse_spiral: None, fade: None },
                fps: 60,
                fade_progress: 0,
                fade_to_visible: false,
                spiral_angle: 0,
            }),
    {
        Animations {
            active: SpeedMap::empty(),
            inactive: SpeedMap::empty(),
            current: SpeedMap::empty(),
            fps: 60,
            fade_progress: 0,
            fade_to_visible: false,
            spiral_angle: 0,
        }
    }
}

/// A window rectangle in screen coordinates.
#[derive(Clone, Copy, Debug, PartialEq, Eq, Structural)]
pub struct Rect {
    pub left: i32,
    pub top: i32,
    pub right: i32,
    pub bottom: i32,
}

impl Rect {
    /// Non-degenerate extents whose width and height fit the coordinate type.
    pub open spec fn wf(self) -> bool {
        &&& self.left <= self.right
        &&& self.top <= self.bottom
        &&& self.right - self.left <= i32::MAX
        &&& self.bottom - self.top <= i32::MAX
    }
}

/// Half the rectangle's width: the x of its geometric center in coordinates
/// relative to its own left edge.
pub open spec fn rect_center_x(r: Rect) -> int {
    (r.right - r.left) / 2
}

/// Half the rectangle's height, as [`rect_center_x`].
pub open spec fn rect_center_y(r: Rect) -> int {
    (r.bottom - r.top) / 2
}

/// A 2-D rotation about a center point, the transform the spiral ticks hand
/// to the rendering collaborator: the angle in fixed-point degrees and the
/// center in rectangle-relative coordinates.
#[derive(Clone, Copy, Debug, PartialEq, Eq, Structural)]
pub struct Rotation {
    pub angle: i64,
    pub center_x: i32,
    pub center_y: i32,
}

/// The render-facing state of one border that the animations read and write.
/// The rendering and window-system collaborators own everything else about
/// the border; these are the plain values the animation core works on.
#[derive(Clone, Copy, Debug, PartialEq)]
pub struct WindowBorder {
    pub animations: Animations,
    pub window_rect: Rect,
    pub transform: Rotation,
    pub active_opacity: i64,
    pub inactive_opacity: i64,
    pub is_active_window: bool,
    pub event_anim: i32,
}

impl WindowBorder {
    pub open spec fn wf(self) -> bool {
        &&& self.animations.wf()
        &&& self.window_rect.wf()
        &&& 0 <= self.active_opacity <= SCALE
        &&& 0 <= self.inactive_opacity <= SCALE
    }

    /// A freshly constructed border: zeroed animation counters, identity-like
    /// transform, fully transparent on both sides.
    pub fn new(animations: Animations, window_rect: Rect, is_active_window: bool) -> (r:
        WindowBorder)
        requires
            animations.wf(),
            window_rect.wf(),
        ensures
            r.wf(),
            r == (WindowBorder {
                animations,
                window_rect,
                transform: Rotation { angle: 0, center_x: 0, center_y: 0 },
                active_opacity: 0,
                inactive_opacity: 0,
                is_active_window,
                event_anim: ANIM_NONE,
            }),
    {
        WindowBorder {
            animations,
            window_rect,
            transform: Rotation { angle: 0, center_x: 0, center_y: 0 },
            active_opacity: 0,
            inactive_opacity: 0,
            is_active_window,
            event_anim: ANIM_NONE,
        }
    }
}

/// An angle folded into `[0, FULL_TURN)`, wrapping both overflow and
/// underflow.
pub open spec fn normalize_angle_spec(a: int) -> int {
    a % (FULL_TURN as int)
}

/// Law: normalization lands in `[0, FULL_TURN)` whatever the sign or
/// magnitude of the accumulated angle.
pub proof fn lemma_spiral_angle_normalized(a: int)
    ensures
        0 <= normalize_angle_spec(a) < FULL_TURN,
{
    vstd::arithmetic::div_mod::lemma_mod_division_less_than_divisor(a, FULL_TURN as int);
}

/// Folds a spiral angle into `[0, FULL_TURN)`. Runs at the top of each spiral
/// tick, not continuously: between ticks the stored angle may sit outside the
/// range.
pub fn normalize_angle(a: i64) -> (r: i64)
    ensures
        r == normalize_angle_spec(a as int),
        0 <= r < FULL_TURN,
{
    proof {
        lemma_spiral_angle_normalized(a as int);
    }
    let r = a.checked_rem_euclid(FULL_TURN);
    r.unwrap()
}

/// The angular advance of one tick: elapsed seconds times speed, in
/// fixed-point degrees, capped at [`MAX_TICK_DELTA`] so a frame hitch cannot
/// produce a discontinuous jump.
pub open spec fn tick_delta_spec(elapsed_ms: int, speed: int) -> int {
    let raw = elapsed_ms * speed / (MILLIS_PER_SEC as int);
    if raw > MAX_TICK_DELTA {
        MAX_TICK_DELTA as int
    } else {
        raw
    }
}

/// Computes the capped per-tick angular advance.
pub fn tick_delta(anim_elapsed_ms: u64, anim_speed: i64) -> (d: i64)
    requires
        anim_speed >= 0,
    ensures
        d == tick_delta_spec(anim_elapsed_ms as int, anim_speed as int),
        0 <= d <= MAX_TICK_DELTA,
{
    proof {
        assert((anim_elapsed_ms as int) * (anim_speed as int) <= u128::MAX) by (nonlinear_arith)
            requires
                0 <= anim_elapsed_ms <= u64::MAX,
                0 <= anim_speed <= i64::MAX,
        ;
        assert((anim_elapsed_ms as int) * (anim_speed as int) >= 0) by (nonlinear_arith)
            requires
                anim_elapsed_ms >= 0,
                anim_speed >= 0,
        ;
        vstd::arithmetic::div_mod::lemma_div_pos_is_pos((anim_elapsed_ms as int) * (
        anim_speed as int), MILLIS_PER_SEC as int);
    }
    let prod: u128 = (anim_elapsed_ms as u128) * (anim_speed as u128);
    let raw: u128 = prod / (MILLIS_PER_SEC as u128);
    if raw > (MAX_TICK_DELTA as u128) {
        MAX_TICK_DELTA
    } else {
        raw as i64
    }
}

/// The spiral angle after one tick: the stored angle normalized at the top of
/// the tick, advanced by the capped delta.
pub open spec fn spiral_step_spec(angle: int, elapsed_ms: int, speed: int) -> int {
    normalize_angle_spec(angle) + tick_delta_spec(elapsed_ms, speed)
}

/// The reverse-spiral angle after one tick: as [`spiral_step_spec`], with the
/// delta applied in the negative direction.
pub open spec fn reverse_spiral_step_spec(angle: int, elapsed_ms: int, speed: int) -> int {
    normalize_angle_spec(angle) - tick_delta_spec(elapsed_ms, speed)
}

/// One spiral tick: normalizes the stored angle, advances it by the capped
/// delta, and derives the rotation transform about the rectangle's center.
/// Spiral animations have no terminal state.
pub fn animate_spiral(border: &mut WindowBorder, anim_elapsed_ms: u64, anim_speed: i64)
    requires
        old(border).wf(),
        anim_speed >= 0,
    ensures
        final(border).wf(),
        *final(border) == (WindowBorder {
            animations: Animations {
                spiral_angle: spiral_step_spec(old(border).animations.spiral_angle as int,
                    anim_elapsed_ms as int, anim_speed as int) as i64,
                ..old(border).animations
            },
            transform: Rotation {
                angle: spiral_step_spec(old(border).animations.spiral_angle as int,
                    anim_elapsed_ms as int, anim_speed as int) as i64,
                center_x: rect_center_x(old(border).window_rect) as i32,
                center_y: rect_center_y(old(border).window_rect) as i32,
            },
            ..*old(border)
        }),
        0 <= final(border).animations.spiral_angle < FULL_TURN + MAX_TICK_DELTA,
{
    let angle = normalize_angle(border.animations.spiral_angle);
    let delta = tick_delta(anim_elapsed_ms, anim_speed);
    border.animations.spiral_angle = angle + delta;

    let w: i32 = border.window_rect.right - border.window_rect.left;
    let h: i32 = border.window_rect.bottom - border.window_rect.top;
    let cx: i32 = ((w as u32) / 2) as i32;
    let cy: i32 = ((h as u32) / 2) as i32;
    border.transform = Rotation { angle: border.animations.spiral_angle, center_x: cx, center_y: cy };
}

/// One reverse-spiral tick: as [`animate_spiral`], rotating the other way.
pub fn animate_reverse_spiral(border: &mut WindowBorder, anim_elapsed_ms: u64, anim_speed: i64)
    requires
        old(border).wf(),
        anim_speed >= 0,
    ensures
        final(border).wf(),
        *final(border) == (WindowBorder {
            animations: Animations {
                spiral_angle: reverse_spiral_step_spec(old(border).animations.spiral_angle as int,
                    anim_elapsed_ms as int, anim_speed as int) as i64,
                ..old(border).animations
            },
            transform: Rotation {
                angle: reverse_spiral_step_spec(old(border).animations.spiral_angle as int,
                    anim_elapsed_ms as int, anim_speed as int) as i64,
                center_x: rect_center_x(old(border).window_rect) as i32,
                center_y: rect_center_y(old(border).window_rect) as i32,
            },
            ..*old(border)
        }),
        0 - MAX_TICK_DELTA <= final(border).animations.spiral_angle < FULL_TURN,
{
    let angle = normalize_angle(border.animations.spiral_angle);
    let delta = tick_delta(anim_elapsed_ms, anim_speed);
    border.animations.spiral_angle = angle - delta;

    let w: i32 = border.window_rect.right - border.window_rect.left;
    let h: i32 = border.window_rect.bottom - border.window_rect.top;
    let cx: i32 = ((w as u32) / 2) as i32;
    let cy: i32 = ((h as u32) / 2) as i32;
    border.transform = Rotation { angle: border.animations.spiral_angle, center_x: cx, center_y: cy };
}

/// The fade-relevant part of a border, as mathematical integers: the model
/// the fade tick is specified over.
pub struct FadeView {
    pub progress: int,
    pub fade_to_visible: bool,
    pub active: int,
    pub inactive: int,
    pub event_anim: int,
}

impl WindowBorder {
    /// The fade-relevant fields of this border.
    pub open spec fn fade_view(self) -> FadeView {
        FadeView {
            progress: self.animations.fade_progress as int,
            fade_to_visible: self.animations.fade_to_visible,
            active: self.active_opacity as int,
            inactive: self.inactive_opacity as int,
            event_anim: self.event_anim as int,
        }
    }
}

/// The fade's direction of travel: toward fully active colors while the
/// window is focused, away from them otherwise.
pub open spec fn fade_direction_spec(focused: bool) -> int {
    if focused {
        1
    } else {
        -1
    }
}

/// First-appearance detection: when both sides are fully transparent the
/// window was just created or unminimized, so the tick is an initial reveal,
/// not a cross-fade. Progress is seeded at the far end of the travel and
/// `fade_to_visible` is raised; any other state is left untouched.
pub open spec fn fade_seed_spec(v: FadeView, focused: bool) -> FadeView {
    if v.active == 0 && v.inactive == 0 {
        FadeView {
            progress: if focused {
                0
            } else {
                SCALE as int
            },
            fade_to_visible: true,
            ..v
        }
    } else {
        v
    }
}

/// One whole fade tick over the model: seed on first appearance, advance
/// progress by elapsed seconds times speed in the focus direction, and
/// either finish — progress reached a bound: clamp it, pin the opacities to
/// their fully resolved pair, clear `fade_to_visible`, and deactivate the
/// animation — or keep fading, with the opacities derived from the eased
/// progress: one side pinned during an initial reveal, a symmetric
/// cross-fade otherwise.
pub open spec fn fade_tick_spec(v: FadeView, focused: bool, elapsed_ms: int, speed: int)
    -> FadeView {
    let seeded = fade_seed_spec(v, focused);
    let p = seeded.progress + (elapsed_ms * speed / (MILLIS_PER_SEC as int)) * fade_direction_spec(
        focused);
    if p <= 0 || p >= SCALE {
        let fin: int = if p <= 0 {
            0
        } else {
            SCALE as int
        };
        FadeView {
            progress: fin,
            fade_to_visible: false,
            active: fin,
            inactive: SCALE - fin,
            event_anim: ANIM_NONE as int,
        }
    } else {
        let y = ease_value(EASE_IN_OUT_X1 as int, EASE_IN_OUT_Y1 as int, EASE_IN_OUT_X2 as int,
            EASE_IN_OUT_Y2 as int, p);
        let active = if seeded.fade_to_visible {
            if focused {
                y
            } else {
                0
            }
        } else {
            y
        };
        let inactive = if seeded.fade_to_visible {
            if focused {
                0
            } else {
                SCALE - y
            }
        } else {
            SCALE - y
        };
        FadeView {
            progress: p,
            fade_to_visible: seeded.fade_to_visible,
            active,
            inactive,
            event_anim: v.event_anim as int,
        }
    }
}

/// One fade tick: mutates the border's fade progress, flags and opacity pair
/// exactly as [`fade_tick_spec`] says, and touches nothing else.
pub fn animate_fade(border: &mut WindowBorder, anim_elapsed_ms: u64, anim_speed: i64)
    requires
        old(border).wf(),
        anim_speed >= 0,
    ensures
        final(border).wf(),
        final(border).fade_view() == fade_tick_spec(old(border).fade_view(),
            old(border).is_active_window, anim_elapsed_ms as int, anim_speed as int),
        final(border).animations.active == old(border).animations.active,
        final(border).animations.inactive == old(border).animations.inactive,
        final(border).animations.current == old(border).animations.current,
        final(border).animations.fps == old(border).animations.fps,
        final(border).animations.spiral_angle == old(border).animations.spiral_angle,
        final(border).window_rect == old(border).window_rect,
        final(border).transform == old(border).transform,
        final(border).is_active_window == old(border).is_active_window,
{
    if border.active_opacity == 0 && border.inactive_opacity == 0 {
        border.animations.fade_progress = if border.is_active_window {
            0
        } else {
            SCALE
        };
        border.animations.fade_to_visible = true;
    }

    proof {
        assert((anim_elapsed_ms as int) * (anim_speed as int) <= u128::MAX) by (nonlinear_arith)
            requires
                0 <= anim_elapsed_ms <= u64::MAX,
                0 <= anim_speed <= i64::MAX,
        ;
        assert((anim_elapsed_ms as int) * (anim_speed as int) >= 0) by (nonlinear_arith)
            requires
                anim_elapsed_ms >= 0,
                anim_speed >= 0,
        ;
        vstd::arithmetic::div_mod::lemma_div_pos_is_pos((anim_elapsed_ms as int) * (
        anim_speed as int), MILLIS_PER_SEC as int);
        vstd::arithmetic::div_mod::lemma_div_is_ordered((anim_elapsed_ms as int) * (
        anim_speed as int), u128::MAX as int, MILLIS_PER_SEC as int);
    }
    let prod: u128 = (anim_elapsed_ms as u128) * (anim_speed as u128);
    let raw: u128 = prod / (MILLIS_PER_SEC as u128);
    let delta: i128 = if raw > (i64::MAX as u128) {
        i64::MAX as i128
    } else {
        raw as i128
    };
    let p: i128 = if border.is_active_window {
        (border.animations.fade_progress as i128) + delta
    } else {
        (border.animations.fade_progress as i128) - delta
    };
    proof {
        let true_p = fade_seed_spec(old(border).fade_view(), old(border).is_active_window).progress
            + ((anim_elapsed_ms as int) * (anim_speed as int) / (MILLIS_PER_SEC as int))
            * fade_direction_spec(old(border).is_active_window);
        if raw > i64::MAX as u128 {
            assert(p <= 0 || p >= SCALE);
            assert(true_p <= 0 || true_p >= SCALE);
            assert(p <= 0 <==> true_p <= 0);
        } else {
            assert(p == true_p);
        }
    }

    if p <= 0 || p >= (SCALE as i128) {
        let fin: i64 = if p <= 0 {
            0
        } else {
            SCALE
        };
        border.active_opacity = fin;
        border.inactive_opacity = SCALE - fin;
        border.animations.fade_progress = fin;
        border.animations.fade_to_visible = false;
        border.event_anim = ANIM_NONE;
        return ;
    }

    let progress: i64 = p as i64;
    border.animations.fade_progress = progress;

    let curve = match cubic_bezier(EASE_IN_OUT_X1, EASE_IN_OUT_Y1, EASE_IN_OUT_X2, EASE_IN_OUT_Y2) {
        Ok(c) => c,
        Err(_) => {
            // The canonical control points always form a valid curve, so the
            // degraded freeze-one-frame path is never taken for them.
            return ;
        },
    };
    let y = curve.evaluate(progress);

    if border.animations.fade_to_visible {
        if border.is_active_window {
            border.active_opacity = y;
            border.inactive_opacity = 0;
        } else {
            border.active_opacity = 0;
            border.inactive_opacity = SCALE - y;
        }
    } else {
        border.active_opacity = y;
        border.inactive_opacity = SCALE - y;
    }
}

/// Law: at every tick that does not end in an initial reveal — whenever
/// `fade_to_visible` comes out false — the opacity pair is an exact
/// cross-fade: active and inactive opacity sum to one.
pub proof fn lemma_fade_opacity_invariant(v: FadeView, focused: bool, elapsed_ms: int, speed: int)
    ensures
        ({
            let r = fade_tick_spec(v, focused, elapsed_ms, speed);
            !r.fade_to_visible ==> r.active + r.inactive == SCALE
        }),
{
}

/// Law: once the fade has clamped to a bound and pinned the opacities,
/// further ticks in the same direction leave progress at that bound and the
/// animation deactivated, whatever the elapsed time. (The one state left
/// out is both opacities zero, which by design re-seeds an initial reveal.)
pub proof fn lemma_fade_idempotent_at_bounds(v: FadeView, focused: bool, elapsed_ms: int,
    speed: int)
    requires
        elapsed_ms >= 0,
        speed >= 0,
        !(v.active == 0 && v.inactive == 0),
        (v.progress == SCALE && focused) || (v.progress == 0 && !focused),
    ensures
        fade_tick_spec(v, focused, elapsed_ms, speed).progress == v.progress,
        fade_tick_spec(v, focused, elapsed_ms, speed).event_anim == ANIM_NONE,
        fade_tick_spec(v, focused, elapsed_ms, speed).active == v.progress,
        fade_tick_spec(v, focused, elapsed_ms, speed).inactive == SCALE - v.progress,
        !fade_tick_spec(v, focused, elapsed_ms, speed).fade_to_visible,
{
    assert(elapsed_ms * speed >= 0) by (nonlinear_arith)
        requires
            elapsed_ms >= 0,
            speed >= 0,
    ;
    vstd::arithmetic::div_mod::lemma_div_pos_is_pos(elapsed_ms * speed, MILLIS_PER_SEC as int);
}

} // verus!
