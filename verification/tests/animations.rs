use border_anim::animations::animate_fade;
use border_anim::animations::animate_reverse_spiral;
use border_anim::animations::animate_spiral;
use border_anim::animations::default_fps;
use border_anim::animations::normalize_angle;
use border_anim::animations::Animations;
use border_anim::animations::Rect;
use border_anim::animations::WindowBorder;
use border_anim::animations::ANIM_FADE;
use border_anim::animations::ANIM_NONE;
use border_anim::SCALE;

fn rect() -> Rect {
    Rect { left: 0, top: 0, right: 200, bottom: 100 }
}

fn border(is_active: bool) -> WindowBorder {
    WindowBorder::new(Animations::default(), rect(), is_active)
}

#[test]
fn default_fps_is_sixty() {
    assert_eq!(default_fps(), 60);
}

#[test]
fn new_border_is_zeroed() {
    let b = border(true);
    assert_eq!(b.animations.fade_progress, 0);
    assert!(!b.animations.fade_to_visible);
    assert_eq!(b.animations.spiral_angle, 0);
    assert_eq!(b.active_opacity, 0);
    assert_eq!(b.inactive_opacity, 0);
    assert_eq!(b.event_anim, ANIM_NONE);
}

#[test]
fn normalize_angle_wraps_both_directions() {
    assert_eq!(normalize_angle(0), 0);
    assert_eq!(normalize_angle(360_000), 0);
    assert_eq!(normalize_angle(361_000), 1_000);
    assert_eq!(normalize_angle(-1_000), 359_000);
    assert_eq!(normalize_angle(-1), 359_999);
    assert_eq!(normalize_angle(i64::MAX), 55_807);
    assert_eq!(normalize_angle(i64::MIN), 304_192);
}

#[test]
fn spiral_wraps_past_full_turn() {
    // angle 359.0 deg, elapsed 0.1 s, speed 20 deg/s: raw delta 2.0, capped
    // delta 2.0, angle 361.0 before normalization, 1.0 after.
    let mut b = border(true);
    b.animations.spiral_angle = 359_000;
    animate_spiral(&mut b, 100, 20_000);
    assert_eq!(b.animations.spiral_angle, 361_000);
    assert_eq!(normalize_angle(b.animations.spiral_angle), 1_000);
    assert_eq!(b.transform.angle, 361_000);
    assert_eq!(b.transform.center_x, 100);
    assert_eq!(b.transform.center_y, 50);
}

#[test]
fn reverse_spiral_wraps_below_zero() {
    // angle 1.0 deg, elapsed 0.1 s, speed 20 deg/s: angle becomes -1.0,
    // normalized 359.0.
    let mut b = border(true);
    b.animations.spiral_angle = 1_000;
    animate_reverse_spiral(&mut b, 100, 20_000);
    assert_eq!(b.animations.spiral_angle, -1_000);
    assert_eq!(normalize_angle(b.animations.spiral_angle), 359_000);
    assert_eq!(b.transform.angle, -1_000);
}

#[test]
fn spiral_delta_is_capped_on_frame_hitch() {
    // 100 s at 20 deg/s would be 2000 deg; one tick advances 359 at most.
    let mut b = border(true);
    animate_spiral(&mut b, 100_000, 20_000);
    assert_eq!(b.animations.spiral_angle, 359_000);

    let mut r = border(true);
    animate_reverse_spiral(&mut r, 100_000, 20_000);
    assert_eq!(r.animations.spiral_angle, -359_000);
    assert_eq!(normalize_angle(r.animations.spiral_angle), 1_000);
}

#[test]
fn spiral_normalizes_at_top_of_next_tick() {
    let mut b = border(true);
    b.animations.spiral_angle = 359_000;
    animate_spiral(&mut b, 100, 20_000);
    assert_eq!(b.animations.spiral_angle, 361_000);
    // The next tick folds the stored angle before advancing.
    animate_spiral(&mut b, 100, 20_000);
    assert_eq!(b.animations.spiral_angle, 3_000);
}

#[test]
fn spiral_leaves_fade_state_alone() {
    let mut b = border(true);
    b.animations.fade_progress = 400;
    b.active_opacity = 300;
    b.inactive_opacity = 700;
    animate_spiral(&mut b, 16, 100_000);
    assert_eq!(b.animations.fade_progress, 400);
    assert_eq!(b.active_opacity, 300);
    assert_eq!(b.inactive_opacity, 700);
}

#[test]
fn fade_first_appearance_completes_exactly() {
    // Focused window fading in from both-opacities-zero: the tick seeds
    // progress 0.0 and fade_to_visible, and 0.5 s at speed 2.0 lands on 1.0
    // exactly: the fade completes and deactivates.
    let mut b = border(true);
    b.event_anim = ANIM_FADE;
    animate_fade(&mut b, 500, 2_000);
    assert_eq!(b.animations.fade_progress, SCALE);
    assert_eq!(b.active_opacity, SCALE);
    assert_eq!(b.inactive_opacity, 0);
    assert!(!b.animations.fade_to_visible);
    assert_eq!(b.event_anim, ANIM_NONE);
}

#[test]
fn fade_first_appearance_seeds_and_progresses() {
    let mut b = border(true);
    b.event_anim = ANIM_FADE;
    animate_fade(&mut b, 100, 2_000);
    assert_eq!(b.animations.fade_progress, 200);
    assert!(b.animations.fade_to_visible);
    // Only the active side animates in; the eased value of 0.2 is 0.081.
    assert_eq!(b.active_opacity, 81);
    assert_eq!(b.inactive_opacity, 0);
    assert_eq!(b.event_anim, ANIM_FADE);
}

#[test]
fn fade_first_appearance_unfocused_seeds_high() {
    let mut b = border(false);
    b.event_anim = ANIM_FADE;
    animate_fade(&mut b, 150, 2_000);
    // Seeded at 1.0, moving down by 0.3; only the inactive side animates in.
    assert_eq!(b.animations.fade_progress, 700);
    assert!(b.animations.fade_to_visible);
    assert_eq!(b.active_opacity, 0);
    assert_eq!(b.inactive_opacity, SCALE - 812);
}

#[test]
fn fade_cross_fade_opacities_sum_to_one() {
    let mut b = border(true);
    b.event_anim = ANIM_FADE;
    b.animations.fade_progress = 300;
    b.active_opacity = 186;
    b.inactive_opacity = 814;
    animate_fade(&mut b, 100, 2_000);
    assert_eq!(b.animations.fade_progress, 500);
    assert!(!b.animations.fade_to_visible);
    assert_eq!(b.active_opacity, 498);
    assert_eq!(b.inactive_opacity, SCALE - 498);
    assert_eq!(b.active_opacity + b.inactive_opacity, SCALE);
}

#[test]
fn fade_focus_flap_continues_from_current_progress() {
    // Rapid focus flap mid-fade: progress 0.3, direction flips to -1; the
    // fade continues decreasing from 0.3 rather than restarting.
    let mut b = border(false);
    b.event_anim = ANIM_FADE;
    b.animations.fade_progress = 300;
    b.active_opacity = 186;
    b.inactive_opacity = 814;
    animate_fade(&mut b, 50, 2_000);
    assert_eq!(b.animations.fade_progress, 200);
    assert_eq!(b.active_opacity, 81);
    assert_eq!(b.inactive_opacity, SCALE - 81);
}

#[test]
fn fade_idempotent_at_upper_bound() {
    let mut b = border(true);
    b.animations.fade_progress = SCALE;
    b.active_opacity = SCALE;
    b.inactive_opacity = 0;
    b.event_anim = ANIM_NONE;
    animate_fade(&mut b, 100, 2_000);
    assert_eq!(b.animations.fade_progress, SCALE);
    assert_eq!(b.active_opacity, SCALE);
    assert_eq!(b.inactive_opacity, 0);
    assert_eq!(b.event_anim, ANIM_NONE);
    // A second tick with the same direction moves nothing either.
    animate_fade(&mut b, 10_000, 2_000);
    assert_eq!(b.animations.fade_progress, SCALE);
}

#[test]
fn fade_idempotent_at_lower_bound() {
    let mut b = border(false);
    b.animations.fade_progress = 0;
    b.active_opacity = 0;
    b.inactive_opacity = SCALE;
    b.event_anim = ANIM_NONE;
    animate_fade(&mut b, 100, 2_000);
    assert_eq!(b.animations.fade_progress, 0);
    assert_eq!(b.active_opacity, 0);
    assert_eq!(b.inactive_opacity, SCALE);
    assert_eq!(b.event_anim, ANIM_NONE);
}

#[test]
fn fade_overshoot_clamps_to_bound() {
    let mut b = border(true);
    b.event_anim = ANIM_FADE;
    b.animations.fade_progress = 900;
    b.active_opacity = 980;
    b.inactive_opacity = 20;
    // 0.2 s at speed 2.0 adds 0.4: progress would be 1.3, clamps to 1.0.
    animate_fade(&mut b, 200, 2_000);
    assert_eq!(b.animations.fade_progress, SCALE);
    assert_eq!(b.active_opacity, SCALE);
    assert_eq!(b.inactive_opacity, 0);
    assert_eq!(b.event_anim, ANIM_NONE);
}

#[test]
fn fade_huge_elapsed_still_clamps() {
    let mut b = border(false);
    b.event_anim = ANIM_FADE;
    b.animations.fade_progress = 300;
    b.active_opacity = 186;
    b.inactive_opacity = 814;
    animate_fade(&mut b, u64::MAX, i64::MAX);
    assert_eq!(b.animations.fade_progress, 0);
    assert_eq!(b.active_opacity, 0);
    assert_eq!(b.inactive_opacity, SCALE);
    assert_eq!(b.event_anim, ANIM_NONE);
}

#[test]
fn fade_leaves_spiral_state_alone() {
    let mut b = border(true);
    b.animations.spiral_angle = 123_456;
    b.event_anim = ANIM_FADE;
    b.active_opacity = 500;
    b.inactive_opacity = 500;
    b.animations.fade_progress = 500;
    animate_fade(&mut b, 16, 2_000);
    assert_eq!(b.animations.spiral_angle, 123_456);
    assert_eq!(b.window_rect, rect());
}
