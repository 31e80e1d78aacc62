use border_anim::animations::resolve_speed;
use border_anim::animations::resolve_speed_map;
use border_anim::animations::speed_value;
use border_anim::AnimationError;
use border_anim::animations::AnimationType;
use border_anim::animations::Animations;
use border_anim::animations::RawSpeed;
use border_anim::animations::RawSpeedMap;
use border_anim::animations::SpeedMap;
use border_anim::DEFAULT_SPEED;

#[test]
fn null_speed_resolves_to_default_and_number_is_kept() {
    // Config {active: {Fade: null}, inactive: {Fade: 50}} resolves to
    // {Fade: 100.0} for the active section and {Fade: 50.0} for the inactive.
    let active = RawSpeedMap { spiral: None, reverse_spiral: None, fade: Some(RawSpeed::Null) };
    let inactive = RawSpeedMap {
        spiral: None,
        reverse_spiral: None,
        fade: Some(RawSpeed::Number(50_000)),
    };
    let a = resolve_speed_map(&active);
    let i = resolve_speed_map(&inactive);
    assert_eq!(a.fade, Some(100_000));
    assert_eq!(a.spiral, None);
    assert_eq!(a.reverse_spiral, None);
    assert_eq!(i.fade, Some(50_000));
}

#[test]
fn malformed_speed_falls_back_to_default() {
    assert_eq!(resolve_speed(Some(RawSpeed::Malformed)), Some(DEFAULT_SPEED));
}

#[test]
fn malformed_speed_is_classified_as_error_then_recovered() {
    assert_eq!(
        speed_value(RawSpeed::Malformed),
        Err(AnimationError::MalformedConfigValue)
    );
    assert_eq!(speed_value(RawSpeed::Null), Ok(None));
    assert_eq!(speed_value(RawSpeed::Number(20_000)), Ok(Some(20_000)));
}

#[test]
fn absent_kind_stays_absent() {
    assert_eq!(resolve_speed(None), None);
}

#[test]
fn numeric_speed_is_kept_as_given() {
    assert_eq!(resolve_speed(Some(RawSpeed::Number(20_000))), Some(20_000));
}

#[test]
fn speed_map_lookup_by_kind() {
    let m = SpeedMap { spiral: Some(1), reverse_spiral: Some(2), fade: Some(3) };
    assert_eq!(m.get(AnimationType::Spiral), Some(1));
    assert_eq!(m.get(AnimationType::ReverseSpiral), Some(2));
    assert_eq!(m.get(AnimationType::Fade), Some(3));
    let e = SpeedMap::empty();
    assert_eq!(e.get(AnimationType::Fade), None);
}

#[test]
fn from_config_resolves_once_and_zeroes_counters() {
    let active = RawSpeedMap {
        spiral: Some(RawSpeed::Number(20_000)),
        reverse_spiral: None,
        fade: Some(RawSpeed::Null),
    };
    let inactive = RawSpeedMap {
        spiral: None,
        reverse_spiral: Some(RawSpeed::Malformed),
        fade: Some(RawSpeed::Number(50_000)),
    };
    let anims = Animations::from_config(&active, &inactive, None);
    assert_eq!(anims.active.spiral, Some(20_000));
    assert_eq!(anims.active.fade, Some(DEFAULT_SPEED));
    assert_eq!(anims.inactive.reverse_spiral, Some(DEFAULT_SPEED));
    assert_eq!(anims.inactive.fade, Some(50_000));
    assert_eq!(anims.fps, 60);
    assert_eq!(anims.fade_progress, 0);
    assert!(!anims.fade_to_visible);
    assert_eq!(anims.spiral_angle, 0);
    assert_eq!(anims.current, SpeedMap::empty());

    let with_fps = Animations::from_config(&active, &inactive, Some(144));
    assert_eq!(with_fps.fps, 144);
}

#[test]
fn default_record_is_empty_and_zeroed() {
    let anims = Animations::default();
    assert_eq!(anims.active, SpeedMap::empty());
    assert_eq!(anims.inactive, SpeedMap::empty());
    assert_eq!(anims.fps, 60);
    assert_eq!(anims.fade_progress, 0);
    assert_eq!(anims.spiral_angle, 0);
}
