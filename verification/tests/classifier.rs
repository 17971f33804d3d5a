use merlo_movement::animation::{
    classify, classify_speed, horizontal_speed_squared, play_animation_when_ready, transition,
    update_animation, update_animation_from_velocity, CharacterAnimation, CurrentAnimation,
    PlayCommand, BLEND_MILLIS,
};
use merlo_movement::movement::Velocity;
use merlo_movement::state::{CharacterMovementState, SpeedPreset};
use merlo_movement::vector::Vec3;

#[test]
fn grounded_without_direction_is_idle() {
    assert_eq!(classify(CharacterMovementState::default()), CharacterAnimation::Idle);
    let mut walking_preset = CharacterMovementState::default();
    walking_preset.speed = SpeedPreset::Walk;
    assert_eq!(classify(walking_preset), CharacterAnimation::Idle);
}

#[test]
fn grounded_with_vertical_intent_alone_is_idle() {
    let mut state = CharacterMovementState::default();
    state.add_direction(Vec3::new(0, 1000, 0));
    assert!(state.is_moving());
    assert_eq!(classify(state), CharacterAnimation::Idle);
    state.add_direction(Vec3::new(0, 0, -1));
    assert_eq!(classify(state), CharacterAnimation::Run);
}

#[test]
fn grounded_and_moving_runs_or_walks_by_speed() {
    let mut state = CharacterMovementState::default();
    state.add_direction(Vec3::new(0, 0, 1000));
    assert_eq!(classify(state), CharacterAnimation::Run);
    state.speed = SpeedPreset::Walk;
    assert_eq!(classify(state), CharacterAnimation::Walk);
}

#[test]
fn airborne_is_fall_whatever_else() {
    let mut state = CharacterMovementState::default();
    state.grounded = false;
    assert_eq!(classify(state), CharacterAnimation::Fall);
    state.add_direction(Vec3::new(1000, 0, 0));
    assert_eq!(classify(state), CharacterAnimation::Fall);
    state.speed = SpeedPreset::Walk;
    assert_eq!(classify(state), CharacterAnimation::Fall);
    for speed_squared in [0u128, 10_000_000, 30_000_000, u128::MAX] {
        assert_eq!(classify_speed(false, speed_squared), CharacterAnimation::Fall);
    }
}

#[test]
fn speed_squared_between_thresholds_walks() {
    assert_eq!(classify_speed(true, 10_000_000), CharacterAnimation::Walk);
    assert_eq!(classify_speed(true, 2_000_001), CharacterAnimation::Walk);
    assert_eq!(classify_speed(true, 23_999_999), CharacterAnimation::Walk);
}

#[test]
fn speed_squared_at_or_above_run_threshold_runs() {
    assert_eq!(classify_speed(true, 30_000_000), CharacterAnimation::Run);
    assert_eq!(classify_speed(true, 24_000_000), CharacterAnimation::Run);
}

#[test]
fn speed_squared_up_to_walk_threshold_idles() {
    assert_eq!(classify_speed(true, 0), CharacterAnimation::Idle);
    assert_eq!(classify_speed(true, 2_000_000), CharacterAnimation::Idle);
}

#[test]
fn categories_index_their_clips() {
    assert_eq!(CharacterAnimation::Idle.index(), 0);
    assert_eq!(CharacterAnimation::Walk.index(), 1);
    assert_eq!(CharacterAnimation::Run.index(), 2);
    assert_eq!(CharacterAnimation::Fall.index(), 3);
}

#[test]
fn spawn_starts_idle_from_time_zero() {
    let (current, command) = play_animation_when_ready();
    assert_eq!(current, CurrentAnimation(CharacterAnimation::Idle));
    assert_eq!(command, PlayCommand { index: 0, blend_millis: 0, repeat: true });
}

#[test]
fn change_of_category_plays_with_blend() {
    let (mut current, _) = play_animation_when_ready();
    let command = transition(&mut current, CharacterAnimation::Run);
    assert_eq!(command, Some(PlayCommand { index: 2, blend_millis: 250, repeat: true }));
    assert_eq!(current, CurrentAnimation(CharacterAnimation::Run));
    assert_eq!(BLEND_MILLIS, 250);
}

#[test]
fn same_category_is_not_replayed() {
    let (mut current, _) = play_animation_when_ready();
    assert_eq!(transition(&mut current, CharacterAnimation::Idle), None);
    let mut state = CharacterMovementState::default();
    state.add_direction(Vec3::new(0, 0, 1000));
    assert!(update_animation(&mut current, state).is_some());
    assert_eq!(update_animation(&mut current, state), None);
    assert_eq!(update_animation(&mut current, state), None);
    state.grounded = false;
    assert_eq!(
        update_animation(&mut current, state),
        Some(PlayCommand { index: 3, blend_millis: 250, repeat: true })
    );
    assert_eq!(update_animation(&mut current, state), None);
}

#[test]
fn velocity_drives_animation_without_state() {
    let (mut current, _) = play_animation_when_ready();
    let slow = Velocity { linvel: Vec3::new(1000, 0, 1000), angvel: Vec3::new(0, 0, 0) };
    assert_eq!(update_animation_from_velocity(&mut current, true, slow), None);
    let walk = Velocity { linvel: Vec3::new(3000, 0, 1000), angvel: Vec3::new(0, 0, 0) };
    assert_eq!(
        update_animation_from_velocity(&mut current, true, walk),
        Some(PlayCommand { index: 1, blend_millis: 250, repeat: true })
    );
    assert_eq!(update_animation_from_velocity(&mut current, true, walk), None);
    let run = Velocity { linvel: Vec3::new(0, 0, -9000), angvel: Vec3::new(0, 0, 0) };
    assert_eq!(
        update_animation_from_velocity(&mut current, true, run),
        Some(PlayCommand { index: 2, blend_millis: 250, repeat: true })
    );
    assert_eq!(
        update_animation_from_velocity(&mut current, false, run),
        Some(PlayCommand { index: 3, blend_millis: 250, repeat: true })
    );
    assert_eq!(update_animation_from_velocity(&mut current, false, slow), None);
}

#[test]
fn horizontal_speed_squared_leaves_out_the_vertical() {
    assert_eq!(horizontal_speed_squared(Vec3::new(3000, 0, 1000)), 10_000_000);
    assert_eq!(horizontal_speed_squared(Vec3::new(3000, 77_000, 1000)), 10_000_000);
    assert_eq!(horizontal_speed_squared(Vec3::new(-1, 2, -3)), 10);
    assert_eq!(horizontal_speed_squared(Vec3::new(0, i64::MIN, 0)), 0);
    assert_eq!(
        horizontal_speed_squared(Vec3::new(i64::MIN, i64::MIN, i64::MIN)),
        2 * (1u128 << 126)
    );
}

#[test]
fn vertical_velocity_alone_is_idle_on_the_ground() {
    let mut current = CurrentAnimation(CharacterAnimation::Walk);
    let rising = Velocity { linvel: Vec3::new(0, 5000, 0), angvel: Vec3::new(0, 0, 0) };
    assert_eq!(
        update_animation_from_velocity(&mut current, true, rising),
        Some(PlayCommand { index: 0, blend_millis: 250, repeat: true })
    );
    assert_eq!(current, CurrentAnimation(CharacterAnimation::Idle));
    assert_eq!(update_animation_from_velocity(&mut current, true, rising), None);
    let jumping_run = Velocity { linvel: Vec3::new(0, 8000, 9000), angvel: Vec3::new(0, 0, 0) };
    assert_eq!(
        update_animation_from_velocity(&mut current, true, jumping_run),
        Some(PlayCommand { index: 2, blend_millis: 250, repeat: true })
    );
    let falling = Velocity { linvel: Vec3::new(0, -20_000, 0), angvel: Vec3::new(0, 0, 0) };
    assert_eq!(
        update_animation_from_velocity(&mut current, true, falling),
        Some(PlayCommand { index: 0, blend_millis: 250, repeat: true })
    );
}
