use merlo_movement::authority::ClientState;
use merlo_movement::ground::{
    is_grounded, probe_ray, update_grounded, MaxSlopeAngle, SurfaceHit, PROBE_DISTANCE,
};
use merlo_movement::state::CharacterMovementState;
use merlo_movement::vector::Vec3;

#[test]
fn probe_starts_just_above_the_feet() {
    let ray = probe_ray(7, Vec3::new(0, 1500, 2000));
    assert_eq!(ray.exclude, 7);
    assert_eq!(ray.origin, Vec3::new(0, 10, 2000));
    assert_eq!(ray.direction, Vec3::new(0, -1000, 0));
    assert_eq!(ray.max_distance, 500);
    assert_eq!(PROBE_DISTANCE, 500);
}

#[test]
fn no_hit_is_not_grounded() {
    assert!(!is_grounded(None, None));
    assert!(!is_grounded(None, Some(MaxSlopeAngle(3000))));
}

#[test]
fn hit_without_limit_is_grounded() {
    assert!(is_grounded(Some(SurfaceHit { normal_angle: 1500 }), None));
    assert!(is_grounded(Some(SurfaceHit { normal_angle: i64::MIN }), None));
}

#[test]
fn slope_limit_is_inclusive() {
    let limit = Some(MaxSlopeAngle(524));
    assert!(is_grounded(Some(SurfaceHit { normal_angle: 0 }), limit));
    assert!(is_grounded(Some(SurfaceHit { normal_angle: 524 }), limit));
    assert!(is_grounded(Some(SurfaceHit { normal_angle: -524 }), limit));
    assert!(!is_grounded(Some(SurfaceHit { normal_angle: 525 }), limit));
    assert!(!is_grounded(Some(SurfaceHit { normal_angle: -525 }), limit));
    assert!(!is_grounded(Some(SurfaceHit { normal_angle: i64::MIN }), Some(MaxSlopeAngle(i64::MAX))));
    assert!(!is_grounded(Some(SurfaceHit { normal_angle: 0 }), Some(MaxSlopeAngle(-1))));
}

#[test]
fn update_grounded_writes_only_the_flag() {
    let server = ClientState::Disconnected;
    let mut state = CharacterMovementState::default();
    state.add_direction(Vec3::new(1, 2, 3));
    state.jumping = true;
    let before = state;
    update_grounded(server, &mut state, None, Some(MaxSlopeAngle(524)));
    assert!(!state.grounded);
    let mut expected = before;
    expected.grounded = false;
    assert_eq!(state, expected);
    update_grounded(server, &mut state, Some(SurfaceHit { normal_angle: 100 }), Some(MaxSlopeAngle(524)));
    assert_eq!(state, before);
    update_grounded(server, &mut state, Some(SurfaceHit { normal_angle: 600 }), Some(MaxSlopeAngle(524)));
    assert!(!state.grounded);
}

#[test]
fn update_grounded_on_a_client_keeps_the_replicated_flag() {
    for client in [ClientState::Connected, ClientState::Connecting] {
        let mut state = CharacterMovementState::default();
        update_grounded(client, &mut state, None, None);
        assert_eq!(state, CharacterMovementState::default());
        state.grounded = false;
        let airborne = state;
        update_grounded(client, &mut state, Some(SurfaceHit { normal_angle: 0 }), None);
        assert_eq!(state, airborne);
    }
}

#[test]
fn probe_reaches_the_lowest_height() {
    let ray = probe_ray(0, Vec3::new(-5, i64::MIN + 1490, 5));
    assert_eq!(ray.origin, Vec3::new(-5, i64::MIN, 5));
}
