use merlo_movement::controller::{
    apply_movement_damping, CharacterController, CharacterControllerBundle, Collider, GravityScale,
    LockedAxes, MovementBundle, MovementDampingFactor, RigidBody,
};
use merlo_movement::ground::MaxSlopeAngle;
use merlo_movement::movement::{JumpImpulse, MovementAcceleration, Velocity};
use merlo_movement::state::CharacterMovementState;
use merlo_movement::vector::Vec3;

#[test]
fn movement_bundle_holds_its_parameters() {
    let bundle = MovementBundle::new(60000, 8000, 524);
    assert_eq!(bundle.acceleration, MovementAcceleration(60000));
    assert_eq!(bundle.jump_impulse, JumpImpulse(8000));
    assert_eq!(bundle.max_slope_angle, MaxSlopeAngle(524));
}

#[test]
fn movement_bundle_default_parameters() {
    assert_eq!(MovementBundle::default(), MovementBundle::new(30000, 8000, 1414));
}

#[test]
fn controller_bundle_starts_at_rest() {
    let collider = Collider { half_height: 1000, radius: 500 };
    let bundle = CharacterControllerBundle::new(collider, 2000);
    assert_eq!(bundle.character_controller, CharacterController);
    assert_eq!(bundle.collider, collider);
    assert_eq!(bundle.body, RigidBody::Dynamic);
    assert_eq!(bundle.velocity, Velocity { linvel: Vec3::zero(), angvel: Vec3::zero() });
    assert_eq!(
        bundle.locked_axes,
        LockedAxes { rotation_x: true, rotation_y: false, rotation_z: true }
    );
    assert_eq!(bundle.gravity_scale, GravityScale(2000));
    assert_eq!(bundle.movement_state, CharacterMovementState::default());
    assert_eq!(bundle.movement, MovementBundle::default());
}

#[test]
fn with_movement_replaces_only_the_parameters() {
    let collider = Collider { half_height: 1000, radius: 500 };
    let plain = CharacterControllerBundle::new(collider, 2000);
    let tuned = plain.with_movement(60000, 8000, 524);
    assert_eq!(tuned.movement, MovementBundle::new(60000, 8000, 524));
    let mut expected = plain;
    expected.movement = MovementBundle::new(60000, 8000, 524);
    assert_eq!(tuned, expected);
}

#[test]
fn damping_factor_must_keep_products_in_range() {
    assert_eq!(MovementDampingFactor::new(900), Some(MovementDampingFactor(900)));
    assert_eq!(MovementDampingFactor::new(0), Some(MovementDampingFactor(0)));
    assert_eq!(MovementDampingFactor::new(1000), Some(MovementDampingFactor(1000)));
    assert_eq!(MovementDampingFactor::new(-1), Some(MovementDampingFactor(-1)));
    assert_eq!(MovementDampingFactor::new(-999), Some(MovementDampingFactor(-999)));
    assert_eq!(MovementDampingFactor::new(1001), None);
    assert_eq!(MovementDampingFactor::new(-1000), None);
    assert_eq!(MovementDampingFactor::new(i64::MIN), None);
}

#[test]
fn damping_at_the_ends_of_the_range() {
    let all = MovementDampingFactor::new(1000).unwrap();
    let mut velocity =
        Velocity { linvel: Vec3::new(i64::MIN, 1, i64::MAX), angvel: Vec3::new(2, -7, 3) };
    let before = velocity;
    apply_movement_damping(all, &mut velocity);
    assert_eq!(velocity, before);
    let round = MovementDampingFactor::new(-999).unwrap();
    apply_movement_damping(round, &mut velocity);
    assert_eq!(velocity.linvel, Vec3::new(9214148664817921032, 1, -9214148664817921031));
    assert_eq!(velocity.angvel, Vec3::new(2, 6, 3));
    let none = MovementDampingFactor::new(0).unwrap();
    apply_movement_damping(none, &mut velocity);
    assert_eq!(velocity.linvel, Vec3::new(0, 1, 0));
    assert_eq!(velocity.angvel, Vec3::new(2, 0, 3));
}

#[test]
fn damping_slows_horizontal_motion_and_yaw() {
    let factor = MovementDampingFactor::new(900).unwrap();
    let mut velocity = Velocity { linvel: Vec3::new(1000, 5000, -1000), angvel: Vec3::new(7, 1000, 9) };
    apply_movement_damping(factor, &mut velocity);
    assert_eq!(velocity.linvel, Vec3::new(900, 5000, -900));
    assert_eq!(velocity.angvel, Vec3::new(7, 900, 9));
    let mut small = Velocity { linvel: Vec3::new(5, 0, -5), angvel: Vec3::new(0, i64::MIN, 0) };
    apply_movement_damping(factor, &mut small);
    assert_eq!(small.linvel, Vec3::new(4, 0, -4));
    assert_eq!(small.angvel.y, -8301034833169298227);
}
