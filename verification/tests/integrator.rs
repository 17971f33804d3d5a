use merlo_movement::authority::ClientState;
use merlo_movement::movement::{
    axis_velocity, fold_action, fold_actions, jump_applies, movement, resolve_rotation,
    velocity_command, Folding,
    JumpImpulse, MovementAcceleration, MovementData, Velocity, YAW_GAIN,
};
use merlo_movement::state::{CharacterMovementState, MovementAction, SpeedPreset};
use merlo_movement::vector::{Facing, Vec3};

fn at_rest() -> Velocity {
    Velocity { linvel: Vec3::new(0, 0, 0), angvel: Vec3::new(0, 0, 0) }
}

fn character(state: CharacterMovementState, velocity: Velocity) -> MovementData {
    MovementData {
        movement_acceleration: MovementAcceleration(60000),
        facing: Facing::identity(),
        jump_impulse: JumpImpulse(8000),
        movement_state: state,
        velocity,
    }
}

#[test]
fn forward_and_jump_on_ground_moves_forward_and_up() {
    let mut data = character(CharacterMovementState::default(), at_rest());
    let actions = vec![MovementAction::AddMove(Vec3::new(0, 0, 1000)), MovementAction::SetJump(true)];
    movement(ClientState::Disconnected, &actions, &mut data);
    assert!(data.velocity.linvel.z > 0);
    assert!(data.velocity.linvel.y > 0);
    assert_eq!(data.velocity.linvel, Vec3::new(0, 8000, 9000));
    assert_eq!(data.velocity.angvel, Vec3::new(0, 0, 0));
    assert_eq!(data.movement_state.direction, Vec3::new(0, 0, 1000));
    assert!(data.movement_state.jumping);
    assert!(data.movement_state.grounded);
}

#[test]
fn client_without_authority_changes_nothing() {
    let mut state = CharacterMovementState::default();
    state.add_direction(Vec3::new(500, 0, 0));
    let velocity = Velocity { linvel: Vec3::new(1, 2, 3), angvel: Vec3::new(4, 5, 6) };
    let before = character(state, velocity);
    let actions = vec![MovementAction::AddMove(Vec3::new(0, 0, 1000)), MovementAction::SetJump(true)];
    for client_state in [ClientState::Connected, ClientState::Connecting] {
        let mut data = before;
        movement(client_state, &actions, &mut data);
        assert_eq!(data, before);
        movement(client_state, &Vec::new(), &mut data);
        assert_eq!(data, before);
    }
}

#[test]
fn tick_without_actions_keeps_state_and_commands_from_it() {
    let mut state = CharacterMovementState::default();
    state.add_direction(Vec3::new(0, 0, 1000));
    let velocity = Velocity { linvel: Vec3::new(77, -300, 77), angvel: Vec3::new(1, 2, 3) };
    let mut data = character(state, velocity);
    movement(ClientState::Disconnected, &Vec::new(), &mut data);
    assert_eq!(data.movement_state, state);
    assert_eq!(data.velocity.linvel, Vec3::new(0, -300, 9000));
    assert_eq!(data.velocity.angvel, Vec3::new(1, 0, 3));
}

#[test]
fn airborne_jump_leaves_vertical_velocity() {
    let mut state = CharacterMovementState::default();
    state.grounded = false;
    let velocity = Velocity { linvel: Vec3::new(0, -1234, 0), angvel: Vec3::new(0, 0, 0) };
    let mut data = character(state, velocity);
    movement(ClientState::Disconnected, &vec![MovementAction::SetJump(true)], &mut data);
    assert!(data.movement_state.jumping);
    assert!(!data.movement_state.grounded);
    assert_eq!(data.velocity.linvel.y, -1234);
}

#[test]
fn grounded_without_jump_leaves_vertical_velocity() {
    let velocity = Velocity { linvel: Vec3::new(0, 321, 0), angvel: Vec3::new(0, 0, 0) };
    let mut data = character(CharacterMovementState::default(), velocity);
    movement(ClientState::Disconnected, &Vec::new(), &mut data);
    assert_eq!(data.velocity.linvel.y, 321);
    movement(
        ClientState::Disconnected,
        &vec![MovementAction::SetJump(true), MovementAction::SetJump(false)],
        &mut data,
    );
    assert_eq!(data.velocity.linvel.y, 321);
}

#[test]
fn jump_applies_on_ground_with_request_only() {
    let mut state = CharacterMovementState::default();
    assert!(!jump_applies(state));
    state.jumping = true;
    assert!(jump_applies(state));
    state.grounded = false;
    assert!(!jump_applies(state));
    state.jumping = false;
    assert!(!jump_applies(state));
}

#[test]
fn jump_stays_latched_until_released() {
    let mut data = character(CharacterMovementState::default(), at_rest());
    movement(ClientState::Disconnected, &vec![MovementAction::SetJump(true)], &mut data);
    assert_eq!(data.velocity.linvel.y, 8000);
    data.velocity.linvel.y = 10;
    movement(ClientState::Disconnected, &Vec::new(), &mut data);
    assert!(data.movement_state.jumping);
    assert_eq!(data.velocity.linvel.y, 8000);
    data.velocity.linvel.y = 10;
    movement(ClientState::Disconnected, &vec![MovementAction::SetJump(false)], &mut data);
    assert!(!data.movement_state.jumping);
    assert_eq!(data.velocity.linvel.y, 10);
}

#[test]
fn rotation_keys_resolve_without_explicit_rotation() {
    let mut data = character(CharacterMovementState::default(), at_rest());
    movement(ClientState::Disconnected, &vec![MovementAction::RotateRight(true)], &mut data);
    assert_eq!(data.movement_state.rotating, -1000);
    assert_eq!(data.velocity.angvel.y, -4000);
    movement(ClientState::Disconnected, &vec![MovementAction::RotateLeft(true)], &mut data);
    assert_eq!(data.movement_state.rotating, 0);
    assert_eq!(data.velocity.angvel.y, 0);
    movement(ClientState::Disconnected, &vec![MovementAction::RotateRight(false)], &mut data);
    assert_eq!(data.movement_state.rotating, 1000);
    assert_eq!(data.velocity.angvel.y, 4000);
    movement(ClientState::Disconnected, &vec![MovementAction::RotateLeft(false)], &mut data);
    assert_eq!(data.movement_state.rotating, 0);
    assert_eq!(data.velocity.angvel.y, 0);
}

#[test]
fn explicit_rotation_overrides_keys_for_one_tick() {
    let mut data = character(CharacterMovementState::default(), at_rest());
    let actions = vec![MovementAction::RotateRight(true), MovementAction::SetRotate(250)];
    movement(ClientState::Disconnected, &actions, &mut data);
    assert_eq!(data.movement_state.rotating, 250);
    assert!(data.movement_state.rotating_right);
    assert_eq!(data.velocity.angvel.y, 250 * YAW_GAIN);
    movement(ClientState::Disconnected, &Vec::new(), &mut data);
    assert_eq!(data.movement_state.rotating, -1000);
}

#[test]
fn last_explicit_rotation_wins_and_is_clamped() {
    let mut data = character(CharacterMovementState::default(), at_rest());
    let actions = vec![MovementAction::SetRotate(100), MovementAction::SetRotate(-5000)];
    movement(ClientState::Disconnected, &actions, &mut data);
    assert_eq!(data.movement_state.rotating, -1000);
    assert_eq!(data.velocity.angvel.y, -4000);
    let actions = vec![MovementAction::SetRotate(100), MovementAction::SetRotate(0)];
    movement(ClientState::Disconnected, &actions, &mut data);
    assert_eq!(data.movement_state.rotating, 0);
}

#[test]
fn explicit_zero_rotation_overrides_a_latched_key() {
    let mut state = CharacterMovementState::default();
    state.rotating_left = true;
    let mut data = character(state, at_rest());
    movement(ClientState::Disconnected, &vec![MovementAction::SetRotate(0)], &mut data);
    assert_eq!(data.movement_state.rotating, 0);
    assert_eq!(data.velocity.angvel.y, 0);
    assert!(data.movement_state.rotating_left);
    movement(ClientState::Disconnected, &Vec::new(), &mut data);
    assert_eq!(data.movement_state.rotating, 1000);
    assert_eq!(data.velocity.angvel.y, 4000);
    let actions = vec![
        MovementAction::SetRotate(700),
        MovementAction::SetRotate(0),
        MovementAction::RotateRight(true),
        MovementAction::RotateLeft(false),
    ];
    movement(ClientState::Disconnected, &actions, &mut data);
    assert_eq!(data.movement_state.rotating, 0);
    assert_eq!(data.velocity.angvel.y, 0);
    movement(ClientState::Disconnected, &Vec::new(), &mut data);
    assert_eq!(data.movement_state.rotating, -1000);
}

#[test]
fn backward_motion_is_walked() {
    let mut backward = character(CharacterMovementState::default(), at_rest());
    movement(
        ClientState::Disconnected,
        &vec![MovementAction::AddMove(Vec3::new(0, 0, -1000))],
        &mut backward,
    );
    assert_eq!(backward.movement_state.speed, SpeedPreset::Run);
    assert_eq!(backward.velocity.linvel, Vec3::new(0, 0, -3000));

    let mut forward = character(CharacterMovementState::default(), at_rest());
    movement(
        ClientState::Disconnected,
        &vec![
            MovementAction::SetSpeed(SpeedPreset::Walk),
            MovementAction::AddMove(Vec3::new(0, 0, 1000)),
        ],
        &mut forward,
    );
    assert_eq!(forward.velocity.linvel, Vec3::new(0, 0, 3000));
    assert_eq!(forward.velocity.linvel.z, -backward.velocity.linvel.z);
}

#[test]
fn backward_diagonal_matches_walked_forward_diagonal() {
    let mut backward = character(CharacterMovementState::default(), at_rest());
    movement(
        ClientState::Disconnected,
        &vec![MovementAction::SetMove(Vec3::new(600, 0, -800))],
        &mut backward,
    );
    let mut forward = character(CharacterMovementState::default(), at_rest());
    movement(
        ClientState::Disconnected,
        &vec![
            MovementAction::SetSpeed(SpeedPreset::Walk),
            MovementAction::SetMove(Vec3::new(-600, 0, 800)),
        ],
        &mut forward,
    );
    assert_eq!(backward.velocity.linvel, Vec3::new(1800, 0, -2400));
    assert_eq!(forward.velocity.linvel, Vec3::new(-1800, 0, 2400));
}

#[test]
fn facing_backwards_turns_forward_input_into_walk() {
    let mut data = character(CharacterMovementState::default(), at_rest());
    data.facing = Facing::new(-1000, 0).unwrap();
    movement(
        ClientState::Disconnected,
        &vec![MovementAction::AddMove(Vec3::new(0, 0, 1000))],
        &mut data,
    );
    assert_eq!(data.velocity.linvel, Vec3::new(0, 0, -3000));
}

#[test]
fn diagonal_is_shortened_to_unit_length() {
    let mut data = character(CharacterMovementState::default(), at_rest());
    let actions = vec![
        MovementAction::AddMove(Vec3::new(0, 0, 1000)),
        MovementAction::AddMove(Vec3::new(1000, 0, 0)),
    ];
    movement(ClientState::Disconnected, &actions, &mut data);
    assert_eq!(data.movement_state.direction, Vec3::new(1000, 0, 1000));
    assert_eq!(data.velocity.linvel, Vec3::new(6354, 0, 6354));
}

#[test]
fn vertical_intent_moves_nothing() {
    let velocity = Velocity { linvel: Vec3::new(5, 42, 5), angvel: Vec3::new(0, 0, 0) };
    let mut state = CharacterMovementState::default();
    state.jumping = false;
    let mut data = character(state, velocity);
    movement(
        ClientState::Disconnected,
        &vec![MovementAction::AddMove(Vec3::new(0, 1000, 0))],
        &mut data,
    );
    assert_eq!(data.velocity.linvel, Vec3::new(0, 42, 0));
}

#[test]
fn facing_turns_the_velocity() {
    let mut data = character(CharacterMovementState::default(), at_rest());
    data.facing = Facing::new(800, 600).unwrap();
    movement(
        ClientState::Disconnected,
        &vec![MovementAction::AddMove(Vec3::new(0, 0, 1000))],
        &mut data,
    );
    assert_eq!(data.velocity.linvel, Vec3::new(5400, 0, 7200));
}

#[test]
fn set_move_replaces_and_clamps_direction() {
    let mut state = CharacterMovementState::default();
    state.add_direction(Vec3::new(1000, 0, 0));
    let folded = fold_actions(state, &vec![MovementAction::SetMove(Vec3::new(-250, 0, 5000))]);
    assert_eq!(folded.state.direction, Vec3::new(-250, 0, 1000));
    assert_eq!(folded.set_rotation, None);
}

#[test]
fn fold_is_left_to_right() {
    let state = CharacterMovementState::default();
    let actions = vec![
        MovementAction::SetSpeed(SpeedPreset::Walk),
        MovementAction::AddMove(Vec3::new(0, 0, 1000)),
        MovementAction::SetMove(Vec3::new(100, 0, 0)),
        MovementAction::AddMove(Vec3::new(0, 0, -1000)),
        MovementAction::SetSpeed(SpeedPreset::Run),
        MovementAction::SetJump(true),
        MovementAction::SetRotate(-30),
        MovementAction::RotateLeft(true),
    ];
    let folded = fold_actions(state, &actions);
    assert_eq!(folded.state.direction, Vec3::new(100, 0, -1000));
    assert_eq!(folded.state.speed, SpeedPreset::Run);
    assert!(folded.state.jumping);
    assert!(folded.state.rotating_left);
    assert_eq!(folded.state.rotating, 0);
    assert_eq!(folded.set_rotation, Some(-30));
    let resolved = resolve_rotation(folded);
    assert_eq!(resolved.rotating, -30);
    let mut by_hand = Folding { state, set_rotation: None };
    for action in actions {
        by_hand = fold_action(by_hand, action);
    }
    assert_eq!(by_hand, folded);
}

#[test]
fn press_release_pairs_fold_to_the_same_state() {
    let mut state = CharacterMovementState::default();
    state.add_direction(Vec3::new(-200, 0, 300));
    let mut actions = Vec::new();
    for v in [Vec3::new(0, 0, 700), Vec3::new(-800, 0, 0), Vec3::new(1000, 0, -1000)] {
        actions.push(MovementAction::AddMove(v));
        actions.push(MovementAction::AddMove(v.negated()));
    }
    let folded = fold_actions(state, &actions);
    assert_eq!(folded.state, state);
}

#[test]
fn axis_velocity_is_component_times_acceleration_times_speed() {
    assert_eq!(axis_velocity(1000, 60000, 150), 9000);
    assert_eq!(axis_velocity(-1000, 60000, 150), -9000);
    assert_eq!(axis_velocity(1000, 30000, 50), 1500);
    assert_eq!(axis_velocity(706, 60000, 150), 6354);
    assert_eq!(axis_velocity(1, 1, 1), 0);
    assert_eq!(axis_velocity(-1, 1, 1), 0);
    assert_eq!(axis_velocity(333, 1000, 50), 16);
    assert_eq!(axis_velocity(-333, 1000, 50), -16);
    assert_eq!(axis_velocity(1000, i64::MIN, 150), -1383505805528216371);
}

#[test]
fn velocity_command_keeps_other_angular_components() {
    let mut state = CharacterMovementState::default();
    state.rotating = 500;
    let previous = Velocity { linvel: Vec3::new(9, 9, 9), angvel: Vec3::new(11, 12, 13) };
    let velocity = velocity_command(
        state,
        Facing::identity(),
        MovementAcceleration(30000),
        JumpImpulse(7000),
        previous,
    );
    assert_eq!(velocity.linvel, Vec3::new(0, 9, 0));
    assert_eq!(velocity.angvel, Vec3::new(11, 2000, 13));
}
