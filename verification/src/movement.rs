//! The movement integrator: folds the intents of a tick into the movement
//! state and derives the velocity command from it.

use vstd::prelude::*;
use crate::authority::{has_server_authority, has_server_authority_spec, ClientState};
use crate::fixed::{clamp_spec, clamp_unit, quot, quot_spec, UNIT};
use crate::state::{CharacterMovementState, MovementAction, SpeedPreset, RUN_SPEED, WALK_SPEED};
use crate::vector::{lemma_quot_shrinks, Facing, Vec3};

verus! {

/// The yaw angular velocity of a character that turns at full rate.
pub const YAW_GAIN: i64 = 4;

/// The linear and angular velocity of a rigid body.
#[derive(Clone, Copy, Debug, PartialEq, Eq, Structural)]
pub struct Velocity {
    pub linvel: Vec3,
    pub angvel: Vec3,
}

/// The acceleration used for character movement.
#[derive(Clone, Copy, Debug, PartialEq, Eq, Structural)]
pub struct MovementAcceleration(pub i64);

/// The strength of a jump.
#[derive(Clone, Copy, Debug, PartialEq, Eq, Structural)]
pub struct JumpImpulse(pub i64);

/// What the integrator reads and writes of one character.
#[derive(Clone, Copy, Debug, PartialEq, Eq, Structural)]
pub struct MovementData {
    pub movement_acceleration: MovementAcceleration,
    pub facing: Facing,
    pub jump_impulse: JumpImpulse,
    pub movement_state: CharacterMovementState,
    pub velocity: Velocity,
}

/// The movement state while the intents of a tick are folded into it,
/// together with the yaw rate that was last asked for in this tick, if any
/// was.
#[derive(Clone, Copy, Debug, PartialEq, Eq, Structural)]
pub struct Folding {
    pub state: CharacterMovementState,
    pub set_rotation: Option<i64>,
}

/// One intent applied: the direction accumulates and is clamped per axis,
/// every other field takes the value last written.
pub open spec fn fold_action_spec(acc: Folding, action: MovementAction) -> Folding {
    match action {
        MovementAction::AddMove(direction) => Folding {
            state: acc.state.add_direction_spec(direction),
            ..acc
        },
        MovementAction::SetMove(direction) => Folding {
            state: CharacterMovementState { direction: direction.clamp_axes_spec(), ..acc.state },
            ..acc
        },
        MovementAction::SetSpeed(speed) => Folding {
            state: CharacterMovementState { speed, ..acc.state },
            ..acc
        },
        MovementAction::RotateRight(on) => Folding {
            state: CharacterMovementState { rotating_right: on, ..acc.state },
            ..acc
        },
        MovementAction::RotateLeft(on) => Folding {
            state: CharacterMovementState { rotating_left: on, ..acc.state },
            ..acc
        },
        MovementAction::SetRotate(rotation) => Folding { set_rotation: Some(rotation), ..acc },
        MovementAction::SetJump(on) => Folding {
            state: CharacterMovementState { jumping: on, ..acc.state },
            ..acc
        },
    }
}

/// The intents applied one after the other, in the order of arrival.
pub open spec fn fold_actions_spec(acc: Folding, actions: Seq<MovementAction>) -> Folding
    decreases actions.len(),
{
    if actions.len() == 0 {
        acc
    } else {
        fold_action_spec(fold_actions_spec(acc, actions.drop_last()), actions.last())
    }
}

/// The yaw-rate intent of the tick: the rate that was asked for, zero
/// included, clamped into `[-1, 1]`; that of the two rotation keys where
/// none was asked for.
pub open spec fn resolve_rotation_spec(acc: Folding) -> CharacterMovementState {
    match acc.set_rotation {
        None => acc.state.apply_right_left_rotation_spec(),
        Some(rotation) => CharacterMovementState {
            rotating: clamp_spec(rotation as int, -UNIT as int, UNIT as int) as i64,
            ..acc.state
        },
    }
}

/// The folding that a tick starts from: the state as it stands, and no yaw
/// rate asked for.
pub open spec fn start_spec(state: CharacterMovementState) -> Folding {
    Folding { state, set_rotation: None }
}

/// The movement state after the intents of a tick.
pub open spec fn tick_state_spec(
    state: CharacterMovementState,
    actions: Seq<MovementAction>,
) -> CharacterMovementState {
    resolve_rotation_spec(fold_actions_spec(start_spec(state), actions))
}

/// The direction that is commanded: that of the state, shortened to unit
/// length.
pub open spec fn commanded_direction_spec(state: CharacterMovementState) -> Vec3 {
    state.direction.clamp_length_spec()
}

/// The commanded direction in world space, without its vertical component.
pub open spec fn world_direction_spec(state: CharacterMovementState, facing: Facing) -> Vec3 {
    facing.rotate_spec(commanded_direction_spec(state)).flattened_spec()
}

/// The speed that is applied: that of the walk preset for a direction that
/// points backwards in world space, else that of the state.
pub open spec fn effective_speed_spec(world: Vec3, speed: SpeedPreset) -> int {
    if world.z < 0 {
        WALK_SPEED as int
    } else {
        speed.value_spec()
    }
}

/// One horizontal component of the velocity: the component of the world
/// direction times the acceleration times the speed, rounded toward zero.
pub open spec fn axis_velocity_spec(component: int, acceleration: int, speed: int) -> int {
    quot_spec((component * speed) * acceleration, UNIT * UNIT)
}

/// Whether the jump impulse is applied: the character stands on the ground
/// and a jump is asked for.
pub open spec fn jump_applies_spec(state: CharacterMovementState) -> bool {
    state.grounded && state.jumping
}

/// The velocity that is commanded for a character in `state`: horizontal
/// components from direction, acceleration and speed; the vertical one
/// replaced by the jump impulse where it applies, else kept; the yaw rate
/// from the rotation intent; the other angular components kept.
pub open spec fn velocity_command_spec(
    state: CharacterMovementState,
    facing: Facing,
    acceleration: MovementAcceleration,
    jump_impulse: JumpImpulse,
    previous: Velocity,
) -> Velocity {
    let world = world_direction_spec(state, facing);
    let speed = effective_speed_spec(world, state.speed);
    Velocity {
        linvel: Vec3 {
            x: axis_velocity_spec(world.x as int, acceleration.0 as int, speed) as i64,
            y: if jump_applies_spec(state) {
                jump_impulse.0
            } else {
                previous.linvel.y
            },
            z: axis_velocity_spec(world.z as int, acceleration.0 as int, speed) as i64,
        },
        angvel: Vec3 {
            x: previous.angvel.x,
            y: (state.rotating * YAW_GAIN) as i64,
            z: previous.angvel.z,
        },
    }
}

/// What a tick makes of a character: nothing on a process without
/// authority; on the authority the state after the intents, and the
/// velocity commanded for that state.
pub open spec fn movement_spec(
    client_state: ClientState,
    actions: Seq<MovementAction>,
    data: MovementData,
) -> MovementData {
    if has_server_authority_spec(client_state) {
        let state = tick_state_spec(data.movement_state, actions);
        MovementData {
            movement_state: state,
            velocity: velocity_command_spec(
                state,
                data.facing,
                data.movement_acceleration,
                data.jump_impulse,
                data.velocity,
            ),
            ..data
        }
    } else {
        data
    }
}

/// The intents that the controller at `index` folds: the first controller
/// takes all that arrived, so that each is applied once; the others none.
pub open spec fn actions_for_spec(index: int, actions: Seq<MovementAction>) -> Seq<MovementAction> {
    if index == 0 {
        actions
    } else {
        Seq::empty()
    }
}

/// Every controller has a well-formed movement state and facing.
pub open spec fn all_well_formed(controllers: Seq<MovementData>) -> bool {
    forall|i: int|
        0 <= i < controllers.len() ==> (#[trigger] controllers[i]).movement_state.wf()
            && controllers[i].facing.wf()
}

/// Applies one intent.
pub fn fold_action(acc: Folding, action: MovementAction) -> (next: Folding)
    ensures
        next == fold_action_spec(acc, action),
        next.state.grounded == acc.state.grounded,
        acc.state.wf() ==> next.state.wf(),
{
    let mut next = acc;
    match action {
        MovementAction::AddMove(direction) => {
            next.state.direction = acc.state.direction.add_clamped(direction);
        },
        MovementAction::SetMove(direction) => {
            next.state.direction = direction.clamp_axes();
        },
        MovementAction::SetSpeed(speed) => {
            next.state.speed = speed;
        },
        MovementAction::RotateRight(on) => {
            next.state.rotating_right = on;
        },
        MovementAction::RotateLeft(on) => {
            next.state.rotating_left = on;
        },
        MovementAction::SetRotate(rotation) => {
            next.set_rotation = Some(rotation);
        },
        MovementAction::SetJump(on) => {
            next.state.jumping = on;
        },
    }
    next
}

/// Applies the intents of a tick in the order of arrival.
pub fn fold_actions(state: CharacterMovementState, actions: &Vec<MovementAction>) -> (acc: Folding)
    ensures
        acc == fold_actions_spec(start_spec(state), actions@),
        acc.state.grounded == state.grounded,
        state.wf() ==> acc.state.wf(),
{
    let mut acc = Folding { state, set_rotation: None };
    let mut i: usize = 0;
    while i < actions.len()
        invariant
            i <= actions.len(),
            acc == fold_actions_spec(start_spec(state), actions@.take(i as int)),
            acc.state.grounded == state.grounded,
            state.wf() ==> acc.state.wf(),
        decreases actions.len() - i,
    {
        proof {
            assert(actions@.take(i + 1).drop_last() =~= actions@.take(i as int));
        }
        acc = fold_action(acc, actions[i]);
        i += 1;
    }
    proof {
        assert(actions@.take(i as int) =~= actions@);
    }
    acc
}

/// Settles the yaw-rate intent of the tick.
pub fn resolve_rotation(acc: Folding) -> (state: CharacterMovementState)
    ensures
        state == resolve_rotation_spec(acc),
        state.grounded == acc.state.grounded,
        acc.state.direction.within_axes() ==> state.wf(),
{
    let mut state = acc.state;
    match acc.set_rotation {
        None => {
            state.apply_right_left_rotation();
        },
        Some(rotation) => {
            state.rotating = clamp_unit(rotation as i128);
        },
    }
    state
}

/// One horizontal component of the velocity.
pub fn axis_velocity(component: i64, acceleration: i64, speed: i64) -> (v: i64)
    requires
        -UNIT <= component <= UNIT,
        0 <= speed <= RUN_SPEED,
    ensures
        v == axis_velocity_spec(component as int, acceleration as int, speed as int),
{
    assert(-150000 <= component * speed <= 150000) by (nonlinear_arith)
        requires
            -1000 <= component <= 1000,
            0 <= speed <= 150,
    ;
    let scaled: i128 = component as i128 * speed as i128;
    assert(-150000 * 0x8000_0000_0000_0000 <= scaled * acceleration <= 150000
        * 0x8000_0000_0000_0000) by (nonlinear_arith)
        requires
            -150000 <= scaled <= 150000,
            -0x8000_0000_0000_0000 <= acceleration < 0x8000_0000_0000_0000,
    ;
    let product: i128 = scaled * acceleration as i128;
    let v: i128 = quot(product, UNIT as i128 * UNIT as i128);
    proof {
        lemma_quot_shrinks(product as int, UNIT * UNIT);
    }
    v as i64
}

/// Whether the jump impulse is applied to a character in `state`, and so
/// whether its vertical velocity is written.
pub fn jump_applies(state: CharacterMovementState) -> (applies: bool)
    ensures
        applies == jump_applies_spec(state),
{
    state.grounded && state.jumping
}

/// The velocity commanded for a character in `state`.
pub fn velocity_command(
    state: CharacterMovementState,
    facing: Facing,
    acceleration: MovementAcceleration,
    jump_impulse: JumpImpulse,
    previous: Velocity,
) -> (velocity: Velocity)
    requires
        state.wf(),
        facing.wf(),
    ensures
        velocity == velocity_command_spec(state, facing, acceleration, jump_impulse, previous),
{
    let direction = state.direction.clamp_length_max();
    let world = facing.rotate(direction).flattened();
    // Moving backwards is done at a walk, whatever the speed asked for.
    let speed: i64 = if world.z < 0 {
        WALK_SPEED
    } else {
        state.speed.value()
    };
    let mut velocity = previous;
    velocity.linvel.x = axis_velocity(world.x, acceleration.0, speed);
    velocity.linvel.z = axis_velocity(world.z, acceleration.0, speed);
    velocity.angvel.y = state.rotating * YAW_GAIN;
    if jump_applies(state) {
        velocity.linvel.y = jump_impulse.0;
    }
    velocity
}

/// Applies the intents of a tick to a character, on the authority only:
/// folds them into the movement state and commands the velocity that the
/// state asks for. A process without authority changes nothing.
pub fn movement(client_state: ClientState, actions: &Vec<MovementAction>, data: &mut MovementData)
    requires
        old(data).movement_state.wf(),
        old(data).facing.wf(),
    ensures
        *final(data) == movement_spec(client_state, actions@, *old(data)),
        final(data).movement_state.wf(),
        final(data).movement_state.grounded == old(data).movement_state.grounded,
{
    if !has_server_authority(client_state) {
        return ;
    }
    let folded = fold_actions(data.movement_state, actions);
    let state = resolve_rotation(folded);
    data.velocity =
    velocity_command(
        state,
        data.facing,
        data.movement_acceleration,
        data.jump_impulse,
        data.velocity,
    );
    data.movement_state = state;
}

/// Applies the intents of a tick to every controller, on the authority
/// only. The first controller folds the intents that arrived; every other
/// controller is integrated from its state as it stands.
pub fn movement_all(
    client_state: ClientState,
    actions: &Vec<MovementAction>,
    controllers: &mut Vec<MovementData>,
)
    requires
        all_well_formed(old(controllers)@),
    ensures
        final(controllers)@.len() == old(controllers)@.len(),
        forall|i: int|
            0 <= i < old(controllers)@.len() ==> #[trigger] final(controllers)@[i] == movement_spec(
                client_state,
                actions_for_spec(i, actions@),
                old(controllers)@[i],
            ),
        all_well_formed(final(controllers)@),
{
    let ghost before = controllers@;
    let none: Vec<MovementAction> = Vec::new();
    let mut i: usize = 0;
    while i < controllers.len()
        invariant
            i <= controllers@.len(),
            controllers@.len() == before.len(),
            none@.len() == 0,
            all_well_formed(before),
            forall|j: int|
                0 <= j < i ==> #[trigger] controllers@[j] == movement_spec(
                    client_state,
                    actions_for_spec(j, actions@),
                    before[j],
                ),
            forall|j: int| 0 <= j < i ==> (#[trigger] controllers@[j]).movement_state.wf(),
            forall|j: int| i <= j < before.len() ==> #[trigger] controllers@[j] == before[j],
        decreases controllers@.len() - i,
    {
        let mut data = controllers[i];
        assert(data == before[i as int]);
        if i == 0 {
            movement(client_state, actions, &mut data);
        } else {
            assert(none@ =~= Seq::<MovementAction>::empty());
            movement(client_state, &none, &mut data);
        }
        controllers.set(i, data);
        i += 1;
    }
}

} // verus!
