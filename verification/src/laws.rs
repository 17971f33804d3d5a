//! What holds of the movement integrator on every input.

use vstd::prelude::*;
use crate::fixed::{ceil_sqrt_spec, clamp_spec, UNIT};
use crate::movement::{
    axis_velocity_spec, commanded_direction_spec, effective_speed_spec, fold_action_spec,
    fold_actions_spec, jump_applies_spec, movement_spec, start_spec, tick_state_spec,
    velocity_command_spec, world_direction_spec, Folding, JumpImpulse, MovementAcceleration,
    MovementData, Velocity,
};
use crate::authority::{has_server_authority_spec, ClientState};
use crate::state::{
    toggle_rotation_spec, CharacterMovementState, MovementAction, SpeedPreset, RUN_SPEED,
    WALK_SPEED,
};
use crate::vector::{
    lemma_clamp_length_bounds, lemma_quot_shrinks, lemma_rotate_bounds, Facing, Vec3,
};

verus! {

/// Adding `v` to `base` leaves no axis out of `[-1, 1]`.
pub open spec fn sum_within_axes(base: Vec3, v: Vec3) -> bool {
    &&& -UNIT <= base.x + v.x <= UNIT
    &&& -UNIT <= base.y + v.y <= UNIT
    &&& -UNIT <= base.z + v.z <= UNIT
}

/// For each direction in turn, the intent that adds it followed by the
/// intent that adds its negation: a key pressed and released.
pub open spec fn press_release_spec(directions: Seq<Vec3>) -> Seq<MovementAction>
    decreases directions.len(),
{
    if directions.len() == 0 {
        Seq::empty()
    } else {
        press_release_spec(directions.drop_last()).push(
            MovementAction::AddMove(directions.last()),
        ).push(MovementAction::AddMove(directions.last().negated_spec()))
    }
}

/// The intents that add each direction in turn.
pub open spec fn add_moves_spec(directions: Seq<Vec3>) -> Seq<MovementAction> {
    Seq::new(directions.len(), |i: int| MovementAction::AddMove(directions[i]))
}

/// The component-wise sum of the directions.
pub open spec fn sum_spec(directions: Seq<Vec3>) -> (int, int, int)
    decreases directions.len(),
{
    if directions.len() == 0 {
        (0, 0, 0)
    } else {
        let rest = sum_spec(directions.drop_last());
        (
            rest.0 + directions.last().x,
            rest.1 + directions.last().y,
            rest.2 + directions.last().z,
        )
    }
}

/// No prefix of the directions, added to `base`, leaves an axis out of
/// `[-1, 1]`.
pub open spec fn sums_within_axes(base: Vec3, directions: Seq<Vec3>) -> bool
    decreases directions.len(),
{
    if directions.len() == 0 {
        true
    } else {
        let sum = sum_spec(directions);
        &&& sums_within_axes(base, directions.drop_last())
        &&& -UNIT <= base.x + sum.0 <= UNIT
        &&& -UNIT <= base.y + sum.1 <= UNIT
        &&& -UNIT <= base.z + sum.2 <= UNIT
    }
}

/// Folding a sequence followed by one more intent is folding the sequence
/// and then applying the intent.
pub proof fn lemma_fold_push(acc: Folding, actions: Seq<MovementAction>, action: MovementAction)
    ensures
        fold_actions_spec(acc, actions.push(action)) == fold_action_spec(
            fold_actions_spec(acc, actions),
            action,
        ),
{
    assert(actions.push(action).drop_last() =~= actions);
}

/// Any sequence of presses, each followed by its release, leaves the
/// folded state as it was, where no press takes an axis out of `[-1, 1]`.
pub proof fn lemma_press_release_reversible(acc: Folding, directions: Seq<Vec3>)
    requires
        acc.state.wf(),
        forall|i: int|
            0 <= i < directions.len() ==> sum_within_axes(
                acc.state.direction,
                #[trigger] directions[i],
            ),
    ensures
        fold_actions_spec(acc, press_release_spec(directions)) == acc,
    decreases directions.len(),
{
    if directions.len() > 0 {
        let rest = directions.drop_last();
        let v = directions.last();
        assert forall|i: int| 0 <= i < rest.len() implies sum_within_axes(
            acc.state.direction,
            #[trigger] rest[i],
        ) by {
            assert(rest[i] == directions[i]);
        }
        lemma_press_release_reversible(acc, rest);
        let pressed = press_release_spec(rest).push(MovementAction::AddMove(v));
        lemma_fold_push(acc, press_release_spec(rest), MovementAction::AddMove(v));
        lemma_fold_push(acc, pressed, MovementAction::AddMove(v.negated_spec()));
        assert(acc.state.add_direction_spec(v).add_direction_spec(v.negated_spec()) == acc.state);
    }
}

/// Any sequence of additions moves the direction by the sum of what was
/// added, where no prefix takes an axis out of `[-1, 1]`; so additions
/// that sum to zero, in whatever order, give the direction back.
pub proof fn lemma_accumulation_is_sum(acc: Folding, directions: Seq<Vec3>)
    requires
        acc.state.wf(),
        sums_within_axes(acc.state.direction, directions),
    ensures
        fold_actions_spec(acc, add_moves_spec(directions)) == (Folding {
            state: CharacterMovementState {
                direction: Vec3 {
                    x: (acc.state.direction.x + sum_spec(directions).0) as i64,
                    y: (acc.state.direction.y + sum_spec(directions).1) as i64,
                    z: (acc.state.direction.z + sum_spec(directions).2) as i64,
                },
                ..acc.state
            },
            ..acc
        }),
        sum_spec(directions) == (0int, 0int, 0int) ==> fold_actions_spec(
            acc,
            add_moves_spec(directions),
        ) == acc,
    decreases directions.len(),
{
    if directions.len() > 0 {
        let rest = directions.drop_last();
        lemma_accumulation_is_sum(acc, rest);
        assert(add_moves_spec(directions).drop_last() =~= add_moves_spec(rest));
        assert(add_moves_spec(directions).last() == MovementAction::AddMove(directions.last()));
        let before = fold_actions_spec(acc, add_moves_spec(rest));
        let sum = sum_spec(rest);
        reveal_with_fuel(sums_within_axes, 2);
        reveal_with_fuel(sum_spec, 2);
        assert(-UNIT <= acc.state.direction.x + sum.0 <= UNIT && -UNIT <= acc.state.direction.y
            + sum.1 <= UNIT && -UNIT <= acc.state.direction.z + sum.2 <= UNIT);
        assert(fold_actions_spec(acc, add_moves_spec(directions)) == fold_action_spec(
            before,
            MovementAction::AddMove(directions.last()),
        ));
    } else {
        assert(add_moves_spec(directions).len() == 0);
    }
}

/// The two intents write the same field, and that field is not the
/// direction accumulated by additions.
pub open spec fn same_scalar_spec(first: MovementAction, second: MovementAction) -> bool {
    ||| first is SetMove && second is SetMove
    ||| first is SetSpeed && second is SetSpeed
    ||| first is RotateRight && second is RotateRight
    ||| first is RotateLeft && second is RotateLeft
    ||| first is SetRotate && second is SetRotate
    ||| first is SetJump && second is SetJump
}

/// Of two intents that write the same field the last one wins; so an
/// intent that is not an addition, delivered twice, does what it does
/// delivered once, and a release without a press changes nothing.
pub proof fn lemma_last_write_wins(acc: Folding, first: MovementAction, second: MovementAction)
    requires
        same_scalar_spec(first, second),
    ensures
        fold_action_spec(fold_action_spec(acc, first), second) == fold_action_spec(acc, second),
        fold_action_spec(fold_action_spec(acc, second), second) == fold_action_spec(acc, second),
        !acc.state.jumping ==> fold_action_spec(acc, MovementAction::SetJump(false)) == acc,
        !acc.state.rotating_left ==> fold_action_spec(acc, MovementAction::RotateLeft(false))
            == acc,
        !acc.state.rotating_right ==> fold_action_spec(acc, MovementAction::RotateRight(false))
            == acc,
{
}

/// Folding keeps a well-formed state well-formed, and never touches the
/// grounded flag.
pub proof fn lemma_fold_preserves(acc: Folding, actions: Seq<MovementAction>)
    requires
        acc.state.wf(),
    ensures
        fold_actions_spec(acc, actions).state.wf(),
        fold_actions_spec(acc, actions).state.grounded == acc.state.grounded,
    decreases actions.len(),
{
    if actions.len() > 0 {
        lemma_fold_preserves(acc, actions.drop_last());
    }
}

/// After the intents of a tick, whatever they are, the direction lies
/// within `[-1, 1]` on each axis and the yaw-rate intent within `[-1, 1]`;
/// the direction that is commanded, in local and in world space, is of
/// unit length at most; and the grounded flag is as it was.
pub proof fn lemma_tick_bounds(
    state: CharacterMovementState,
    actions: Seq<MovementAction>,
    facing: Facing,
)
    requires
        state.wf(),
        facing.wf(),
    ensures
        tick_state_spec(state, actions).wf(),
        tick_state_spec(state, actions).grounded == state.grounded,
        commanded_direction_spec(tick_state_spec(state, actions)).within_unit_length(),
        world_direction_spec(tick_state_spec(state, actions), facing).within_unit_length(),
{
    lemma_fold_preserves(start_spec(state), actions);
    lemma_command_bounds(tick_state_spec(state, actions), facing);
}

/// The direction commanded for a well-formed state is of unit length at
/// most, in local and in world space.
pub proof fn lemma_command_bounds(state: CharacterMovementState, facing: Facing)
    requires
        state.wf(),
        facing.wf(),
    ensures
        commanded_direction_spec(state).within_axes(),
        commanded_direction_spec(state).within_unit_length(),
        world_direction_spec(state, facing).within_axes(),
        world_direction_spec(state, facing).within_unit_length(),
{
    if !state.direction.within_unit_length() {
        lemma_clamp_length_bounds(state.direction);
    }
    let local = commanded_direction_spec(state);
    lemma_rotate_bounds(facing, local);
    let turned = facing.rotate_spec(local);
    assert(turned.y * turned.y >= 0) by (nonlinear_arith);
    assert(turned.flattened_spec().norm_squared() <= turned.norm_squared());
}

/// The jump impulse replaces the vertical velocity exactly when the
/// character stands on the ground and a jump is asked for; otherwise the
/// vertical velocity is left as it was.
pub proof fn lemma_jump_rule(
    state: CharacterMovementState,
    facing: Facing,
    acceleration: MovementAcceleration,
    jump_impulse: JumpImpulse,
    previous: Velocity,
)
    ensures
        jump_applies_spec(state) == (state.grounded && state.jumping),
        jump_applies_spec(state) ==> velocity_command_spec(
            state,
            facing,
            acceleration,
            jump_impulse,
            previous,
        ).linvel.y == jump_impulse.0,
        !jump_applies_spec(state) ==> velocity_command_spec(
            state,
            facing,
            acceleration,
            jump_impulse,
            previous,
        ).linvel.y == previous.linvel.y,
{
}

/// A jump request stays latched until it is released: a tick without an
/// intent that sets the jump flag leaves the flag as it was, whether or
/// not the jump impulse was applied.
pub proof fn lemma_jump_stays_latched(state: CharacterMovementState, actions: Seq<MovementAction>)
    requires
        forall|i: int| 0 <= i < actions.len() ==> !(#[trigger] actions[i] is SetJump),
    ensures
        tick_state_spec(state, actions).jumping == state.jumping,
{
    lemma_fold_without_set_jump(start_spec(state), actions);
}

/// Folding intents none of which sets the jump flag leaves the flag as it
/// was.
pub proof fn lemma_fold_without_set_jump(acc: Folding, actions: Seq<MovementAction>)
    requires
        forall|i: int| 0 <= i < actions.len() ==> !(#[trigger] actions[i] is SetJump),
    ensures
        fold_actions_spec(acc, actions).state.jumping == acc.state.jumping,
    decreases actions.len(),
{
    if actions.len() > 0 {
        let rest = actions.drop_last();
        assert forall|i: int| 0 <= i < rest.len() implies !(#[trigger] rest[i] is SetJump) by {
            assert(rest[i] == actions[i]);
        }
        lemma_fold_without_set_jump(acc, rest);
        assert(!(actions[actions.len() - 1] is SetJump));
    }
}

/// Folding intents none of which asks for a yaw rate leaves the rate asked
/// for at what it was.
pub proof fn lemma_fold_without_set_rotate(acc: Folding, actions: Seq<MovementAction>)
    requires
        forall|i: int| 0 <= i < actions.len() ==> !(#[trigger] actions[i] is SetRotate),
    ensures
        fold_actions_spec(acc, actions).set_rotation == acc.set_rotation,
    decreases actions.len(),
{
    if actions.len() > 0 {
        let rest = actions.drop_last();
        assert forall|i: int| 0 <= i < rest.len() implies !(#[trigger] rest[i] is SetRotate) by {
            assert(rest[i] == actions[i]);
        }
        lemma_fold_without_set_rotate(acc, rest);
        assert(!(actions[actions.len() - 1] is SetRotate));
    }
}

/// A yaw rate that is asked for, zero included, overrides the two rotation
/// keys for the tick: where the last intent of the tick that asks for one
/// asks for `rotation`, and none follows it, the yaw-rate intent is
/// `rotation` clamped into `[-1, 1]`, whatever keys are latched.
pub proof fn lemma_explicit_rotation_overrides(
    state: CharacterMovementState,
    before: Seq<MovementAction>,
    rotation: i64,
    after: Seq<MovementAction>,
)
    requires
        forall|i: int| 0 <= i < after.len() ==> !(#[trigger] after[i] is SetRotate),
    ensures
        tick_state_spec(
            state,
            before.push(MovementAction::SetRotate(rotation)) + after,
        ).rotating == clamp_spec(rotation as int, -UNIT as int, UNIT as int),
        rotation == 0 ==> tick_state_spec(
            state,
            before.push(MovementAction::SetRotate(rotation)) + after,
        ).rotating == 0,
{
    let asked = before.push(MovementAction::SetRotate(rotation));
    lemma_fold_push(start_spec(state), before, MovementAction::SetRotate(rotation));
    lemma_fold_concat(start_spec(state), asked, after);
    lemma_fold_without_set_rotate(fold_actions_spec(start_spec(state), asked), after);
}

/// Folding one sequence after another is folding the second from where
/// the first ended.
pub proof fn lemma_fold_concat(
    acc: Folding,
    first: Seq<MovementAction>,
    second: Seq<MovementAction>,
)
    ensures
        fold_actions_spec(acc, first + second) == fold_actions_spec(
            fold_actions_spec(acc, first),
            second,
        ),
    decreases second.len(),
{
    if second.len() == 0 {
        assert(first + second =~= first);
    } else {
        assert((first + second).drop_last() =~= first + second.drop_last());
        assert((first + second).last() == second.last());
        lemma_fold_concat(acc, first, second.drop_last());
    }
}

/// In a tick without an explicit yaw rate, the yaw-rate intent is that of
/// the two rotation keys as the tick leaves them: minus one for "right"
/// alone, plus one for "left" alone, zero for both or neither.
pub proof fn lemma_rotation_from_keys(state: CharacterMovementState, actions: Seq<MovementAction>)
    requires
        forall|i: int| 0 <= i < actions.len() ==> !(#[trigger] actions[i] is SetRotate),
    ensures
        ({
            let after = tick_state_spec(state, actions);
            &&& after.rotating == toggle_rotation_spec(after.rotating_right, after.rotating_left)
            &&& after.rotating_right && !after.rotating_left ==> after.rotating == -UNIT
            &&& !after.rotating_right && after.rotating_left ==> after.rotating == UNIT
            &&& after.rotating_right == after.rotating_left ==> after.rotating == 0
        }),
{
    lemma_fold_without_set_rotate(start_spec(state), actions);
}

/// A component of the velocity changes sign, and nothing else, with the
/// component of the direction.
pub proof fn lemma_axis_velocity_odd(component: int, acceleration: int, speed: int)
    ensures
        axis_velocity_spec(-component, acceleration, speed) == -axis_velocity_spec(
            component,
            acceleration,
            speed,
        ),
{
    assert(((-component) * speed) * acceleration == -((component * speed) * acceleration))
        by (nonlinear_arith);
    lemma_quot_shrinks((component * speed) * acceleration, UNIT * UNIT);
}

/// A direction that points backwards in world space is followed at the
/// speed of the walk preset whatever the speed of the state: the
/// horizontal velocity is that of the walk preset, and it is the exact
/// opposite, so of the same size, of the velocity of the opposite
/// direction followed at a walk.
pub proof fn lemma_backward_is_walk(world: Vec3, speed: SpeedPreset, acceleration: int)
    requires
        world.within_axes(),
        world.z < 0,
    ensures
        effective_speed_spec(world, speed) == WALK_SPEED,
        effective_speed_spec(world.negated_spec(), SpeedPreset::Walk) == WALK_SPEED,
        axis_velocity_spec(world.x as int, acceleration, effective_speed_spec(world, speed))
            == -axis_velocity_spec(
            world.negated_spec().x as int,
            acceleration,
            effective_speed_spec(world.negated_spec(), SpeedPreset::Walk),
        ),
        axis_velocity_spec(world.z as int, acceleration, effective_speed_spec(world, speed))
            == -axis_velocity_spec(
            world.negated_spec().z as int,
            acceleration,
            effective_speed_spec(world.negated_spec(), SpeedPreset::Walk),
        ),
{
    lemma_axis_velocity_odd(world.x as int, acceleration, WALK_SPEED as int);
    lemma_axis_velocity_odd(world.z as int, acceleration, WALK_SPEED as int);
}

/// A component of the velocity fits the machine integer that holds it.
pub proof fn lemma_axis_velocity_fits(component: int, acceleration: int, speed: int)
    requires
        -UNIT <= component <= UNIT,
        0 <= speed <= RUN_SPEED,
        i64::MIN <= acceleration <= i64::MAX,
    ensures
        i64::MIN <= axis_velocity_spec(component, acceleration, speed) <= i64::MAX,
{
    let scaled = component * speed;
    assert(-150000 <= scaled <= 150000) by (nonlinear_arith)
        requires
            scaled == component * speed,
            -1000 <= component <= 1000,
            0 <= speed <= 150,
    ;
    assert(-150000 * 0x8000_0000_0000_0000 <= scaled * acceleration <= 150000
        * 0x8000_0000_0000_0000) by (nonlinear_arith)
        requires
            -150000 <= scaled <= 150000,
            -0x8000_0000_0000_0000 <= acceleration < 0x8000_0000_0000_0000,
    ;
    lemma_quot_shrinks(scaled * acceleration, UNIT * UNIT);
}

/// The state that asks for the opposite direction.
pub open spec fn reversed_spec(state: CharacterMovementState) -> CharacterMovementState {
    CharacterMovementState { direction: state.direction.negated_spec(), ..state }
}

/// Asking for the opposite direction commands the opposite direction, in
/// local and in world space: shortening and turning change sign with the
/// vector and nothing else.
pub proof fn lemma_reversed_command(state: CharacterMovementState, facing: Facing)
    requires
        state.wf(),
        facing.wf(),
    ensures
        commanded_direction_spec(reversed_spec(state)) == commanded_direction_spec(
            state,
        ).negated_spec(),
        world_direction_spec(reversed_spec(state), facing) == world_direction_spec(
            state,
            facing,
        ).negated_spec(),
{
    let d = state.direction;
    let nd = d.negated_spec();
    let u = UNIT as int;
    assert(nd.norm_squared() == d.norm_squared()) by (nonlinear_arith)
        requires
            nd.x == -d.x,
            nd.y == -d.y,
            nd.z == -d.z,
            nd.norm_squared() == nd.x * nd.x + nd.y * nd.y + nd.z * nd.z,
            d.norm_squared() == d.x * d.x + d.y * d.y + d.z * d.z,
    ;
    if !d.within_unit_length() {
        lemma_clamp_length_bounds(d);
        lemma_clamp_length_bounds(nd);
        let l = ceil_sqrt_spec(d.norm_squared());
        assert(nd.x * u == -(d.x * u) && nd.y * u == -(d.y * u) && nd.z * u == -(d.z * u))
            by (nonlinear_arith)
            requires
                nd.x == -d.x,
                nd.y == -d.y,
                nd.z == -d.z,
        ;
        lemma_quot_shrinks(d.x * u, l);
        lemma_quot_shrinks(d.y * u, l);
        lemma_quot_shrinks(d.z * u, l);
    }
    let v = commanded_direction_spec(state);
    let nv = commanded_direction_spec(reversed_spec(state));
    assert(nv == v.negated_spec());
    lemma_command_bounds(state, facing);
    lemma_rotate_bounds(facing, v);
    lemma_rotate_bounds(facing, nv);
    let c = facing.cos as int;
    let s = facing.sin as int;
    assert(c * nv.x + s * nv.z == -(c * v.x + s * v.z) && c * nv.z - s * nv.x == -(c * v.z - s
        * v.x)) by (nonlinear_arith)
        requires
            nv.x == -v.x,
            nv.z == -v.z,
    ;
    lemma_quot_shrinks(c * v.x + s * v.z, u);
    lemma_quot_shrinks(c * v.z - s * v.x, u);
}

/// Running backwards is walking: where the commanded direction points
/// backwards in world space, the horizontal velocity is that of the same
/// state at the walk preset, and it is the exact opposite, so of the same
/// size, of the velocity of the opposite direction walked forwards.
pub proof fn lemma_backward_run_is_forward_walk(
    state: CharacterMovementState,
    facing: Facing,
    acceleration: MovementAcceleration,
    jump_impulse: JumpImpulse,
    previous: Velocity,
)
    requires
        state.wf(),
        facing.wf(),
        world_direction_spec(state, facing).z < 0,
    ensures
        ({
            let walked = CharacterMovementState { speed: SpeedPreset::Walk, ..state };
            let backward = velocity_command_spec(state, facing, acceleration, jump_impulse, previous);
            let same = velocity_command_spec(walked, facing, acceleration, jump_impulse, previous);
            let forward = velocity_command_spec(
                reversed_spec(walked),
                facing,
                acceleration,
                jump_impulse,
                previous,
            );
            &&& backward.linvel == same.linvel
            &&& forward.linvel.x == -backward.linvel.x
            &&& forward.linvel.z == -backward.linvel.z
        }),
{
    let walked = CharacterMovementState { speed: SpeedPreset::Walk, ..state };
    let world = world_direction_spec(state, facing);
    assert(world_direction_spec(walked, facing) == world);
    lemma_reversed_command(walked, facing);
    lemma_command_bounds(state, facing);
    let a = acceleration.0 as int;
    lemma_axis_velocity_odd(world.x as int, a, WALK_SPEED as int);
    lemma_axis_velocity_odd(world.z as int, a, WALK_SPEED as int);
    lemma_axis_velocity_fits(world.x as int, a, WALK_SPEED as int);
    lemma_axis_velocity_fits(world.z as int, a, WALK_SPEED as int);
    lemma_axis_velocity_fits(-world.x, a, WALK_SPEED as int);
    lemma_axis_velocity_fits(-world.z, a, WALK_SPEED as int);
}

/// A process that is a remote client, connecting or connected, changes
/// neither movement state nor velocity, whatever intents it is handed.
pub proof fn lemma_client_changes_nothing(
    client_state: ClientState,
    actions: Seq<MovementAction>,
    data: MovementData,
)
    requires
        client_state != ClientState::Disconnected,
    ensures
        !has_server_authority_spec(client_state),
        movement_spec(client_state, actions, data) == data,
{
}

} // verus!
