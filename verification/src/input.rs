//! The input collector: turns what the keyboard, the gamepads and the
//! mouse did during a tick into movement intents.

use vstd::prelude::*;
use crate::fixed::{clamp_spec, clamp_unit, quot, quot_spec, UNIT};
use crate::state::{MovementAction, SpeedPreset};
use crate::vector::Vec3;

verus! {

/// How much yaw rate one pixel of horizontal mouse motion asks for.
pub const MOUSE_SENSITIVITY: i64 = 125;

/// One flag for each key that moves a character.
#[derive(Clone, Copy, Debug, PartialEq, Eq, Structural)]
pub struct Keys {
    pub key_w: bool,
    pub arrow_up: bool,
    pub key_s: bool,
    pub arrow_down: bool,
    pub key_q: bool,
    pub key_e: bool,
    pub shift_left: bool,
    pub key_a: bool,
    pub arrow_left: bool,
    pub key_d: bool,
    pub arrow_right: bool,
    pub space: bool,
}

/// The keys that went down and the keys that went up during a tick.
#[derive(Clone, Copy, Debug, PartialEq, Eq, Structural)]
pub struct KeyboardInput {
    pub just_pressed: Keys,
    pub just_released: Keys,
}

/// What one gamepad reports in a tick: the two axes of the left stick,
/// where it has them, and the edges of its south button.
#[derive(Clone, Copy, Debug, PartialEq, Eq, Structural)]
pub struct GamepadInput {
    pub left_stick_x: Option<i64>,
    pub left_stick_y: Option<i64>,
    pub south_just_pressed: bool,
    pub south_just_released: bool,
}

/// One motion of the mouse, in thousandths of a pixel.
#[derive(Clone, Copy, Debug, PartialEq, Eq, Structural)]
pub struct MouseMotion {
    pub delta_x: i64,
    pub delta_y: i64,
}

/// `actions` followed by `action` where `condition` holds, else `actions`.
pub open spec fn emit_spec(
    actions: Seq<MovementAction>,
    condition: bool,
    action: MovementAction,
) -> Seq<MovementAction> {
    if condition {
        actions.push(action)
    } else {
        actions
    }
}

/// The intent that adds the direction with the components given.
pub open spec fn add_move_spec(x: int, y: int, z: int) -> MovementAction {
    MovementAction::AddMove(Vec3 { x: x as i64, y: y as i64, z: z as i64 })
}

/// The intents of the keys that went down, in this order: forward,
/// backward, left, right, walk, rotate left, rotate right, jump.
pub open spec fn pressed_actions_spec(keys: Keys) -> Seq<MovementAction> {
    let a = Seq::<MovementAction>::empty();
    let a = emit_spec(a, keys.key_w || keys.arrow_up, add_move_spec(0, 0, UNIT as int));
    let a = emit_spec(a, keys.key_s || keys.arrow_down, add_move_spec(0, 0, -UNIT));
    let a = emit_spec(a, keys.key_q, add_move_spec(UNIT as int, 0, 0));
    let a = emit_spec(a, keys.key_e, add_move_spec(-UNIT, 0, 0));
    let a = emit_spec(a, keys.shift_left, MovementAction::SetSpeed(SpeedPreset::Walk));
    let a = emit_spec(a, keys.key_a || keys.arrow_left, MovementAction::RotateLeft(true));
    let a = emit_spec(a, keys.key_d || keys.arrow_right, MovementAction::RotateRight(true));
    emit_spec(a, keys.space, MovementAction::SetJump(true))
}

/// The intents of the keys that went up, in the same order: each undoes
/// the intent of the key going down.
pub open spec fn released_actions_spec(keys: Keys) -> Seq<MovementAction> {
    let a = Seq::<MovementAction>::empty();
    let a = emit_spec(a, keys.key_w || keys.arrow_up, add_move_spec(0, 0, -UNIT));
    let a = emit_spec(a, keys.key_s || keys.arrow_down, add_move_spec(0, 0, UNIT as int));
    let a = emit_spec(a, keys.key_q, add_move_spec(-UNIT, 0, 0));
    let a = emit_spec(a, keys.key_e, add_move_spec(UNIT as int, 0, 0));
    let a = emit_spec(a, keys.shift_left, MovementAction::SetSpeed(SpeedPreset::Run));
    let a = emit_spec(a, keys.key_a || keys.arrow_left, MovementAction::RotateLeft(false));
    let a = emit_spec(a, keys.key_d || keys.arrow_right, MovementAction::RotateRight(false));
    emit_spec(a, keys.space, MovementAction::SetJump(false))
}

/// The intents of the keyboard in a tick: those of the keys that went
/// down, then those of the keys that went up.
pub open spec fn keyboard_input_spec(input: KeyboardInput) -> Seq<MovementAction> {
    pressed_actions_spec(input.just_pressed) + released_actions_spec(input.just_released)
}

/// The intents of one gamepad: the direction of its stick, where it has
/// both axes, then the edges of its jump button.
pub open spec fn gamepad_actions_spec(pad: GamepadInput) -> Seq<MovementAction> {
    let a = Seq::<MovementAction>::empty();
    let a = match (pad.left_stick_x, pad.left_stick_y) {
        (Some(x), Some(y)) => a.push(MovementAction::SetMove(Vec3 { x, y: 0, z: y })),
        _ => a,
    };
    let a = emit_spec(a, pad.south_just_pressed, MovementAction::SetJump(true));
    emit_spec(a, pad.south_just_released, MovementAction::SetJump(false))
}

/// The intents of the gamepads, one gamepad after the other.
pub open spec fn gamepad_input_spec(pads: Seq<GamepadInput>) -> Seq<MovementAction>
    decreases pads.len(),
{
    if pads.len() == 0 {
        Seq::empty()
    } else {
        gamepad_input_spec(pads.drop_last()) + gamepad_actions_spec(pads.last())
    }
}

/// The horizontal motion of the mouse during a tick, summed.
pub open spec fn total_delta_x_spec(motion: Seq<MouseMotion>) -> int
    decreases motion.len(),
{
    if motion.len() == 0 {
        0
    } else {
        total_delta_x_spec(motion.drop_last()) + motion.last().delta_x
    }
}

/// The yaw rate that a horizontal mouse motion asks for: against the
/// motion, in proportion to it, rounded toward zero and kept in `[-1, 1]`.
pub open spec fn look_rotation_spec(delta_x: int) -> int {
    clamp_spec(quot_spec(-delta_x * MOUSE_SENSITIVITY, UNIT as int), -UNIT as int, UNIT as int)
}

/// The intents of the mouse in a tick. Letting go of the look button asks
/// once for no rotation. While the button is up, motion is dropped. While
/// it is held, the summed motion asks for a yaw rate, which is zero where
/// the mouse did not move sideways.
pub open spec fn mouse_input_spec(
    look_just_released: bool,
    look_pressed: bool,
    motion: Seq<MouseMotion>,
) -> Seq<MovementAction> {
    if look_just_released {
        seq![MovementAction::SetRotate(0)]
    } else if !look_pressed {
        Seq::empty()
    } else {
        seq![MovementAction::SetRotate(look_rotation_spec(total_delta_x_spec(motion)) as i64)]
    }
}

/// Appends `action` where `condition` holds.
fn emit(actions: &mut Vec<MovementAction>, condition: bool, action: MovementAction)
    ensures
        final(actions)@ == emit_spec(old(actions)@, condition, action),
{
    if condition {
        actions.push(action);
    }
}

/// The intents of the keys that went down, where `down` holds, else of the
/// keys that went up.
fn key_actions(keys: Keys, down: bool) -> (actions: Vec<MovementAction>)
    ensures
        down ==> actions@ == pressed_actions_spec(keys),
        !down ==> actions@ == released_actions_spec(keys),
{
    let step: i64 = if down {
        UNIT
    } else {
        -UNIT
    };
    let speed = if down {
        SpeedPreset::Walk
    } else {
        SpeedPreset::Run
    };
    let mut actions: Vec<MovementAction> = Vec::new();
    emit(&mut actions, keys.key_w || keys.arrow_up, MovementAction::AddMove(Vec3::new(0, 0, step)));
    emit(
        &mut actions,
        keys.key_s || keys.arrow_down,
        MovementAction::AddMove(Vec3::new(0, 0, -step)),
    );
    emit(&mut actions, keys.key_q, MovementAction::AddMove(Vec3::new(step, 0, 0)));
    emit(&mut actions, keys.key_e, MovementAction::AddMove(Vec3::new(-step, 0, 0)));
    emit(&mut actions, keys.shift_left, MovementAction::SetSpeed(speed));
    emit(&mut actions, keys.key_a || keys.arrow_left, MovementAction::RotateLeft(down));
    emit(&mut actions, keys.key_d || keys.arrow_right, MovementAction::RotateRight(down));
    emit(&mut actions, keys.space, MovementAction::SetJump(down));
    actions
}

/// The movement intents of the keyboard in a tick. A key that goes down
/// adds a unit vector, selects the walk preset, latches a rotation key or
/// asks for a jump; the same key going up does the exact opposite.
pub fn keyboard_input(input: KeyboardInput) -> (actions: Vec<MovementAction>)
    ensures
        actions@ == keyboard_input_spec(input),
{
    let mut actions = key_actions(input.just_pressed, true);
    let mut released = key_actions(input.just_released, false);
    actions.append(&mut released);
    actions
}

/// The movement intents of the gamepads in a tick: each stick sets the
/// direction outright, each south button asks for a jump or ends it.
pub fn gamepad_input(pads: &Vec<GamepadInput>) -> (actions: Vec<MovementAction>)
    ensures
        actions@ == gamepad_input_spec(pads@),
{
    let mut actions: Vec<MovementAction> = Vec::new();
    let mut i: usize = 0;
    while i < pads.len()
        invariant
            i <= pads.len(),
            actions@ == gamepad_input_spec(pads@.take(i as int)),
        decreases pads.len() - i,
    {
        let pad = pads[i];
        let ghost before = actions@;
        proof {
            assert(pads@.take(i + 1).drop_last() =~= pads@.take(i as int));
        }
        match (pad.left_stick_x, pad.left_stick_y) {
            (Some(x), Some(y)) => {
                actions.push(MovementAction::SetMove(Vec3::new(x, 0, y)));
            },
            _ => {},
        }
        emit(&mut actions, pad.south_just_pressed, MovementAction::SetJump(true));
        emit(&mut actions, pad.south_just_released, MovementAction::SetJump(false));
        assert(actions@ =~= before + gamepad_actions_spec(pad));
        i += 1;
    }
    proof {
        assert(pads@.take(i as int) =~= pads@);
    }
    actions
}

/// The horizontal motion of the mouse during a tick, summed.
pub fn total_delta_x(motion: &Vec<MouseMotion>) -> (total: i128)
    ensures
        total == total_delta_x_spec(motion@),
        -0x8000_0000_0000_0000 * motion@.len() <= total <= 0x8000_0000_0000_0000 * motion@.len(),
{
    let mut total: i128 = 0;
    let mut i: usize = 0;
    while i < motion.len()
        invariant
            i <= motion.len(),
            total == total_delta_x_spec(motion@.take(i as int)),
            -0x8000_0000_0000_0000 * i <= total <= 0x8000_0000_0000_0000 * i,
        decreases motion.len() - i,
    {
        proof {
            assert(motion@.take(i + 1).drop_last() =~= motion@.take(i as int));
        }
        total = total + motion[i].delta_x as i128;
        i += 1;
    }
    proof {
        assert(motion@.take(i as int) =~= motion@);
    }
    total
}

/// The movement intents of the mouse in a tick, given whether the look
/// button went up, whether it is held, and the motions of the tick.
pub fn mouse_input(look_just_released: bool, look_pressed: bool, motion: &Vec<MouseMotion>) -> (actions:
    Vec<MovementAction>)
    ensures
        actions@ == mouse_input_spec(look_just_released, look_pressed, motion@),
{
    let mut actions: Vec<MovementAction> = Vec::new();
    if look_just_released {
        actions.push(MovementAction::SetRotate(0));
        assert(actions@ =~= seq![MovementAction::SetRotate(0)]);
        return actions;
    }
    if !look_pressed {
        return actions;
    }
    let delta_x: i128 = total_delta_x(motion);
    // Beyond ten pixels either way the rate is at its limit already.
    let bounded: i128 = if delta_x > 10000 {
        10000
    } else if delta_x < -10000 {
        -10000
    } else {
        delta_x
    };
    assert(-bounded * MOUSE_SENSITIVITY == -bounded * 125 && -1250000 <= -bounded * 125
        <= 1250000) by (nonlinear_arith)
        requires
            -10000 <= bounded <= 10000,
            MOUSE_SENSITIVITY == 125,
    ;
    let rotation: i64 = clamp_unit(quot(-bounded * MOUSE_SENSITIVITY as i128, UNIT as i128));
    assert(rotation == look_rotation_spec(delta_x as int));
    actions.push(MovementAction::SetRotate(rotation));
    assert(actions@ =~= seq![MovementAction::SetRotate(rotation)]);
    actions
}

/// The intent that undoes `action`, for the intents that a key sends: the
/// negated vector, the other speed preset, the other state of a latch.
pub open spec fn inverse_spec(action: MovementAction) -> MovementAction {
    match action {
        MovementAction::AddMove(direction) => MovementAction::AddMove(direction.negated_spec()),
        MovementAction::SetSpeed(SpeedPreset::Walk) => MovementAction::SetSpeed(SpeedPreset::Run),
        MovementAction::SetSpeed(SpeedPreset::Run) => MovementAction::SetSpeed(SpeedPreset::Walk),
        MovementAction::RotateRight(on) => MovementAction::RotateRight(!on),
        MovementAction::RotateLeft(on) => MovementAction::RotateLeft(!on),
        MovementAction::SetJump(on) => MovementAction::SetJump(!on),
        MovementAction::SetMove(direction) => MovementAction::SetMove(direction),
        MovementAction::SetRotate(rotation) => MovementAction::SetRotate(rotation),
    }
}

/// Undoing each intent of `emit_spec` is `emit_spec` of the undone intent.
pub proof fn lemma_emit_inverse(actions: Seq<MovementAction>, condition: bool, action: MovementAction)
    ensures
        emit_spec(actions, condition, action).map_values(|a: MovementAction| inverse_spec(a))
            =~= emit_spec(
            actions.map_values(|a: MovementAction| inverse_spec(a)),
            condition,
            inverse_spec(action),
        ),
{
}

/// The keys that go up send, one for one and in the same order, the exact
/// opposite of what the same keys send when they go down.
pub proof fn lemma_release_inverts_press(keys: Keys)
    ensures
        released_actions_spec(keys) == pressed_actions_spec(keys).map_values(
            |a: MovementAction| inverse_spec(a),
        ),
{
    let undo = |a: MovementAction| inverse_spec(a);
    let a0 = Seq::<MovementAction>::empty();
    let a1 = emit_spec(a0, keys.key_w || keys.arrow_up, add_move_spec(0, 0, UNIT as int));
    let a2 = emit_spec(a1, keys.key_s || keys.arrow_down, add_move_spec(0, 0, -UNIT));
    let a3 = emit_spec(a2, keys.key_q, add_move_spec(UNIT as int, 0, 0));
    let a4 = emit_spec(a3, keys.key_e, add_move_spec(-UNIT, 0, 0));
    let a5 = emit_spec(a4, keys.shift_left, MovementAction::SetSpeed(SpeedPreset::Walk));
    let a6 = emit_spec(a5, keys.key_a || keys.arrow_left, MovementAction::RotateLeft(true));
    let a7 = emit_spec(a6, keys.key_d || keys.arrow_right, MovementAction::RotateRight(true));
    assert(a0.map_values(undo) =~= a0);
    lemma_emit_inverse(a0, keys.key_w || keys.arrow_up, add_move_spec(0, 0, UNIT as int));
    lemma_emit_inverse(a1, keys.key_s || keys.arrow_down, add_move_spec(0, 0, -UNIT));
    lemma_emit_inverse(a2, keys.key_q, add_move_spec(UNIT as int, 0, 0));
    lemma_emit_inverse(a3, keys.key_e, add_move_spec(-UNIT, 0, 0));
    lemma_emit_inverse(a4, keys.shift_left, MovementAction::SetSpeed(SpeedPreset::Walk));
    lemma_emit_inverse(a5, keys.key_a || keys.arrow_left, MovementAction::RotateLeft(true));
    lemma_emit_inverse(a6, keys.key_d || keys.arrow_right, MovementAction::RotateRight(true));
    lemma_emit_inverse(a7, keys.space, MovementAction::SetJump(true));
    assert(inverse_spec(add_move_spec(0, 0, UNIT as int)) == add_move_spec(0, 0, -UNIT));
    assert(inverse_spec(add_move_spec(0, 0, -UNIT)) == add_move_spec(0, 0, UNIT as int));
    assert(inverse_spec(add_move_spec(UNIT as int, 0, 0)) == add_move_spec(-UNIT, 0, 0));
    assert(inverse_spec(add_move_spec(-UNIT, 0, 0)) == add_move_spec(UNIT as int, 0, 0));
}

} // verus!
