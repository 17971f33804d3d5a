//! The replicated movement state of a character and the intents that
//! change it.

use vstd::prelude::*;
use crate::fixed::UNIT;
use crate::vector::Vec3;

verus! {

/// The speed of the walk preset.
pub const WALK_SPEED: i64 = 50;

/// The speed of the run preset, which is also the least speed that counts
/// as running.
pub const RUN_SPEED: i64 = 150;

/// The speeds a character can be asked to move at.
#[derive(Clone, Copy, Debug, PartialEq, Eq, Structural)]
pub enum SpeedPreset {
    Walk,
    Run,
}

/// A movement intent, alive for a single tick.
#[derive(Clone, Copy, Debug, PartialEq, Eq, Structural)]
pub enum MovementAction {
    /// Adds a vector to the direction.
    AddMove(Vec3),
    /// Replaces the direction.
    SetMove(Vec3),
    /// Selects a speed preset.
    SetSpeed(SpeedPreset),
    /// Latches or releases the rotate-right key.
    RotateRight(bool),
    /// Latches or releases the rotate-left key.
    RotateLeft(bool),
    /// Asks for a yaw rate for this tick, in place of that of the rotation
    /// keys; zero asks for no rotation.
    SetRotate(i64),
    /// Latches or releases the jump request.
    SetJump(bool),
}

/// The movement state of one character, written by the authority and read
/// by every peer.
#[derive(Clone, Copy, Debug, PartialEq, Eq, Structural)]
pub struct CharacterMovementState {
    pub speed: SpeedPreset,
    pub direction: Vec3,
    pub jumping: bool,
    pub rotating: i64,
    pub rotating_right: bool,
    pub rotating_left: bool,
    pub grounded: bool,
}

impl SpeedPreset {
    /// The scalar speed of the preset.
    pub open spec fn value_spec(self) -> int {
        match self {
            SpeedPreset::Walk => WALK_SPEED as int,
            SpeedPreset::Run => RUN_SPEED as int,
        }
    }

    /// The scalar speed of the preset.
    pub fn value(self) -> (v: i64)
        ensures
            v == self.value_spec(),
    {
        match self {
            SpeedPreset::Walk => WALK_SPEED,
            SpeedPreset::Run => RUN_SPEED,
        }
    }
}

/// The yaw-rate intent that the two rotation keys ask for: minus one where
/// only "right" is latched, plus one where only "left" is, else zero.
pub open spec fn toggle_rotation_spec(rotating_right: bool, rotating_left: bool) -> int {
    if rotating_right && !rotating_left {
        -UNIT as int
    } else if rotating_left && !rotating_right {
        UNIT as int
    } else {
        0
    }
}

impl CharacterMovementState {
    /// The state of a character at spawn.
    pub open spec fn default_spec() -> CharacterMovementState {
        CharacterMovementState {
            speed: SpeedPreset::Run,
            direction: Vec3::zero_spec(),
            jumping: false,
            rotating: 0,
            rotating_right: false,
            rotating_left: false,
            grounded: true,
        }
    }

    /// The direction stays within `[-1, 1]` on each axis and the yaw-rate
    /// intent within `[-1, 1]`.
    pub open spec fn wf(self) -> bool {
        &&& self.direction.within_axes()
        &&& -UNIT <= self.rotating <= UNIT
    }

    /// The state after `direction` was added to its direction.
    pub open spec fn add_direction_spec(self, direction: Vec3) -> CharacterMovementState {
        CharacterMovementState { direction: self.direction.add_clamped_spec(direction), ..self }
    }

    /// The state after its yaw-rate intent was taken from the two rotation
    /// keys.
    pub open spec fn apply_right_left_rotation_spec(self) -> CharacterMovementState {
        CharacterMovementState {
            rotating: toggle_rotation_spec(self.rotating_right, self.rotating_left) as i64,
            ..self
        }
    }

    /// The direction is not the zero vector.
    pub open spec fn is_moving_spec(self) -> bool {
        self.direction != Vec3::zero_spec()
    }

    /// The speed is that of the run preset or above.
    pub open spec fn is_running_spec(self) -> bool {
        self.speed.value_spec() >= RUN_SPEED
    }

    /// Whether the state is well-formed.
    pub fn is_well_formed(self) -> (b: bool)
        ensures
            b == self.wf(),
    {
        self.direction.is_within_axes() && -UNIT <= self.rotating && self.rotating <= UNIT
    }

    /// Adds `direction` to the accumulated direction and clamps each axis
    /// of the sum into `[-1, 1]`.
    pub fn add_direction(&mut self, direction: Vec3)
        ensures
            *final(self) == old(self).add_direction_spec(direction),
            final(self).direction.within_axes(),
            old(self).wf() ==> final(self).wf(),
    {
        self.direction = self.direction.add_clamped(direction);
    }

    /// Takes the yaw-rate intent from the two rotation keys.
    pub fn apply_right_left_rotation(&mut self)
        ensures
            *final(self) == old(self).apply_right_left_rotation_spec(),
            old(self).direction.within_axes() ==> final(self).wf(),
    {
        if self.rotating_right && !self.rotating_left {
            self.rotating = -UNIT;
        } else if self.rotating_left && !self.rotating_right {
            self.rotating = UNIT;
        } else {
            self.rotating = 0;
        }
    }

    /// Whether the character is asked to move.
    pub fn is_moving(self) -> (b: bool)
        ensures
            b == self.is_moving_spec(),
    {
        self.direction.x != 0 || self.direction.y != 0 || self.direction.z != 0
    }

    /// Whether the direction points backwards in local space.
    pub fn is_moving_backwards(self) -> (b: bool)
        ensures
            b == (self.direction.z < 0),
    {
        self.direction.z < 0
    }

    /// Whether the speed counts as running.
    pub fn is_running(self) -> (b: bool)
        ensures
            b == self.is_running_spec(),
            b == (self.speed == SpeedPreset::Run),
    {
        self.speed.value() >= RUN_SPEED
    }
}

impl Default for CharacterMovementState {
    /// The state of a character at spawn: run preset, not moving, not
    /// turning, on the ground.
    fn default() -> (s: CharacterMovementState)
        ensures
            s == CharacterMovementState::default_spec(),
            s.wf(),
    {
        CharacterMovementState {
            speed: SpeedPreset::Run,
            direction: Vec3::zero(),
            jumping: false,
            rotating: 0,
            rotating_right: false,
            rotating_left: false,
            grounded: true,
        }
    }
}

/// Adding a vector and then its negation gives the direction back, where
/// the first sum leaves no axis out of `[-1, 1]`.
pub proof fn lemma_add_direction_reversible(state: CharacterMovementState, direction: Vec3)
    requires
        state.wf(),
        -UNIT <= state.direction.x + direction.x <= UNIT,
        -UNIT <= state.direction.y + direction.y <= UNIT,
        -UNIT <= state.direction.z + direction.z <= UNIT,
    ensures
        state.add_direction_spec(direction).add_direction_spec(direction.negated_spec()) == state,
{
}

/// After a single accumulation every axis of the direction lies within
/// `[-1, 1]`, whatever was added and whatever the direction was before.
pub proof fn lemma_add_direction_within_axes(state: CharacterMovementState, direction: Vec3)
    ensures
        state.add_direction_spec(direction).direction.within_axes(),
{
}

/// The two rotation keys resolve to minus one where only "right" is
/// latched, to plus one where only "left" is, and to zero where both or
/// neither are.
pub proof fn lemma_toggle_rotation(state: CharacterMovementState)
    ensures
        state.rotating_right && !state.rotating_left ==> state.apply_right_left_rotation_spec().rotating
            == -UNIT,
        !state.rotating_right && state.rotating_left ==> state.apply_right_left_rotation_spec().rotating
            == UNIT,
        state.rotating_right == state.rotating_left ==> state.apply_right_left_rotation_spec().rotating
            == 0,
{
}

} // verus!
