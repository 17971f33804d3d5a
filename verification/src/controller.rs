//! What a character controller is made of, and the damping of a
//! character that is steered by velocity alone.

use vstd::prelude::*;
use crate::fixed::{quot, quot_spec, UNIT};
use crate::ground::MaxSlopeAngle;
use crate::movement::{JumpImpulse, MovementAcceleration, Velocity};
use crate::state::CharacterMovementState;
use crate::vector::{lemma_quot_shrinks, Vec3};

verus! {

/// Marks an entity that is moved by a character controller.
#[derive(Clone, Copy, Debug, PartialEq, Eq, Structural)]
pub struct CharacterController;

/// The shape of a character's body: a capsule that stands upright.
#[derive(Clone, Copy, Debug, PartialEq, Eq, Structural)]
pub struct Collider {
    pub half_height: i64,
    pub radius: i64,
}

/// How the physics step treats a body.
#[derive(Clone, Copy, Debug, PartialEq, Eq, Structural)]
pub enum RigidBody {
    Dynamic,
    Fixed,
}

/// The axes about which a body cannot turn.
#[derive(Clone, Copy, Debug, PartialEq, Eq, Structural)]
pub struct LockedAxes {
    pub rotation_x: bool,
    pub rotation_y: bool,
    pub rotation_z: bool,
}

/// How strongly gravity pulls at a body.
#[derive(Clone, Copy, Debug, PartialEq, Eq, Structural)]
pub struct GravityScale(pub i64);

/// The factor that each damped velocity component is multiplied by in a
/// tick, in thousandths.
#[derive(Clone, Copy, Debug, PartialEq, Eq, Structural)]
pub struct MovementDampingFactor(pub i64);

/// The parameters of character movement.
#[derive(Clone, Copy, Debug, PartialEq, Eq, Structural)]
pub struct MovementBundle {
    pub acceleration: MovementAcceleration,
    pub jump_impulse: JumpImpulse,
    pub max_slope_angle: MaxSlopeAngle,
}

/// Everything a physics-driven character controller needs.
#[derive(Clone, Copy, Debug, PartialEq, Eq, Structural)]
pub struct CharacterControllerBundle {
    pub character_controller: CharacterController,
    pub collider: Collider,
    pub body: RigidBody,
    pub velocity: Velocity,
    pub locked_axes: LockedAxes,
    pub gravity_scale: GravityScale,
    pub movement_state: CharacterMovementState,
    pub movement: MovementBundle,
}

impl MovementDampingFactor {
    /// The factor is small enough for every damped component to fit its
    /// machine integer: at most one, and above minus one. A larger factor
    /// would take the largest velocities out of the integer's range.
    pub open spec fn wf(self) -> bool {
        -UNIT < self.0 <= UNIT
    }

    /// The factor given, where every velocity damped by it fits its
    /// machine integer; `None` where some would not.
    pub fn new(factor: i64) -> (f: Option<MovementDampingFactor>)
        ensures
            MovementDampingFactor(factor).wf() ==> f == Some(MovementDampingFactor(factor)),
            !MovementDampingFactor(factor).wf() ==> f.is_none(),
    {
        if -UNIT < factor && factor <= UNIT {
            Some(MovementDampingFactor(factor))
        } else {
            None
        }
    }
}

impl MovementBundle {
    /// The parameters that a controller has unless it is given others: an
    /// acceleration of thirty, a jump impulse of eight, and slopes of up
    /// to nine twentieths of a half turn.
    pub open spec fn default_spec() -> MovementBundle {
        MovementBundle {
            acceleration: MovementAcceleration(30000),
            jump_impulse: JumpImpulse(8000),
            max_slope_angle: MaxSlopeAngle(1414),
        }
    }

    /// The parameters given.
    pub fn new(acceleration: i64, jump_impulse: i64, max_slope_angle: i64) -> (bundle: MovementBundle)
        ensures
            bundle == (MovementBundle {
                acceleration: MovementAcceleration(acceleration),
                jump_impulse: JumpImpulse(jump_impulse),
                max_slope_angle: MaxSlopeAngle(max_slope_angle),
            }),
    {
        MovementBundle {
            acceleration: MovementAcceleration(acceleration),
            jump_impulse: JumpImpulse(jump_impulse),
            max_slope_angle: MaxSlopeAngle(max_slope_angle),
        }
    }
}

impl Default for MovementBundle {
    fn default() -> (bundle: MovementBundle)
        ensures
            bundle == MovementBundle::default_spec(),
    {
        MovementBundle::new(30000, 8000, 1414)
    }
}

impl CharacterControllerBundle {
    /// A controller at rest with the default movement parameters: a
    /// dynamic body that turns about the vertical axis only, in the
    /// movement state of a character at spawn.
    pub open spec fn new_spec(collider: Collider, gravity_scale: i64) -> CharacterControllerBundle {
        CharacterControllerBundle {
            character_controller: CharacterController,
            collider,
            body: RigidBody::Dynamic,
            velocity: Velocity { linvel: Vec3::zero_spec(), angvel: Vec3::zero_spec() },
            locked_axes: LockedAxes { rotation_x: true, rotation_y: false, rotation_z: true },
            gravity_scale: GravityScale(gravity_scale),
            movement_state: CharacterMovementState::default_spec(),
            movement: MovementBundle::default_spec(),
        }
    }

    /// A controller at rest with the default movement parameters.
    pub fn new(collider: Collider, gravity_scale: i64) -> (bundle: CharacterControllerBundle)
        ensures
            bundle == CharacterControllerBundle::new_spec(collider, gravity_scale),
            bundle.movement_state.wf(),
    {
        CharacterControllerBundle {
            character_controller: CharacterController,
            collider,
            body: RigidBody::Dynamic,
            velocity: Velocity { linvel: Vec3::zero(), angvel: Vec3::zero() },
            locked_axes: LockedAxes { rotation_x: true, rotation_y: false, rotation_z: true },
            gravity_scale: GravityScale(gravity_scale),
            movement_state: CharacterMovementState::default(),
            movement: MovementBundle::default(),
        }
    }

    /// The same controller with the movement parameters given.
    pub fn with_movement(self, acceleration: i64, jump_impulse: i64, max_slope_angle: i64) -> (bundle:
        CharacterControllerBundle)
        ensures
            bundle == (CharacterControllerBundle {
                movement: MovementBundle {
                    acceleration: MovementAcceleration(acceleration),
                    jump_impulse: JumpImpulse(jump_impulse),
                    max_slope_angle: MaxSlopeAngle(max_slope_angle),
                },
                ..self
            }),
    {
        let mut bundle = self;
        bundle.movement = MovementBundle::new(acceleration, jump_impulse, max_slope_angle);
        bundle
    }
}

/// A velocity component after damping: the component times the factor,
/// rounded toward zero.
pub open spec fn damped_spec(component: int, factor: int) -> int {
    quot_spec(component * factor, UNIT as int)
}

/// The velocity after damping: the horizontal components and the yaw
/// rate are scaled, everything else is kept.
pub open spec fn apply_movement_damping_spec(factor: MovementDampingFactor, velocity: Velocity) -> Velocity {
    Velocity {
        linvel: Vec3 {
            x: damped_spec(velocity.linvel.x as int, factor.0 as int) as i64,
            y: velocity.linvel.y,
            z: damped_spec(velocity.linvel.z as int, factor.0 as int) as i64,
        },
        angvel: Vec3 {
            x: velocity.angvel.x,
            y: damped_spec(velocity.angvel.y as int, factor.0 as int) as i64,
            z: velocity.angvel.z,
        },
    }
}

/// Scales one velocity component by a damping factor.
fn damped(component: i64, factor: i64) -> (r: i64)
    requires
        -UNIT < factor <= UNIT,
    ensures
        r == damped_spec(component as int, factor as int),
{
    assert(-0x8000_0000_0000_0000 * 1000 <= component * factor <= 0x8000_0000_0000_0000 * 1000
        && (factor >= 0 && component >= 0 ==> 0 <= component * factor <= component * 1000)
        && (factor >= 0 && component <= 0 ==> component * 1000 <= component * factor <= 0)
        && (factor < 0 ==> -0x8000_0000_0000_0000 * 999 <= component * factor
        <= 0x8000_0000_0000_0000 * 999)) by (nonlinear_arith)
        requires
            -0x8000_0000_0000_0000 <= component < 0x8000_0000_0000_0000,
            -1000 < factor <= 1000,
    ;
    let product: i128 = component as i128 * factor as i128;
    let r: i128 = quot(product, UNIT as i128);
    proof {
        lemma_quot_shrinks(product as int, UNIT as int);
    }
    r as i64
}

/// Scales movement in the horizontal plane and about the vertical axis by
/// the factor; falling and jumping are left alone. The factor has to be
/// well-formed for the machine's sake only: any factor whose products fit
/// is taken, one that keeps all, one that keeps nothing and one that turns
/// the velocity round included.
pub fn apply_movement_damping(factor: MovementDampingFactor, velocity: &mut Velocity)
    requires
        factor.wf(),
    ensures
        *final(velocity) == apply_movement_damping_spec(factor, *old(velocity)),
{
    velocity.linvel.x = damped(velocity.linvel.x, factor.0);
    velocity.linvel.z = damped(velocity.linvel.z, factor.0);
    velocity.angvel.y = damped(velocity.angvel.y, factor.0);
}

} // verus!
