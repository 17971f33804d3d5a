//! The ground probe: where to cast the ray below a character, and what
//! the answer says about standing on the ground.

use vstd::prelude::*;
use crate::authority::{has_server_authority, has_server_authority_spec, ClientState};
use crate::fixed::UNIT;
use crate::state::CharacterMovementState;
use crate::vector::Vec3;

verus! {

/// How far below its reference point a character's feet are.
pub const PROBE_ORIGIN_TO_FOOT: i64 = 1500;

/// How far above the feet the ray starts.
pub const PROBE_MARGIN: i64 = 10;

/// How far down the ray reaches.
pub const PROBE_DISTANCE: i64 = 500;

/// The steepest slope, as an angle from level ground in thousandths of a
/// radian, that a character can stand and jump on.
#[derive(Clone, Copy, Debug, PartialEq, Eq, Structural)]
pub struct MaxSlopeAngle(pub i64);

/// A ray to cast into the physics world, and the entity whose own
/// collider the ray passes through.
#[derive(Clone, Copy, Debug, PartialEq, Eq, Structural)]
pub struct ProbeRay {
    pub origin: Vec3,
    pub direction: Vec3,
    pub max_distance: i64,
    pub exclude: u64,
}

/// What the ray hit: the angle between the surface normal and straight up,
/// in thousandths of a radian.
#[derive(Clone, Copy, Debug, PartialEq, Eq, Structural)]
pub struct SurfaceHit {
    pub normal_angle: i64,
}

/// The ray for the character `entity` at `translation`: from just above
/// its feet, straight down, a short way, past the character's own collider.
pub open spec fn probe_ray_spec(entity: u64, translation: Vec3) -> ProbeRay {
    ProbeRay {
        origin: Vec3 {
            x: translation.x,
            y: (translation.y - (PROBE_ORIGIN_TO_FOOT - PROBE_MARGIN)) as i64,
            z: translation.z,
        },
        direction: Vec3 { x: 0, y: -UNIT as i64, z: 0 },
        max_distance: PROBE_DISTANCE,
        exclude: entity,
    }
}

/// The size of `a`.
pub open spec fn abs_spec(a: int) -> int {
    if a < 0 {
        -a
    } else {
        a
    }
}

/// The character stands on the ground: the ray hit a surface, and the
/// surface is no steeper than the limit, where there is one.
pub open spec fn is_grounded_spec(hit: Option<SurfaceHit>, max_slope_angle: Option<MaxSlopeAngle>) -> bool {
    match hit {
        None => false,
        Some(surface) => match max_slope_angle {
            None => true,
            Some(limit) => abs_spec(surface.normal_angle as int) <= limit.0,
        },
    }
}

/// The ray to cast for the character `entity` at `translation`.
pub fn probe_ray(entity: u64, translation: Vec3) -> (ray: ProbeRay)
    requires
        translation.y - (PROBE_ORIGIN_TO_FOOT - PROBE_MARGIN) >= i64::MIN,
    ensures
        ray == probe_ray_spec(entity, translation),
{
    ProbeRay {
        origin: Vec3 {
            x: translation.x,
            y: translation.y - (PROBE_ORIGIN_TO_FOOT - PROBE_MARGIN),
            z: translation.z,
        },
        direction: Vec3 { x: 0, y: -UNIT, z: 0 },
        max_distance: PROBE_DISTANCE,
        exclude: entity,
    }
}

/// Whether what the ray found means standing on the ground.
pub fn is_grounded(hit: Option<SurfaceHit>, max_slope_angle: Option<MaxSlopeAngle>) -> (grounded: bool)
    ensures
        grounded == is_grounded_spec(hit, max_slope_angle),
{
    match hit {
        None => false,
        Some(surface) => match max_slope_angle {
            None => true,
            Some(limit) => {
                let angle: i128 = surface.normal_angle as i128;
                let limit: i128 = limit.0 as i128;
                -limit <= angle && angle <= limit
            },
        },
    }
}

/// The movement state after the ground probe: on the authority the
/// grounded flag says what the ray found and nothing else changes; on any
/// other process nothing changes at all.
pub open spec fn update_grounded_spec(
    client_state: ClientState,
    state: CharacterMovementState,
    hit: Option<SurfaceHit>,
    max_slope_angle: Option<MaxSlopeAngle>,
) -> CharacterMovementState {
    if has_server_authority_spec(client_state) {
        CharacterMovementState { grounded: is_grounded_spec(hit, max_slope_angle), ..state }
    } else {
        state
    }
}

/// Records in the movement state, on the authority, whether the character
/// stands on the ground. Nothing else writes the flag, and this writes
/// nothing else; a process without authority keeps the flag that was
/// replicated to it.
pub fn update_grounded(
    client_state: ClientState,
    state: &mut CharacterMovementState,
    hit: Option<SurfaceHit>,
    max_slope_angle: Option<MaxSlopeAngle>,
)
    ensures
        *final(state) == update_grounded_spec(client_state, *old(state), hit, max_slope_angle),
        old(state).wf() ==> final(state).wf(),
{
    if has_server_authority(client_state) {
        state.grounded = is_grounded(hit, max_slope_angle);
    }
}

} // verus!
