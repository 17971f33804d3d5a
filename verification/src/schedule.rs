//! The order of the stages of a tick, and the tick of one character.

use vstd::prelude::*;
use crate::authority::{has_server_authority, has_server_authority_spec, ClientState};
use crate::controller::{apply_movement_damping, apply_movement_damping_spec, MovementDampingFactor};
use crate::ground::{is_grounded_spec, update_grounded, MaxSlopeAngle, SurfaceHit};
use crate::movement::{movement, movement_spec, MovementData};
use crate::state::{CharacterMovementState, MovementAction};

verus! {

/// The stages of a tick.
#[derive(Clone, Copy, Debug, PartialEq, Eq, Structural)]
pub enum CharacterControllerSet {
    Input,
    Grounded,
    Movement,
    Damping,
}

/// The stages in the order in which a tick runs them.
pub open spec fn stage_order_spec() -> Seq<CharacterControllerSet> {
    seq![
        CharacterControllerSet::Input,
        CharacterControllerSet::Grounded,
        CharacterControllerSet::Movement,
        CharacterControllerSet::Damping,
    ]
}

/// What the stages after the input make of a character. A process without
/// authority changes nothing: it keeps the state that was replicated to it.
/// On the authority the ground probe comes first, so that the integrator
/// sees where the character stands in this tick; then the integrator; then
/// the damping, where the character has any.
pub open spec fn tick_spec(
    client_state: ClientState,
    hit: Option<SurfaceHit>,
    max_slope_angle: Option<MaxSlopeAngle>,
    actions: Seq<MovementAction>,
    damping: Option<MovementDampingFactor>,
    data: MovementData,
) -> MovementData {
    if has_server_authority_spec(client_state) {
        let probed = MovementData {
            movement_state: CharacterMovementState {
                grounded: is_grounded_spec(hit, max_slope_angle),
                ..data.movement_state
            },
            ..data
        };
        let moved = movement_spec(client_state, actions, probed);
        match damping {
            Some(factor) => MovementData {
                velocity: apply_movement_damping_spec(factor, moved.velocity),
                ..moved
            },
            None => moved,
        }
    } else {
        data
    }
}

/// The stages in the order in which a tick runs them.
pub fn stage_order() -> (stages: Vec<CharacterControllerSet>)
    ensures
        stages@ == stage_order_spec(),
{
    let mut stages: Vec<CharacterControllerSet> = Vec::new();
    stages.push(CharacterControllerSet::Input);
    stages.push(CharacterControllerSet::Grounded);
    stages.push(CharacterControllerSet::Movement);
    stages.push(CharacterControllerSet::Damping);
    assert(stages@ =~= stage_order_spec());
    stages
}

/// Runs the stages after the input on one character, given what the
/// ground probe found and the intents that arrived. Only the authority
/// writes: on any other process the character is left as it was. A damping
/// factor has to be well-formed, which the machine's integers ask for and
/// nothing else does.
pub fn tick(
    client_state: ClientState,
    hit: Option<SurfaceHit>,
    max_slope_angle: Option<MaxSlopeAngle>,
    actions: &Vec<MovementAction>,
    damping: Option<MovementDampingFactor>,
    data: &mut MovementData,
)
    requires
        old(data).movement_state.wf(),
        old(data).facing.wf(),
        damping is Some ==> damping.unwrap().wf(),
    ensures
        *final(data) == tick_spec(
            client_state,
            hit,
            max_slope_angle,
            actions@,
            damping,
            *old(data),
        ),
        final(data).movement_state.wf(),
        !has_server_authority_spec(client_state) ==> *final(data) == *old(data),
        has_server_authority_spec(client_state) ==> final(data).movement_state.grounded
            == is_grounded_spec(hit, max_slope_angle),
{
    if !has_server_authority(client_state) {
        return ;
    }
    let mut state = data.movement_state;
    update_grounded(client_state, &mut state, hit, max_slope_angle);
    data.movement_state = state;
    movement(client_state, actions, data);
    match damping {
        Some(factor) => {
            let mut velocity = data.velocity;
            apply_movement_damping(factor, &mut velocity);
            data.velocity = velocity;
        },
        None => {},
    }
}

/// A process that is a remote client, connecting or connected, keeps the
/// movement state and the velocity that were replicated to it through a
/// whole tick, whatever the ray finds and whatever intents and damping it
/// is handed.
pub proof fn lemma_client_tick_changes_nothing(
    client_state: ClientState,
    hit: Option<SurfaceHit>,
    max_slope_angle: Option<MaxSlopeAngle>,
    actions: Seq<MovementAction>,
    damping: Option<MovementDampingFactor>,
    data: MovementData,
)
    requires
        client_state != ClientState::Disconnected,
    ensures
        tick_spec(client_state, hit, max_slope_angle, actions, damping, data) == data,
{
}

} // verus!
