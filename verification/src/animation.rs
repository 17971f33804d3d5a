//! The locomotion classifier: which animation a character plays.

use vstd::prelude::*;
use crate::movement::Velocity;
use crate::state::CharacterMovementState;
use crate::vector::Vec3;

verus! {

/// How long a change of animation cross-fades, in milliseconds.
pub const BLEND_MILLIS: u64 = 250;

/// The squared horizontal speed above which a character walks.
pub const WALK_SPEED_SQUARED: u128 = 2000000;

/// The squared horizontal speed from which a character runs.
pub const RUN_SPEED_SQUARED: u128 = 24000000;

/// The locomotion categories.
#[derive(Clone, Copy, Debug, PartialEq, Eq, Structural)]
pub enum CharacterAnimation {
    Idle,
    Walk,
    Run,
    Fall,
}

/// The category that was last applied to a character.
#[derive(Clone, Copy, Debug, PartialEq, Eq, Structural)]
pub struct CurrentAnimation(pub CharacterAnimation);

/// A call to the animation backend: play the clip at `index`, looping,
/// cross-fading from the clip before over `blend_millis`.
#[derive(Clone, Copy, Debug, PartialEq, Eq, Structural)]
pub struct PlayCommand {
    pub index: usize,
    pub blend_millis: u64,
    pub repeat: bool,
}

impl CharacterAnimation {
    /// The place of the category's clip among the clips of a character.
    pub open spec fn index_spec(self) -> int {
        match self {
            CharacterAnimation::Idle => 0,
            CharacterAnimation::Walk => 1,
            CharacterAnimation::Run => 2,
            CharacterAnimation::Fall => 3,
        }
    }

    /// The place of the category's clip among the clips of a character.
    pub fn index(self) -> (i: usize)
        ensures
            i == self.index_spec(),
    {
        match self {
            CharacterAnimation::Idle => 0,
            CharacterAnimation::Walk => 1,
            CharacterAnimation::Run => 2,
            CharacterAnimation::Fall => 3,
        }
    }
}

/// The direction has a horizontal component.
pub open spec fn moves_horizontally_spec(state: CharacterMovementState) -> bool {
    state.direction.x != 0 || state.direction.z != 0
}

/// The category of a movement state: falling off the ground, whatever
/// else holds; on the ground idle without a horizontal direction, else
/// running at running speed, else walking.
pub open spec fn classify_spec(state: CharacterMovementState) -> CharacterAnimation {
    if !state.grounded {
        CharacterAnimation::Fall
    } else if !moves_horizontally_spec(state) {
        CharacterAnimation::Idle
    } else if state.is_running_spec() {
        CharacterAnimation::Run
    } else {
        CharacterAnimation::Walk
    }
}

/// The category of a squared horizontal speed, for a peer that has no
/// movement state: falling off the ground; on the ground idle up to the
/// walk threshold, running from the run threshold, walking between the
/// two.
pub open spec fn classify_speed_spec(grounded: bool, speed_squared: int) -> CharacterAnimation {
    if !grounded {
        CharacterAnimation::Fall
    } else if speed_squared <= WALK_SPEED_SQUARED {
        CharacterAnimation::Idle
    } else if speed_squared < RUN_SPEED_SQUARED {
        CharacterAnimation::Walk
    } else {
        CharacterAnimation::Run
    }
}

/// The call that starts `animation`.
pub open spec fn play_spec(animation: CharacterAnimation) -> PlayCommand {
    PlayCommand { index: animation.index_spec() as usize, blend_millis: BLEND_MILLIS, repeat: true }
}

/// The call on a change to `next`: none where `next` is applied already.
pub open spec fn transition_spec(current: CurrentAnimation, next: CharacterAnimation) -> Option<
    PlayCommand,
> {
    if current.0 == next {
        None
    } else {
        Some(play_spec(next))
    }
}

/// The category of a movement state.
pub fn classify(state: CharacterMovementState) -> (animation: CharacterAnimation)
    ensures
        animation == classify_spec(state),
{
    if !state.grounded {
        CharacterAnimation::Fall
    } else if state.direction.x == 0 && state.direction.z == 0 {
        CharacterAnimation::Idle
    } else if state.is_running() {
        CharacterAnimation::Run
    } else {
        CharacterAnimation::Walk
    }
}

/// The category of a squared horizontal speed.
pub fn classify_speed(grounded: bool, speed_squared: u128) -> (animation: CharacterAnimation)
    ensures
        animation == classify_speed_spec(grounded, speed_squared as int),
{
    if !grounded {
        CharacterAnimation::Fall
    } else if speed_squared <= WALK_SPEED_SQUARED {
        CharacterAnimation::Idle
    } else if speed_squared < RUN_SPEED_SQUARED {
        CharacterAnimation::Walk
    } else {
        CharacterAnimation::Run
    }
}

/// The squared horizontal speed of a velocity: the squares of its two
/// horizontal components, summed. Falling and jumping do not count.
pub open spec fn horizontal_speed_squared_spec(velocity: Vec3) -> int {
    velocity.x * velocity.x + velocity.z * velocity.z
}

/// The squared horizontal speed of a velocity.
pub fn horizontal_speed_squared(velocity: Vec3) -> (n: u128)
    ensures
        n == horizontal_speed_squared_spec(velocity),
{
    assert(0 <= velocity.x * velocity.x <= 0x8000_0000_0000_0000 * 0x8000_0000_0000_0000)
        by (nonlinear_arith)
        requires
            -0x8000_0000_0000_0000 <= velocity.x <= 0x8000_0000_0000_0000,
    ;
    assert(0 <= velocity.z * velocity.z <= 0x8000_0000_0000_0000 * 0x8000_0000_0000_0000)
        by (nonlinear_arith)
        requires
            -0x8000_0000_0000_0000 <= velocity.z <= 0x8000_0000_0000_0000,
    ;
    let x: i128 = velocity.x as i128 * velocity.x as i128;
    let z: i128 = velocity.z as i128 * velocity.z as i128;
    x as u128 + z as u128
}

/// The animation of a character that has just appeared: idle, looping
/// from time zero, together with the call that starts it.
pub fn play_animation_when_ready() -> (started: (CurrentAnimation, PlayCommand))
    ensures
        started.0 == CurrentAnimation(CharacterAnimation::Idle),
        started.1 == (PlayCommand { index: 0, blend_millis: 0, repeat: true }),
{
    (
        CurrentAnimation(CharacterAnimation::Idle),
        PlayCommand { index: CharacterAnimation::Idle.index(), blend_millis: 0, repeat: true },
    )
}

/// Applies `next`: where it differs from the category applied, records it
/// and returns the call that plays it; where it does not, does nothing.
pub fn transition(current: &mut CurrentAnimation, next: CharacterAnimation) -> (command: Option<
    PlayCommand,
>)
    ensures
        command == transition_spec(*old(current), next),
        final(current).0 == next,
{
    if current.0 == next {
        return None;
    }
    current.0 = next;
    Some(PlayCommand { index: next.index(), blend_millis: BLEND_MILLIS, repeat: true })
}

/// Brings the animation of a character up to date with its movement
/// state, and returns the call to make, if any.
pub fn update_animation(current: &mut CurrentAnimation, state: CharacterMovementState) -> (command:
    Option<PlayCommand>)
    ensures
        command == transition_spec(*old(current), classify_spec(state)),
        final(current).0 == classify_spec(state),
{
    transition(current, classify(state))
}

/// Brings the animation of a character up to date with the horizontal
/// part of its velocity, for a peer that has no movement state, and
/// returns the call to make, if any.
pub fn update_animation_from_velocity(
    current: &mut CurrentAnimation,
    grounded: bool,
    velocity: Velocity,
) -> (command: Option<PlayCommand>)
    ensures
        command == transition_spec(
            *old(current),
            classify_speed_spec(grounded, horizontal_speed_squared_spec(velocity.linvel)),
        ),
        final(current).0 == classify_speed_spec(grounded, horizontal_speed_squared_spec(velocity.linvel)),
{
    transition(current, classify_speed(grounded, horizontal_speed_squared(velocity.linvel)))
}

/// A category that is applied is not played again: once a change to
/// `next` was made, from whatever category, a second change to `next`
/// makes no call.
pub proof fn lemma_no_replay(current: CurrentAnimation, next: CharacterAnimation)
    ensures
        transition_spec(CurrentAnimation(next), next).is_none(),
        transition_spec(current, next).is_some() <==> current.0 != next,
        transition_spec(current, next).is_some() ==> transition_spec(current, next).unwrap().repeat
            && transition_spec(current, next).unwrap().blend_millis == BLEND_MILLIS,
{
}

/// Off the ground the category is falling, whatever the direction, the
/// speed preset or the squared speed.
pub proof fn lemma_airborne_falls(state: CharacterMovementState, speed_squared: int)
    ensures
        !state.grounded ==> classify_spec(state) == CharacterAnimation::Fall,
        classify_speed_spec(false, speed_squared) == CharacterAnimation::Fall,
{
}

} // verus!
