//! Finding the movement state that drives an entity: its own, or that of
//! the nearest ancestor that has one.

use vstd::prelude::*;
use vstd::set_lib::{lemma_len_subset, lemma_subset_equality};
use std::collections::HashMap;
use crate::state::CharacterMovementState;

verus! {

broadcast use vstd::std_specs::hash::group_hash_axioms;

/// The movement state of `entity` or of its nearest ancestor that has one,
/// following at most `steps` links from child to parent; `None` where the
/// chain ends, or the steps run out, before a state is found.
pub open spec fn find_movement_state_spec(
    entity: u64,
    parents: Map<u64, u64>,
    movement_states: Map<u64, CharacterMovementState>,
    steps: nat,
) -> Option<CharacterMovementState>
    decreases steps,
{
    if movement_states.contains_key(entity) {
        Some(movement_states[entity])
    } else if steps == 0 || !parents.contains_key(entity) {
        None
    } else {
        find_movement_state_spec(parents[entity], parents, movement_states, (steps - 1) as nat)
    }
}

/// The hierarchy runs in no circle: `rank` falls from every child to its
/// parent.
pub open spec fn falls_to_parent(parents: Map<u64, u64>, rank: spec_fn(u64) -> nat) -> bool {
    forall|child: u64| #[trigger]
        parents.contains_key(child) ==> rank(parents[child]) < rank(child)
}

/// Once the entities in `visited`, all children and all ranked above
/// `entity`, together with the steps left make up for every child, more
/// steps find nothing more.
proof fn lemma_search_saturates(
    entity: u64,
    parents: Map<u64, u64>,
    movement_states: Map<u64, CharacterMovementState>,
    rank: spec_fn(u64) -> nat,
    visited: Set<u64>,
    steps: nat,
    more: nat,
)
    requires
        parents.dom().finite(),
        falls_to_parent(parents, rank),
        visited.subset_of(parents.dom()),
        forall|v: u64| visited.contains(v) ==> rank(v) > rank(entity),
        visited.len() + steps >= parents.dom().len(),
    ensures
        find_movement_state_spec(entity, parents, movement_states, steps + more)
            == find_movement_state_spec(entity, parents, movement_states, steps),
    decreases steps,
{
    lemma_len_subset(visited, parents.dom());
    if !movement_states.contains_key(entity) && parents.contains_key(entity) {
        if steps == 0 {
            lemma_subset_equality(visited, parents.dom());
            assert(visited.contains(entity));
        } else {
            let seen = visited.insert(entity);
            assert(!visited.contains(entity));
            assert(seen.len() == visited.len() + 1);
            assert forall|v: u64| seen.contains(v) implies rank(v) > rank(parents[entity]) by {
                if v != entity {
                    assert(visited.contains(v));
                }
            }
            lemma_search_saturates(
                parents[entity],
                parents,
                movement_states,
                rank,
                seen,
                (steps - 1) as nat,
                more,
            );
            assert(steps + more - 1 == (steps - 1) as nat + more);
        }
    }
}

/// In a hierarchy that runs in no circle, as many steps as there are
/// children reach every ancestor: more steps find the same.
pub proof fn lemma_search_is_complete(
    entity: u64,
    parents: Map<u64, u64>,
    movement_states: Map<u64, CharacterMovementState>,
    rank: spec_fn(u64) -> nat,
    more: nat,
)
    requires
        parents.dom().finite(),
        falls_to_parent(parents, rank),
    ensures
        find_movement_state_spec(entity, parents, movement_states, parents.len() + more)
            == find_movement_state_spec(entity, parents, movement_states, parents.len()),
{
    lemma_search_saturates(
        entity,
        parents,
        movement_states,
        rank,
        Set::empty(),
        parents.len(),
        more,
    );
}

/// The movement state that drives `entity`: its own, or that of its
/// nearest ancestor that has one. The search follows as many links as
/// there are children, which reaches every ancestor of a hierarchy
/// without a circle, and ends a search that runs in one.
pub fn find_movement_state(
    entity: u64,
    parents: &HashMap<u64, u64>,
    movement_states: &HashMap<u64, CharacterMovementState>,
) -> (found: Option<CharacterMovementState>)
    ensures
        found == find_movement_state_spec(entity, parents@, movement_states@, parents@.len()),
{
    let mut current: u64 = entity;
    let mut steps: usize = parents.len();
    loop
        invariant
            find_movement_state_spec(current, parents@, movement_states@, steps as nat)
                == find_movement_state_spec(entity, parents@, movement_states@, parents@.len()),
        decreases steps,
    {
        if let Some(state) = movement_states.get(&current) {
            return Some(*state);
        }
        if steps == 0 {
            return None;
        }
        match parents.get(&current) {
            None => {
                return None;
            },
            Some(parent) => {
                current = *parent;
                steps -= 1;
            },
        }
    }
}

} // verus!
