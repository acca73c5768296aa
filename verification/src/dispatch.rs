//! The two decisions that every keyed machine makes in the same way: what to
//! answer when no transition matches, and where to go once a handler has
//! spoken.

use vstd::prelude::*;
use crate::error::StateMachineError;
use crate::registry::DispatchPolicy;
use crate::state::State;

verus! {

/// The answer to an event for which `current` has no transition.
pub open spec fn unmatched_answer<'a, C>(
    policy: DispatchPolicy,
    current: &'a State<C>,
    event_id: usize,
) -> Result<Option<&'a State<C>>, StateMachineError> {
    match policy {
        DispatchPolicy::Strict => Err(
            StateMachineError::NoMatchingTransition { state_id: current.ident(), event_id },
        ),
        DispatchPolicy::Lenient => Ok(Some(current)),
    }
}

/// The current state after a handler has answered `outcome`: the state that
/// the handler named, or the old one where it named none.
pub open spec fn settled<C>(current: Option<State<C>>, outcome: Option<State<C>>) -> Option<
    State<C>,
> {
    match outcome {
        Some(next) => Some(next),
        None => current,
    }
}

/// Answers an event for which `current` has no transition. The strict policy
/// refuses it and names both identifiers; the lenient policy hands back the
/// current state, as if nothing had come.
pub fn unmatched<'a, C>(policy: DispatchPolicy, current: &'a State<C>, event_id: usize) -> (answer:
    Result<Option<&'a State<C>>, StateMachineError>)
    ensures
        answer == unmatched_answer(policy, current, event_id),
{
    match policy {
        DispatchPolicy::Strict => Err(
            StateMachineError::NoMatchingTransition { state_id: current.id(), event_id },
        ),
        DispatchPolicy::Lenient => Ok(Some(current)),
    }
}

/// Takes the step that a handler chose: moves `current` to the state it
/// named and hands that state out, or leaves `current` alone and hands out
/// nothing where the handler named none.
pub fn settle<C>(current: &mut Option<State<C>>, outcome: Option<State<C>>) -> (moved: Option<
    &State<C>,
>)
    ensures
        *final(current) == settled(*old(current), outcome),
        moved == match outcome {
            Some(next) => Some(&next),
            None => None,
        },
{
    match outcome {
        Some(next) => {
            *current = Some(next);
            current.as_ref()
        },
        None => None,
    }
}

} // verus!
