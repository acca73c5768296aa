//! A machine keyed by the payloads themselves: states and events are plain
//! values, and a handler is a function from the current state and the event
//! to the next state. An event without a handler is ignored.

use vstd::prelude::*;
use std::collections::HashMap;
use std::hash::Hash;
use std::marker::PhantomData;
use vstd::std_specs::hash::obeys_key_model;
use crate::error::StateMachineError;

verus! {

/// Whether `function` may be called on every state and event, as a plain
/// function is.
pub open spec fn total<S, E, F: Fn(&S, E) -> S>(function: F) -> bool {
    forall|s: &S, e: E| call_requires(function, (s, e))
}

/// The handlers of one state, by event.
#[verifier::reject_recursive_types(S)]
#[verifier::reject_recursive_types(E)]
pub struct StateMachineTransitions<S, E, F: Fn(&S, E) -> S> {
    map: HashMap<E, F>,
    state: PhantomData<S>,
}

impl<S, E, F: Fn(&S, E) -> S> StateMachineTransitions<S, E, F> {
    #[verifier::type_invariant]
    spec fn inv(self) -> bool {
        forall|e: E| #[trigger] self.map@.contains_key(e) ==> total::<S, E, F>(self.map@[e])
    }
}

impl<S, E: Hash + Eq, F: Fn(&S, E) -> S> StateMachineTransitions<S, E, F> {
    /// The handlers, by event.
    pub closed spec fn handlers(&self) -> Map<E, F> {
        self.map@
    }

    fn new() -> (transitions: Self)
        ensures
            transitions.handlers() == Map::<E, F>::empty(),
    {
        StateMachineTransitions { map: HashMap::new(), state: PhantomData }
    }

    fn with(self, event: E, function: F) -> (transitions: Self)
        requires
            obeys_key_model::<E>(),
            total::<S, E, F>(function),
        ensures
            transitions.handlers() == self.handlers().insert(event, function),
    {
        proof {
            use_type_invariant(&self);
        }
        let mut map = self.map;
        map.insert(event, function);
        StateMachineTransitions { map, state: PhantomData }
    }

    fn get(&self, event: &E) -> (found: Option<&F>)
        requires
            obeys_key_model::<E>(),
        ensures
            found == if self.handlers().contains_key(*event) {
                Some(&self.handlers()[*event])
            } else {
                None
            },
            found matches Some(function) ==> total::<S, E, F>(*function),
    {
        proof {
            use_type_invariant(self);
        }
        self.map.get(event)
    }
}

/// A machine over plain states and events. It starts without a current
/// state, and ignores an event that its current state has no handler for.
#[verifier::reject_recursive_types(S)]
#[verifier::reject_recursive_types(E)]
pub struct StateMachine<S, E, F: Fn(&S, E) -> S> {
    states: Vec<S>,
    current: Option<S>,
    transitions: HashMap<S, StateMachineTransitions<S, E, F>>,
}

impl<S: Hash + Eq, E: Hash + Eq, F: Fn(&S, E) -> S> StateMachine<S, E, F> {
    /// The states that were announced with `add_states`, in order.
    pub closed spec fn states(&self) -> Seq<S> {
        self.states@
    }

    /// The state that the machine is in, once it has one.
    pub closed spec fn current(&self) -> Option<S> {
        self.current
    }

    /// The registered handlers, by state and event.
    pub closed spec fn handlers(&self) -> Map<(S, E), F> {
        Map::new(
            |k: (S, E)|
                self.transitions@.contains_key(k.0) && self.transitions@[k.0].handlers().contains_key(
                    k.1,
                ),
            |k: (S, E)| self.transitions@[k.0].handlers()[k.1],
        )
    }

    /// Whether registering `function` for `event` in `state` with this
    /// machine gives `after`.
    pub open spec fn adds(&self, state: S, event: E, function: F, after: Self) -> bool {
        &&& after.handlers() == self.handlers().insert((state, event), function)
        &&& after.current() == self.current()
        &&& after.states() == self.states()
    }

    /// Whether an attempt to set the initial state of this machine to
    /// `state` gives `after`, accepted or refused.
    pub open spec fn initialises(&self, state: S, after: Self, accepted: bool) -> bool {
        &&& accepted == self.current() is None
        &&& after.current() == if accepted {
            Some(state)
        } else {
            self.current()
        }
        &&& after.states() == self.states()
        &&& after.handlers() == self.handlers()
    }

    /// Whether feeding `event` to this machine may leave it in state `after`.
    pub open spec fn steps(&self, event: E, after: Option<S>) -> bool {
        match self.current() {
            None => after is None,
            Some(current) => {
                if self.handlers().contains_key((current, event)) {
                    after matches Some(next) && call_ensures(
                        self.handlers()[(current, event)],
                        (&current, event),
                        next,
                    )
                } else {
                    after == Some(current)
                }
            },
        }
    }

    /// A machine without states, handlers or a current state.
    pub fn new() -> (machine: Self)
        ensures
            machine.states() == Seq::<S>::empty(),
            machine.current() is None,
            machine.handlers() == Map::<(S, E), F>::empty(),
    {
        let machine = StateMachine { states: Vec::new(), current: None, transitions: HashMap::new() };
        assert(machine.handlers() =~= Map::<(S, E), F>::empty());
        machine
    }

    /// The state that the machine is in.
    pub fn current_state(&self) -> (answer: Result<&S, StateMachineError>)
        ensures
            answer == match self.current() {
                Some(state) => Ok::<&S, StateMachineError>(&state),
                None => Err::<&S, _>(StateMachineError::NotInitialized),
            },
    {
        match &self.current {
            Some(state) => Ok(state),
            None => Err(StateMachineError::NotInitialized),
        }
    }

    /// Puts a machine that has no current state yet into `state`, and hands
    /// the machine back for the next call. A machine that has a current state
    /// refuses, and stays as it is.
    pub fn initial_state(&mut self, state: S) -> (answer: Result<&mut Self, StateMachineError>)
        ensures
            match answer {
                Ok(machine) => {
                    &&& old(self).initialises(state, *machine, true)
                    &&& *final(self) == *final(machine)
                },
                Err(error) => {
                    &&& old(self).initialises(state, *final(self), false)
                    &&& error == StateMachineError::InitialStateAlreadySet
                    &&& *final(self) == *old(self)
                },
            },
    {
        if self.current.is_some() {
            Err(StateMachineError::InitialStateAlreadySet)
        } else {
            self.current = Some(state);
            Ok(self)
        }
    }

    /// Forces the machine into `state`, and hands the machine back for the
    /// next call.
    pub fn set_state(&mut self, state: S) -> (machine: &mut Self)
        ensures
            machine.current() == Some(state),
            machine.states() == old(self).states(),
            machine.handlers() == old(self).handlers(),
            *final(self) == *final(machine),
    {
        self.current = Some(state);
        self
    }

    /// Registers `function` as the handler of `event` in `state`, and hands
    /// the machine back for the next call. A handler that was registered for
    /// the same state and event before is dropped.
    pub fn add_transition(&mut self, state: S, event: E, function: F) -> (machine: &mut Self)
        requires
            obeys_key_model::<S>(),
            obeys_key_model::<E>(),
            total::<S, E, F>(function),
        ensures
            old(self).adds(state, event, function, *machine),
            *final(self) == *final(machine),
    {
        let of_state = match self.transitions.remove(&state) {
            Some(known) => known,
            None => StateMachineTransitions::new(),
        };
        self.transitions.insert(state, of_state.with(event, function));
        assert(self.handlers() =~= old(self).handlers().insert((state, event), function));
        self
    }

    /// Feeds `event` to the machine.
    ///
    /// Without a current state the answer is `NotInitialized`. Where the
    /// current state has a handler for `event`, the handler is called on the
    /// current state and `event`, and the machine moves to the state that it
    /// returns. Where it has none, the event is dropped and the machine
    /// stays. Either way the answer is the state that the machine is in
    /// afterwards. The handlers are never changed.
    pub fn execute(&mut self, event: E) -> (answer: Result<&S, StateMachineError>)
        requires
            obeys_key_model::<S>(),
            obeys_key_model::<E>(),
        ensures
            old(self).steps(event, final(self).current()),
            answer == match final(self).current() {
                Some(state) => Ok::<&S, StateMachineError>(&state),
                None => Err::<&S, _>(StateMachineError::NotInitialized),
            },
            final(self).handlers() == old(self).handlers(),
            final(self).states() == old(self).states(),
    {
        let moved = match &self.current {
            None => None,
            Some(current) => match self.transitions.get(current) {
                None => None,
                Some(of_state) => match of_state.get(&event) {
                    None => None,
                    Some(function) => Some(function(current, event)),
                },
            },
        };
        if let Some(next) = moved {
            self.current = Some(next);
        }
        match &self.current {
            Some(state) => Ok(state),
            None => Err(StateMachineError::NotInitialized),
        }
    }

    /// Handlers for different pairs of state and event can be registered in
    /// either order: both machines have the same handlers, current state and
    /// list of states.
    pub proof fn lemma_add_transition_order(
        self,
        first: (S, E, F),
        second: (S, E, F),
        with_first: Self,
        with_both: Self,
        with_second: Self,
        with_both_reversed: Self,
    )
        requires
            (first.0, first.1) != (second.0, second.1),
            self.adds(first.0, first.1, first.2, with_first),
            with_first.adds(second.0, second.1, second.2, with_both),
            self.adds(second.0, second.1, second.2, with_second),
            with_second.adds(first.0, first.1, first.2, with_both_reversed),
        ensures
            with_both.handlers() == with_both_reversed.handlers(),
            with_both.current() == with_both_reversed.current(),
            with_both.states() == with_both_reversed.states(),
    {
        assert(with_both.handlers() =~= with_both_reversed.handlers());
    }

    /// Of two handlers registered for one pair of state and event, only the
    /// second is in effect: the machine is as if the first had never been
    /// registered.
    pub proof fn lemma_add_transition_replaces(
        self,
        state: S,
        event: E,
        first: F,
        second: F,
        with_first: Self,
        with_both: Self,
        with_second: Self,
    )
        requires
            self.adds(state, event, first, with_first),
            with_first.adds(state, event, second, with_both),
            self.adds(state, event, second, with_second),
        ensures
            with_both.handlers() == with_second.handlers(),
            with_both.handlers()[(state, event)] == second,
            with_both.current() == with_second.current(),
            with_both.states() == with_second.states(),
    {
        assert(with_both.handlers() =~= with_second.handlers());
    }

    /// The initial state can be set once: on a machine without a current
    /// state the first attempt is accepted, the second is refused, and the
    /// state of the first attempt stays.
    pub proof fn lemma_initial_state_twice(
        self,
        first: S,
        once: Self,
        first_accepted: bool,
        second: S,
        twice: Self,
        second_accepted: bool,
    )
        requires
            self.current() is None,
            self.initialises(first, once, first_accepted),
            once.initialises(second, twice, second_accepted),
        ensures
            first_accepted,
            !second_accepted,
            twice.current() == Some(first),
    {
    }

    /// An event that the current state has no handler for is dropped: the
    /// machine stays where it is.
    pub proof fn lemma_unhandled_event_is_dropped(self, current: S, event: E, after: Option<S>)
        requires
            self.current() == Some(current),
            !self.handlers().contains_key((current, event)),
            self.steps(event, after),
        ensures
            after == Some(current),
    {
    }
}

impl<S: Hash + Eq + Clone, E: Hash + Eq, F: Fn(&S, E) -> S> StateMachine<S, E, F> {
    /// Announces `states`: a copy of each is added to the list of states, in
    /// order. The list is kept for the record; no decision reads it.
    pub fn add_states(&mut self, states: &[S]) -> (machine: &mut Self)
        ensures
            machine.states().len() == old(self).states().len() + states@.len(),
            forall|i: int|
                0 <= i < old(self).states().len() ==> #[trigger] machine.states()[i] == old(
                    self,
                ).states()[i],
            forall|i: int|
                0 <= i < states@.len() ==> cloned::<S>(
                    #[trigger] states@[i],
                    machine.states()[old(self).states().len() + i],
                ),
            machine.current() == old(self).current(),
            machine.handlers() == old(self).handlers(),
            *final(self) == *final(machine),
    {
        self.states.extend_from_slice(states);
        self
    }
}

impl<S: Hash + Eq, E: Hash + Eq, F: Fn(&S, E) -> S> Default for StateMachine<S, E, F> {
    fn default() -> (machine: Self)
        ensures
            machine.states() == Seq::<S>::empty(),
            machine.current() is None,
            machine.handlers() == Map::<(S, E), F>::empty(),
    {
        Self::new()
    }
}

} // verus!