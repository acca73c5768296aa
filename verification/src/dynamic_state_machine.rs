//! A machine whose handlers are boxed, so that one machine can hold
//! handlers of different types.

use vstd::prelude::*;
use crate::dispatch::{settle, unmatched, unmatched_answer};
use crate::error::StateMachineError;
use crate::event::Event;
use crate::registry::{
    lemma_insert_order, lemma_insert_replaces, DispatchPolicy, Registry, TransitionKey,
};
use crate::state::State;

verus! {

/// The logic of a transition: given the current state and the event that
/// came in, it names the next state, or none.
pub trait TransitionCallback<S, E> {
    /// Whether the handler may be called on `state` and `event`.
    spec fn accepts(&self, state: &State<S>, event: &Event<E>) -> bool;

    /// Whether the handler may answer `next` on `state` and `event`.
    spec fn yields(&self, state: &State<S>, event: &Event<E>, next: Option<State<S>>) -> bool;

    fn call(&self, state: &State<S>, event: &Event<E>) -> (next: Option<State<S>>)
        requires
            self.accepts(state, event),
        ensures
            self.yields(state, event, next),
    ;
}

pub type BoxTransitionCallback<S, E> = Box<dyn TransitionCallback<S, E>>;

/// A closure as a handler.
struct FnCallback<F> {
    f: F,
}

impl<S, E, F: Fn(&State<S>, &Event<E>) -> Option<State<S>>> TransitionCallback<S, E> for FnCallback<
    F,
> {
    closed spec fn accepts(&self, state: &State<S>, event: &Event<E>) -> bool {
        call_requires(self.f, (state, event))
    }

    closed spec fn yields(&self, state: &State<S>, event: &Event<E>, next: Option<State<S>>) -> bool {
        call_ensures(self.f, (state, event), next)
    }

    fn call(&self, state: &State<S>, event: &Event<E>) -> (next: Option<State<S>>) {
        (self.f)(state, event)
    }
}

/// A boxed handler together with the state and the event that it is
/// registered for.
#[verifier::reject_recursive_types(S)]
#[verifier::reject_recursive_types(E)]
pub struct DynamicTransition<S, E> {
    curr_state: State<S>,
    event: Event<E>,
    callback: BoxTransitionCallback<S, E>,
}

impl<S, E> DynamicTransition<S, E> {
    #[verifier::type_invariant]
    spec fn inv(self) -> bool {
        forall|s: &State<S>, e: &Event<E>| #[trigger] self.callback.accepts(s, e)
    }

    /// The state that this transition leaves.
    pub closed spec fn source(&self) -> State<S> {
        self.curr_state
    }

    /// The event that sets this transition off.
    pub closed spec fn trigger(&self) -> Event<E> {
        self.event
    }

    /// Whether the handler may answer `next` when it is called on `state`
    /// and `event`.
    pub closed spec fn yields(&self, state: State<S>, event: Event<E>, next: Option<State<S>>) -> bool {
        self.callback.yields(&state, &event, next)
    }

    /// The key under which a machine files this transition.
    pub open spec fn key(&self) -> TransitionKey {
        (self.source().ident(), self.trigger().ident())
    }

    /// Binds `callback` to `curr_state` and `event`. The callback must be
    /// callable on every state and event, as a plain closure is.
    pub fn new<C>(curr_state: State<S>, event: Event<E>, callback: C) -> (transition: Self) where
        C: Fn(&State<S>, &Event<E>) -> Option<State<S>> + 'static,

        requires
            forall|s: &State<S>, e: &Event<E>| call_requires(callback, (s, e)),
        ensures
            transition.source() == curr_state,
            transition.trigger() == event,
            forall|s: State<S>, e: Event<E>, n: Option<State<S>>|
                transition.yields(s, e, n) == call_ensures(callback, (&s, &e), n),
    {
        DynamicTransition { curr_state, event, callback: Box::new(FnCallback { f: callback }) }
    }

    /// Calls the handler on the state and the event that it is registered
    /// for.
    pub fn next(&self) -> (next: Option<State<S>>)
        ensures
            self.yields(self.source(), self.trigger(), next),
    {
        proof {
            use_type_invariant(self);
        }
        self.callback.call(&self.curr_state, &self.event)
    }

    /// Calls the handler on a machine's current state and the event that
    /// came in.
    pub fn fire(&self, current: &State<S>, input: &Event<E>) -> (next: Option<State<S>>)
        ensures
            self.yields(*current, *input, next),
    {
        proof {
            use_type_invariant(self);
        }
        self.callback.call(current, input)
    }

    fn state_id(&self) -> (id: usize)
        ensures
            id == self.source().ident(),
    {
        self.curr_state.id()
    }

    fn event_id(&self) -> (id: usize)
        ensures
            id == self.trigger().ident(),
    {
        self.event.id()
    }
}

/// One current state and a table of boxed transitions.
#[verifier::reject_recursive_types(C)]
#[verifier::reject_recursive_types(E)]
pub struct DynamicStateMachine<C, E> {
    curr: Option<State<C>>,
    body: Registry<DynamicTransition<C, E>>,
    policy: DispatchPolicy,
}

impl<C, E> DynamicStateMachine<C, E> {
    /// The state that the machine is in.
    pub closed spec fn current(&self) -> Option<State<C>> {
        self.curr
    }

    /// The registered transitions, by key.
    pub closed spec fn transitions(&self) -> Map<TransitionKey, DynamicTransition<C, E>> {
        self.body@
    }

    /// What the machine does with an event that matches no transition.
    pub closed spec fn policy(&self) -> DispatchPolicy {
        self.policy
    }

    /// Whether registering `transition` with this machine gives `after`.
    pub open spec fn inserts(&self, transition: DynamicTransition<C, E>, after: Self) -> bool {
        &&& after.current() == self.current()
        &&& after.policy() == self.policy()
        &&& after.transitions() == self.transitions().insert(transition.key(), transition)
    }

    /// Whether feeding `input` to this machine may leave it in state `after`
    /// with the answer `answer`.
    pub open spec fn dispatches(
        &self,
        input: Event<E>,
        after: Option<State<C>>,
        answer: Result<Option<&State<C>>, StateMachineError>,
    ) -> bool {
        match self.current() {
            None => after is None && answer == Err::<Option<&State<C>>, _>(
                StateMachineError::NotInitialized,
            ),
            Some(current) => {
                let key = (current.ident(), input.ident());
                if self.transitions().contains_key(key) {
                    match answer {
                        Ok(Some(next)) => self.transitions()[key].yields(
                            current,
                            input,
                            Some(*next),
                        ) && after == Some(*next),
                        Ok(None) => self.transitions()[key].yields(current, input, None)
                            && after == Some(current),
                        Err(_) => false,
                    }
                } else {
                    after == Some(current) && answer == unmatched_answer(
                        self.policy(),
                        &current,
                        input.ident(),
                    )
                }
            },
        }
    }

    /// A strict machine in `start_state`, without transitions.
    pub fn new(start_state: State<C>) -> (machine: Self)
        ensures
            machine.current() == Some(start_state),
            machine.transitions() == Map::<TransitionKey, DynamicTransition<C, E>>::empty(),
            machine.policy() == DispatchPolicy::Strict,
    {
        DynamicStateMachine {
            curr: Some(start_state),
            body: Registry::new(),
            policy: DispatchPolicy::Strict,
        }
    }

    /// The same machine under `policy`.
    pub fn with_policy(self, policy: DispatchPolicy) -> (machine: Self)
        ensures
            machine.current() == self.current(),
            machine.transitions() == self.transitions(),
            machine.policy() == policy,
    {
        DynamicStateMachine { curr: self.curr, body: self.body, policy }
    }

    /// Registers `transition` under its key. A transition that was
    /// registered under the same key before is dropped.
    pub fn insert_transition(self, transition: DynamicTransition<C, E>) -> (machine: Self)
        ensures
            self.inserts(transition, machine),
    {
        let mut machine = self;
        let state_id = transition.state_id();
        let event_id = transition.event_id();
        machine.body.insert(state_id, event_id, transition);
        machine
    }

    /// Feeds `input` to the machine.
    ///
    /// Without a current state the answer is `NotInitialized`. Where the
    /// current state has a transition for `input`, its handler is called on
    /// the current state and `input`: the machine moves to the state that the
    /// handler names and answers with it, or stays and answers `None` where
    /// the handler names none. Where it has no transition, the policy
    /// decides, and the machine stays. The table is never changed.
    pub fn event(&mut self, input: &Event<E>) -> (answer: Result<
        Option<&State<C>>,
        StateMachineError,
    >)
        ensures
            old(self).dispatches(*input, final(self).current(), answer),
            final(self).transitions() == old(self).transitions(),
            final(self).policy() == old(self).policy(),
    {
        let fired = match &self.curr {
            None => None,
            Some(current) => match self.body.lookup(current.id(), input.id()) {
                None => None,
                Some(transition) => Some(transition.fire(current, input)),
            },
        };
        match fired {
            Some(outcome) => Ok(settle(&mut self.curr, outcome)),
            None => match &self.curr {
                None => Err(StateMachineError::NotInitialized),
                Some(current) => unmatched(self.policy, current, input.id()),
            },
        }
    }

    /// The state that the machine is in.
    pub fn current_state(&self) -> (current: Option<&State<C>>)
        ensures
            current == match self.current() {
                Some(state) => Some(&state),
                None => None,
            },
    {
        self.curr.as_ref()
    }

    /// Transitions with different keys can be registered in either order:
    /// both machines have the same table, current state and policy.
    pub proof fn lemma_insert_transition_order(
        self,
        a: DynamicTransition<C, E>,
        b: DynamicTransition<C, E>,
        with_a: Self,
        with_a_b: Self,
        with_b: Self,
        with_b_a: Self,
    )
        requires
            a.key() != b.key(),
            self.inserts(a, with_a),
            with_a.inserts(b, with_a_b),
            self.inserts(b, with_b),
            with_b.inserts(a, with_b_a),
        ensures
            with_a_b.transitions() == with_b_a.transitions(),
            with_a_b.current() == with_b_a.current(),
            with_a_b.policy() == with_b_a.policy(),
    {
        lemma_insert_order(self.transitions(), a.key(), a, b.key(), b);
    }

    /// Of two transitions registered under one key, only the second is in
    /// effect: the machine is as if the first had never been registered.
    pub proof fn lemma_insert_transition_replaces(
        self,
        a: DynamicTransition<C, E>,
        b: DynamicTransition<C, E>,
        with_a: Self,
        with_a_b: Self,
        with_b: Self,
    )
        requires
            a.key() == b.key(),
            self.inserts(a, with_a),
            with_a.inserts(b, with_a_b),
            self.inserts(b, with_b),
        ensures
            with_a_b.transitions() == with_b.transitions(),
            with_a_b.transitions()[b.key()] == b,
            with_a_b.current() == with_b.current(),
            with_a_b.policy() == with_b.policy(),
    {
        lemma_insert_replaces(self.transitions(), a.key(), a, b);
    }

    /// A strict machine refuses an event that its current state has no
    /// transition for, every time, and stays where it is.
    pub proof fn lemma_strict_refuses(
        self,
        current: State<C>,
        input: Event<E>,
        after: Option<State<C>>,
        answer: Result<Option<&State<C>>, StateMachineError>,
    )
        requires
            self.current() == Some(current),
            !self.transitions().contains_key((current.ident(), input.ident())),
            self.policy() == DispatchPolicy::Strict,
            self.dispatches(input, after, answer),
        ensures
            answer == Err::<Option<&State<C>>, _>(
                StateMachineError::NoMatchingTransition {
                    state_id: current.ident(),
                    event_id: input.ident(),
                },
            ),
            after == Some(current),
    {
    }

    /// A lenient machine ignores an event that its current state has no
    /// transition for: it stays where it is and answers with its current
    /// state.
    pub proof fn lemma_lenient_ignores(
        self,
        current: State<C>,
        input: Event<E>,
        after: Option<State<C>>,
        answer: Result<Option<&State<C>>, StateMachineError>,
    )
        requires
            self.current() == Some(current),
            !self.transitions().contains_key((current.ident(), input.ident())),
            self.policy() == DispatchPolicy::Lenient,
            self.dispatches(input, after, answer),
        ensures
            answer == Ok::<Option<&State<C>>, StateMachineError>(Some(&current)),
            after == Some(current),
    {
    }
}

} // verus!