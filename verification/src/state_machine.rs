//! The decisions of a machine that is fed through a queue: whether it may be
//! started, whether an event may be queued, and what the task that drains the
//! queue does with what it receives. The queue itself, the task and the lock
//! around the machine belong to the caller.

use vstd::prelude::*;
use std::hash::Hash;
use vstd::std_specs::hash::obeys_key_model;
use crate::error::StateMachineError;
use crate::primitives::{total, StateMachine};

verus! {

/// A machine, the capacity of the queue that feeds it, and whether that
/// queue is open.
#[verifier::reject_recursive_types(S)]
#[verifier::reject_recursive_types(E)]
pub struct AsyncStateMachine<S, E, F: Fn(&S, E) -> S> {
    state_machine: StateMachine<S, E, F>,
    queue_size: usize,
    started: bool,
}

impl<S: Hash + Eq, E: Hash + Eq, F: Fn(&S, E) -> S> AsyncStateMachine<S, E, F> {
    /// The machine that the events are fed to.
    pub closed spec fn engine(&self) -> StateMachine<S, E, F> {
        self.state_machine
    }

    /// The capacity that the queue is opened with.
    pub closed spec fn queue_size(&self) -> usize {
        self.queue_size
    }

    /// Whether the machine was started.
    pub closed spec fn started(&self) -> bool {
        self.started
    }

    /// Whether an attempt to start this machine gives `after` with the
    /// answer `answer`.
    pub open spec fn starts(&self, after: Self, answer: Result<usize, StateMachineError>) -> bool {
        &&& answer == if self.started() {
            Err::<usize, _>(StateMachineError::AlreadyStarted)
        } else {
            Ok::<usize, StateMachineError>(self.queue_size())
        }
        &&& after.started()
        &&& after.queue_size() == self.queue_size()
        &&& after.engine() == self.engine()
    }

    /// An empty machine that is not started, for a queue of `queue_size`
    /// events.
    pub fn new(queue_size: usize) -> (machine: Self)
        ensures
            machine.queue_size() == queue_size,
            !machine.started(),
            machine.engine().states() == Seq::<S>::empty(),
            machine.engine().current() is None,
            machine.engine().handlers() == Map::<(S, E), F>::empty(),
    {
        AsyncStateMachine { state_machine: StateMachine::new(), queue_size, started: false }
    }

    /// Starts the machine, once. The answer is the capacity of the queue
    /// that the caller is to open. A machine that was started before
    /// refuses, and stays as it is.
    pub fn start(&mut self) -> (answer: Result<usize, StateMachineError>)
        ensures
            old(self).starts(*final(self), answer),
    {
        if self.started {
            Err(StateMachineError::AlreadyStarted)
        } else {
            self.started = true;
            Ok(self.queue_size)
        }
    }

    /// Admits `event` to the queue: a started machine hands it back for the
    /// caller to queue, a machine that was not started refuses it.
    pub fn push_event(&self, event: E) -> (answer: Result<E, StateMachineError>)
        ensures
            answer == if self.started() {
                Ok::<E, StateMachineError>(event)
            } else {
                Err::<E, _>(StateMachineError::NotStarted)
            },
    {
        if self.started {
            Ok(event)
        } else {
            Err(StateMachineError::NotStarted)
        }
    }

    /// What the caller of `push_event` is told once the queue has spoken. A
    /// queue that took the event answers `Ok`. A queue whose consuming side
    /// has gone away hands the event back, and the caller is told
    /// `QueueClosed`.
    pub fn sent(outcome: Result<(), E>) -> (answer: Result<(), StateMachineError>)
        ensures
            answer == match outcome {
                Ok(_) => Ok::<(), StateMachineError>(()),
                Err(_) => Err::<(), _>(StateMachineError::QueueClosed),
            },
    {
        match outcome {
            Ok(_) => Ok(()),
            Err(_) => Err(StateMachineError::QueueClosed),
        }
    }

    /// One turn of the task that drains the queue, on what the queue gave.
    /// An event is fed to the machine, whatever the machine answers, and the
    /// task goes on. `None` says that the queue is closed and empty: the task
    /// stops.
    pub fn deliver(&mut self, next_event: Option<E>) -> (go_on: bool)
        requires
            obeys_key_model::<S>(),
            obeys_key_model::<E>(),
        ensures
            go_on == next_event is Some,
            match next_event {
                Some(event) => old(self).engine().steps(
                    event,
                    final(self).engine().current(),
                ),
                None => final(self).engine().current() == old(self).engine().current(),
            },
            final(self).engine().handlers() == old(self).engine().handlers(),
            final(self).engine().states() == old(self).engine().states(),
            final(self).started() == old(self).started(),
            final(self).queue_size() == old(self).queue_size(),
    {
        match next_event {
            Some(event) => {
                let _ = self.state_machine.execute(event);
                true
            },
            None => false,
        }
    }

    /// A machine is started once: whatever came before, a second attempt is
    /// refused, and leaves the machine, its queue's capacity and the fact
    /// that it runs as they were.
    pub proof fn lemma_start_twice(
        self,
        once: Self,
        first: Result<usize, StateMachineError>,
        twice: Self,
        second: Result<usize, StateMachineError>,
    )
        requires
            self.starts(once, first),
            once.starts(twice, second),
        ensures
            second == Err::<usize, _>(StateMachineError::AlreadyStarted),
            twice.started(),
            twice.queue_size() == once.queue_size(),
            twice.engine() == once.engine(),
    {
    }

    /// The state that the machine is in.
    pub fn current_state(&self) -> (answer: Result<&S, StateMachineError>)
        ensures
            answer == match self.engine().current() {
                Some(state) => Ok::<&S, StateMachineError>(&state),
                None => Err::<&S, _>(StateMachineError::NotInitialized),
            },
    {
        self.state_machine.current_state()
    }

    /// Forces the machine into `state`, and hands the machine back for the
    /// next call.
    pub fn set_state(&mut self, state: S) -> (machine: &mut Self)
        ensures
            machine.engine().current() == Some(state),
            machine.engine().states() == old(self).engine().states(),
            machine.engine().handlers() == old(self).engine().handlers(),
            machine.started() == old(self).started(),
            machine.queue_size() == old(self).queue_size(),
            *final(self) == *final(machine),
    {
        self.state_machine.set_state(state);
        self
    }

    /// Registers `function` as the handler of `event` in `current_state`,
    /// and hands the machine back for the next call.
    pub fn add_transition(&mut self, current_state: S, event: E, function: F) -> (machine: &mut Self)
        requires
            obeys_key_model::<S>(),
            obeys_key_model::<E>(),
            total::<S, E, F>(function),
        ensures
            machine.engine().handlers() == old(self).engine().handlers().insert(
                (current_state, event),
                function,
            ),
            machine.engine().current() == old(self).engine().current(),
            machine.engine().states() == old(self).engine().states(),
            machine.started() == old(self).started(),
            machine.queue_size() == old(self).queue_size(),
            *final(self) == *final(machine),
    {
        self.state_machine.add_transition(current_state, event, function);
        self
    }
}

impl<S: Hash + Eq + Clone, E: Hash + Eq, F: Fn(&S, E) -> S> AsyncStateMachine<S, E, F> {
    /// Announces `states`: a copy of each is added to the machine's list of
    /// states, in order. `states` itself is left as it is.
    pub fn add_states(&mut self, states: &mut Vec<S>) -> (machine: &mut Self)
        ensures
            *final(states) == *old(states),
            machine.engine().states().len() == old(self).engine().states().len() + old(
                states,
            )@.len(),
            forall|i: int|
                0 <= i < old(self).engine().states().len()
                    ==> #[trigger] machine.engine().states()[i] == old(self).engine().states()[i],
            forall|i: int|
                0 <= i < old(states)@.len() ==> cloned::<S>(
                    #[trigger] old(states)@[i],
                    machine.engine().states()[old(self).engine().states().len() + i],
                ),
            machine.engine().current() == old(self).engine().current(),
            machine.engine().handlers() == old(self).engine().handlers(),
            machine.started() == old(self).started(),
            machine.queue_size() == old(self).queue_size(),
            *final(self) == *final(machine),
    {
        self.state_machine.add_states(states.as_slice());
        self
    }
}

} // verus!
