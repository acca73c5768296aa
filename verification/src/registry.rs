//! The table of transitions, keyed by a state's and an event's identifier.

use vstd::prelude::*;
use std::collections::HashMap;

verus! {

/// A state's identifier and an event's identifier. An identifier is unique
/// only among states, or only among events, so the pair is the key.
pub type TransitionKey = (usize, usize);

/// What a machine does with an event for which its current state has no
/// transition.
#[derive(Clone, Copy, Debug, PartialEq, Eq, Structural)]
pub enum DispatchPolicy {
    /// The event is refused with an error.
    Strict,
    /// The event is ignored, and the machine stays where it is.
    Lenient,
}

/// The number under which the table files the key `(state_id, event_id)`.
pub open spec fn slot_of(state_id: usize, event_id: usize) -> u128 {
    (state_id as u128 * 0x1_0000_0000_0000_0000 + event_id as u128) as u128
}

/// Different keys are filed under different numbers.
pub proof fn lemma_slot_of_injective(a: TransitionKey, b: TransitionKey)
    ensures
        slot_of(a.0, a.1) == slot_of(b.0, b.1) <==> a == b,
{
}

/// Entries under different keys can be filed in either order: the table is
/// the same.
pub proof fn lemma_insert_order<T>(
    table: Map<TransitionKey, T>,
    first: TransitionKey,
    a: T,
    second: TransitionKey,
    b: T,
)
    requires
        first != second,
    ensures
        table.insert(first, a).insert(second, b) == table.insert(second, b).insert(first, a),
{
    assert(table.insert(first, a).insert(second, b) =~= table.insert(second, b).insert(first, a));
}

/// Of two entries filed under one key, only the second is in the table.
pub proof fn lemma_insert_replaces<T>(table: Map<TransitionKey, T>, key: TransitionKey, a: T, b: T)
    ensures
        table.insert(key, a).insert(key, b) == table.insert(key, b),
        table.insert(key, a).insert(key, b)[key] == b,
{
    assert(table.insert(key, a).insert(key, b) =~= table.insert(key, b));
}

/// At most one entry for each key.
pub struct Registry<T> {
    body: HashMap<u128, T>,
}

impl<T> View for Registry<T> {
    type V = Map<TransitionKey, T>;

    closed spec fn view(&self) -> Map<TransitionKey, T> {
        Map::new(
            |k: TransitionKey| self.body@.contains_key(slot_of(k.0, k.1)),
            |k: TransitionKey| self.body@[slot_of(k.0, k.1)],
        )
    }
}

impl<T> Registry<T> {
    /// A table without entries.
    pub fn new() -> (registry: Self)
        ensures
            registry@ == Map::<TransitionKey, T>::empty(),
    {
        let registry = Registry { body: HashMap::new() };
        assert(registry@ =~= Map::<TransitionKey, T>::empty());
        registry
    }

    /// Files `entry` under `(state_id, event_id)`. An entry that was there
    /// before is dropped.
    pub fn insert(&mut self, state_id: usize, event_id: usize, entry: T)
        ensures
            final(self)@ == old(self)@.insert((state_id, event_id), entry),
    {
        let slot = slot(state_id, event_id);
        self.body.insert(slot, entry);
        assert(self@ =~= old(self)@.insert((state_id, event_id), entry)) by {
            assert forall|k: TransitionKey| #[trigger]
                slot_of(k.0, k.1) == slot <==> k == (state_id, event_id) by {
                lemma_slot_of_injective(k, (state_id, event_id));
            }
        }
    }

    /// The entry under `(state_id, event_id)`, if there is one.
    pub fn lookup(&self, state_id: usize, event_id: usize) -> (found: Option<&T>)
        ensures
            found == if self@.contains_key((state_id, event_id)) {
                Some(&self@[(state_id, event_id)])
            } else {
                None
            },
    {
        self.body.get(&slot(state_id, event_id))
    }
}

fn slot(state_id: usize, event_id: usize) -> (s: u128)
    ensures
        s == slot_of(state_id, event_id),
{
    state_id as u128 * 0x1_0000_0000_0000_0000 + event_id as u128
}

} // verus!
