use generic_state_machine::dispatch::{settle, unmatched};
use generic_state_machine::error::StateMachineError;
use generic_state_machine::ident::IdAllocator;
use generic_state_machine::registry::{DispatchPolicy, Registry};
use generic_state_machine::state::State;

#[test]
fn registry_finds_what_was_filed() {
    let mut registry: Registry<&str> = Registry::new();
    assert_eq!(registry.lookup(0, 0), None);
    registry.insert(0, 0, "zero");
    registry.insert(1, 2, "one-two");
    registry.insert(2, 1, "two-one");
    assert_eq!(registry.lookup(0, 0), Some(&"zero"));
    assert_eq!(registry.lookup(1, 2), Some(&"one-two"));
    assert_eq!(registry.lookup(2, 1), Some(&"two-one"));
    assert_eq!(registry.lookup(1, 1), None);
    assert_eq!(registry.lookup(2, 2), None);
}

#[test]
fn registry_keeps_the_last_entry_of_a_key() {
    let mut registry: Registry<u8> = Registry::new();
    registry.insert(4, 5, 1);
    registry.insert(4, 5, 2);
    assert_eq!(registry.lookup(4, 5), Some(&2));
    registry.insert(5, 4, 3);
    assert_eq!(registry.lookup(4, 5), Some(&2));
}

#[test]
fn registry_is_the_same_in_either_order() {
    let mut forward: Registry<u8> = Registry::new();
    forward.insert(1, 1, 11);
    forward.insert(1, 2, 12);
    let mut backward: Registry<u8> = Registry::new();
    backward.insert(1, 2, 12);
    backward.insert(1, 1, 11);
    for state_id in 0..3 {
        for event_id in 0..3 {
            assert_eq!(forward.lookup(state_id, event_id), backward.lookup(state_id, event_id));
        }
    }
}

#[test]
fn registry_tells_the_largest_identifiers_apart() {
    let mut registry: Registry<char> = Registry::new();
    registry.insert(usize::MAX, usize::MAX, 'a');
    registry.insert(usize::MAX, 0, 'b');
    registry.insert(0, usize::MAX, 'c');
    registry.insert(usize::MAX - 1, usize::MAX, 'd');
    assert_eq!(registry.lookup(usize::MAX, usize::MAX), Some(&'a'));
    assert_eq!(registry.lookup(usize::MAX, 0), Some(&'b'));
    assert_eq!(registry.lookup(0, usize::MAX), Some(&'c'));
    assert_eq!(registry.lookup(usize::MAX - 1, usize::MAX), Some(&'d'));
    assert_eq!(registry.lookup(usize::MAX, usize::MAX - 1), None);
    assert_eq!(registry.lookup(0, 0), None);
}

#[test]
fn unmatched_event_is_refused_or_ignored_by_policy() {
    let mut ids = IdAllocator::new();
    let _skipped = State::new(&mut ids, 'x');
    let current = State::new(&mut ids, 'y');
    assert_eq!(
        unmatched(DispatchPolicy::Strict, &current, 9),
        Err(StateMachineError::NoMatchingTransition { state_id: 1, event_id: 9 })
    );
    assert_eq!(unmatched(DispatchPolicy::Lenient, &current, 9), Ok(Some(&current)));
}

#[test]
fn settle_moves_only_to_a_named_state() {
    let mut ids = IdAllocator::new();
    let here = State::new(&mut ids, "here");
    let there = State::new(&mut ids, "there");

    let mut current = Some(here);
    assert_eq!(settle(&mut current, None), None);
    assert_eq!(current, Some(here));
    assert_eq!(settle(&mut current, Some(there)), Some(&there));
    assert_eq!(current, Some(there));

    let mut unset: Option<State<&str>> = None;
    assert_eq!(settle(&mut unset, None), None);
    assert_eq!(unset, None);
}

#[test]
fn access_failure_carries_its_detail() {
    let failure = StateMachineError::AccessFailure(String::from("lock poisoned"));
    assert_eq!(failure.clone(), StateMachineError::AccessFailure(String::from("lock poisoned")));
    assert_ne!(failure, StateMachineError::AccessFailure(String::from("other")));
    assert_ne!(failure, StateMachineError::NotInitialized);
}
