use std::sync::Arc;

use generic_state_machine::dynamic_state_machine::DynamicStateMachine as StateMachine;
use generic_state_machine::dynamic_state_machine::DynamicTransition as Transition;
use generic_state_machine::error::StateMachineError;
use generic_state_machine::event::Event;
use generic_state_machine::ident::IdAllocator;
use generic_state_machine::registry::DispatchPolicy;
use generic_state_machine::state::State;

#[test]
fn dynamic_fsm_sanity_test() -> Result<(), StateMachineError> {
    let mut state_ids = IdAllocator::new();
    let mut event_ids = IdAllocator::new();

    let state1 = Arc::new(State::new(&mut state_ids, 1));
    let state2 = Arc::new(State::new(&mut state_ids, 2));
    let state3 = Arc::new(State::new(&mut state_ids, 3));

    let event_goto_1 = Arc::new(Event::new(&mut event_ids, 1));
    let event_goto_2 = Arc::new(Event::new(&mut event_ids, 2));
    let event_goto_3 = Arc::new(Event::new(&mut event_ids, 3));

    let s = state2.clone();
    let transition12 = Transition::new(*state1, *event_goto_2, move |c, e| {
        println!("transition: curr: {}, event: {}", c.content(), e.content());
        Some(*s.clone())
    });

    let s = state3.clone();
    let transition23 = Transition::new(*state2, *event_goto_3, move |c, e| {
        println!("transition: curr: {}, event: {}", c.content(), e.content());
        Some(*s.clone())
    });

    let s = state1.clone();
    let transition31 = Transition::new(*state3, *event_goto_1, move |c, e| {
        println!("transition: curr: {}, event: {}", c.content(), e.content());
        Some(*s.clone())
    });

    let s = state3.clone();
    let transition13 = Transition::new(*state1, *event_goto_3, move |c, e| {
        println!("transition: curr: {}, event: {}", c.content(), e.content());
        Some(*s.clone())
    });

    let mut state_machine = StateMachine::new(*state1)
        .insert_transition(transition12)
        .insert_transition(transition13)
        .insert_transition(transition23)
        .insert_transition(transition31);

    let state = state_machine.event(&event_goto_2)?;
    assert_eq!(state, Some(&*state2));

    let state = state_machine.event(&event_goto_3)?;
    assert_eq!(state, Some(&*state3));

    let state = state_machine.event(&event_goto_1)?;
    assert_eq!(state, Some(&*state1));

    let state = state_machine.event(&event_goto_3)?;
    assert_eq!(state, Some(&*state3));

    Ok(())
}

#[test]
fn dynamic_cycle_of_three_states() {
    let mut state_ids = IdAllocator::new();
    let mut event_ids = IdAllocator::new();
    let s1 = State::new(&mut state_ids, 1);
    let s2 = State::new(&mut state_ids, 2);
    let s3 = State::new(&mut state_ids, 3);
    let e1 = Event::new(&mut event_ids, 1);
    let e2 = Event::new(&mut event_ids, 2);
    let e3 = Event::new(&mut event_ids, 3);

    let mut machine = StateMachine::new(s1)
        .insert_transition(Transition::new(s1, e2, move |_, _| Some(s2)))
        .insert_transition(Transition::new(s2, e3, move |_, _| Some(s3)))
        .insert_transition(Transition::new(s3, e1, move |_, _| Some(s1)));

    let mut seen = Vec::new();
    for event in [e2, e3, e1] {
        seen.push(*machine.event(&event).unwrap().unwrap().content());
    }
    assert_eq!(seen, vec![2, 3, 1]);
    assert_eq!(machine.current_state(), Some(&s1));
}

#[test]
fn dynamic_strict_machine_refuses_unmatched_event() {
    let mut state_ids = IdAllocator::new();
    let mut event_ids = IdAllocator::new();
    let s1 = State::new(&mut state_ids, "idle");
    let s2 = State::new(&mut state_ids, "busy");
    let known = Event::new(&mut event_ids, 'k');
    let unknown = Event::new(&mut event_ids, 'u');

    let mut machine =
        StateMachine::new(s1).insert_transition(Transition::new(s1, known, move |_, _| Some(s2)));

    for _ in 0..3 {
        assert_eq!(
            machine.event(&unknown),
            Err(StateMachineError::NoMatchingTransition { state_id: s1.id(), event_id: unknown.id() })
        );
        assert_eq!(machine.current_state(), Some(&s1));
    }
    assert_eq!(machine.event(&known), Ok(Some(&s2)));
}

#[test]
fn dynamic_lenient_machine_ignores_unmatched_event() {
    let mut state_ids = IdAllocator::new();
    let mut event_ids = IdAllocator::new();
    let s1 = State::new(&mut state_ids, "idle");
    let s2 = State::new(&mut state_ids, "busy");
    let known = Event::new(&mut event_ids, 'k');
    let unknown = Event::new(&mut event_ids, 'u');

    let mut machine = StateMachine::new(s1)
        .insert_transition(Transition::new(s1, known, move |_, _| Some(s2)))
        .with_policy(DispatchPolicy::Lenient);

    assert_eq!(machine.event(&unknown), Ok(Some(&s1)));
    assert_eq!(machine.current_state(), Some(&s1));
    assert_eq!(machine.event(&known), Ok(Some(&s2)));
    assert_eq!(machine.event(&unknown), Ok(Some(&s2)));
}

#[test]
fn dynamic_handler_that_names_no_state_leaves_machine_in_place() {
    let mut state_ids = IdAllocator::new();
    let mut event_ids = IdAllocator::new();
    let s1 = State::new(&mut state_ids, 1);
    let e = Event::new(&mut event_ids, 1);

    let mut machine =
        StateMachine::new(s1).insert_transition(Transition::new(s1, e, |_: &State<i32>, _: &Event<i32>| None));

    assert_eq!(machine.event(&e), Ok(None));
    assert_eq!(machine.current_state(), Some(&s1));
    assert_eq!(machine.event(&e), Ok(None));
}

#[test]
fn dynamic_second_transition_for_a_key_replaces_the_first() {
    let mut state_ids = IdAllocator::new();
    let mut event_ids = IdAllocator::new();
    let s1 = State::new(&mut state_ids, 1);
    let s2 = State::new(&mut state_ids, 2);
    let s3 = State::new(&mut state_ids, 3);
    let e = Event::new(&mut event_ids, 0);

    let mut machine = StateMachine::new(s1)
        .insert_transition(Transition::new(s1, e, move |_, _| Some(s2)))
        .insert_transition(Transition::new(s1, e, move |_, _| Some(s3)));

    assert_eq!(machine.event(&e), Ok(Some(&s3)));
}

#[test]
fn dynamic_order_of_registration_does_not_matter_for_different_keys() {
    let mut state_ids = IdAllocator::new();
    let mut event_ids = IdAllocator::new();
    let s1 = State::new(&mut state_ids, 1);
    let s2 = State::new(&mut state_ids, 2);
    let e1 = Event::new(&mut event_ids, 1);
    let e2 = Event::new(&mut event_ids, 2);

    let mut forward = StateMachine::new(s1)
        .insert_transition(Transition::new(s1, e2, move |_, _| Some(s2)))
        .insert_transition(Transition::new(s2, e1, move |_, _| Some(s1)));
    let mut backward = StateMachine::new(s1)
        .insert_transition(Transition::new(s2, e1, move |_, _| Some(s1)))
        .insert_transition(Transition::new(s1, e2, move |_, _| Some(s2)));

    for event in [e1, e2, e2, e1, e2] {
        let a = forward.event(&event).map(|s| s.copied());
        let b = backward.event(&event).map(|s| s.copied());
        assert_eq!(a, b);
    }
    assert_eq!(forward.current_state(), Some(&s2));
    assert_eq!(backward.current_state(), Some(&s2));
}

#[test]
fn dynamic_key_is_the_pair_of_identifiers() {
    let mut state_ids = IdAllocator::new();
    let mut event_ids = IdAllocator::new();
    // State 1 and event 1 have the same number; so have state 0 and event 0.
    let s0 = State::new(&mut state_ids, "s0");
    let s1 = State::new(&mut state_ids, "s1");
    let e0 = Event::new(&mut event_ids, "e0");
    let e1 = Event::new(&mut event_ids, "e1");
    assert_eq!((s0.id(), s1.id(), e0.id(), e1.id()), (0, 1, 0, 1));

    let mut machine = StateMachine::new(s0)
        .insert_transition(Transition::new(s0, e1, move |_, _| Some(s1)))
        .insert_transition(Transition::new(s1, e0, move |_, _| Some(s0)));

    assert_eq!(
        machine.event(&e0),
        Err(StateMachineError::NoMatchingTransition { state_id: 0, event_id: 0 })
    );
    assert_eq!(machine.event(&e1), Ok(Some(&s1)));
    assert_eq!(
        machine.event(&e1),
        Err(StateMachineError::NoMatchingTransition { state_id: 1, event_id: 1 })
    );
    assert_eq!(machine.event(&e0), Ok(Some(&s0)));
}

#[test]
fn dynamic_transition_next_calls_handler_on_its_own_endpoints() {
    let mut state_ids = IdAllocator::new();
    let mut event_ids = IdAllocator::new();
    let s = State::new(&mut state_ids, 20);
    let e = Event::new(&mut event_ids, 22);
    let other = State::new(&mut state_ids, 1);
    let target = State::new(&mut state_ids, 42);

    let transition = Transition::new(s, e, move |c: &State<i32>, e: &Event<i32>| {
        if c.content() + e.content() == 42 {
            Some(target)
        } else {
            None
        }
    });
    assert_eq!(transition.next(), Some(target));
    assert_eq!(transition.fire(&other, &e), None);
}
