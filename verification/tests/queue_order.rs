use std::sync::Arc;

use generic_state_machine::error::StateMachineError;
use generic_state_machine::state_machine::AsyncStateMachine;
use tokio::runtime::Builder;
use tokio::sync::mpsc::{channel, Receiver};
use tokio::sync::Mutex;

type Handler = fn(&u64, u64) -> u64;
type Machine = AsyncStateMachine<u64, u64, Handler>;

fn append(state: &u64, event: u64) -> u64 {
    state * 10 + event
}

fn recorder(queue_size: usize, digits: &[u64]) -> Machine {
    let mut machine: Machine = AsyncStateMachine::new(queue_size);
    let mut state = 0;
    machine.set_state(state);
    for digit in digits {
        machine.add_transition(state, *digit, append);
        state = state * 10 + digit;
    }
    machine
}

async fn drain(machine: Arc<Mutex<Machine>>, mut events: Receiver<u64>) {
    loop {
        let next_event = events.recv().await;
        if !machine.lock().await.deliver(next_event) {
            break;
        }
    }
}

#[test]
fn events_from_several_producers_are_applied_in_enqueue_order() {
    let runtime = Builder::new_current_thread().build().unwrap();
    runtime.block_on(async {
        let mut machine = recorder(1, &[3, 1, 2]);
        let capacity = machine.start().unwrap();
        assert_eq!(capacity, 1);
        let machine = Arc::new(Mutex::new(machine));
        let (sender, receiver) = channel::<u64>(capacity);
        let task = tokio::spawn(drain(machine.clone(), receiver));

        let first = sender.clone();
        let second = sender.clone();
        let third = sender;
        for (producer, event) in [(first, 3), (second, 1), (third, 2)] {
            let admitted = machine.lock().await.push_event(event).unwrap();
            let outcome = producer.send(admitted).await.map_err(|refused| refused.0);
            assert_eq!(Machine::sent(outcome), Ok(()));
        }

        task.await.unwrap();
        assert_eq!(machine.lock().await.current_state(), Ok(&312));
    });
}

#[test]
fn event_for_a_queue_without_consumer_is_refused() {
    let runtime = Builder::new_current_thread().build().unwrap();
    runtime.block_on(async {
        let mut machine = recorder(2, &[1]);
        let capacity = machine.start().unwrap();
        let (sender, receiver) = channel::<u64>(capacity);
        drop(receiver);

        let admitted = machine.push_event(1).unwrap();
        let outcome = sender.send(admitted).await.map_err(|refused| refused.0);
        assert_eq!(outcome, Err(1));
        assert_eq!(Machine::sent(outcome), Err(StateMachineError::QueueClosed));
        assert_eq!(machine.current_state(), Ok(&0));
    });
}
