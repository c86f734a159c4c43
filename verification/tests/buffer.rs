use order_buffer::gateway::PersistError;
use order_buffer::order::Order;
use order_buffer::state::{AddStep, AppState, ConfigurationError};

fn order(uid: &str) -> Order {
    let mut order = Order::default();
    order.order_uid = uid.to_string();
    order
}

fn failure(cause: &str) -> PersistError {
    PersistError { cause: cause.to_string() }
}

fn uid_of_last(state: &AppState) -> Option<String> {
    state.get_last_order().map(|order| order.order_uid)
}

/// Adds an order and answers every save with the next outcome. Returns the
/// identifiers of the orders that were handed out to be saved, and the result.
fn add_with(
    state: &mut AppState,
    incoming: Order,
    outcomes: &[Result<(), PersistError>],
) -> (Vec<String>, Result<(), PersistError>) {
    let mut saved = Vec::new();
    let mut next = 0;
    let mut step = state.add_order(incoming);
    loop {
        match step {
            AddStep::Save { order, incoming } => {
                saved.push(order.order_uid.clone());
                let outcome = copy_of(&outcomes[next]);
                next += 1;
                step = state.order_saved(incoming, outcome);
            }
            AddStep::Done(result) => return (saved, result),
        }
    }
}

fn copy_of(outcome: &Result<(), PersistError>) -> Result<(), PersistError> {
    match outcome {
        Ok(()) => Ok(()),
        Err(e) => Err(PersistError { cause: e.cause.clone() }),
    }
}

#[test]
fn new_buffer_is_empty() {
    let state = AppState::new(3);
    assert_eq!(state.len(), 0);
    assert_eq!(state.capacity(), 3);
    assert_eq!(state.get_last_order(), None);
}

#[test]
fn zero_capacity_gives_no_buffer() {
    match AppState::try_new(0) {
        Ok(_) => panic!("a buffer of capacity zero was made"),
        Err(e) => {
            assert_eq!(e, ConfigurationError::ZeroCapacity);
            assert_eq!(e.message(), "Cache size can't be zero");
        }
    }
}

#[test]
fn positive_capacity_gives_an_empty_buffer() {
    let state = AppState::try_new(1).expect("capacity one is valid");
    assert_eq!(state.len(), 0);
    assert_eq!(state.capacity(), 1);
    let state = AppState::try_new(usize::MAX).expect("every positive capacity is valid");
    assert_eq!(state.capacity(), usize::MAX);
}

#[test]
fn capacity_two_admits_two_then_flushes_both() {
    let mut state = AppState::new(2);

    assert_eq!(state.add_order(order("A")), AddStep::Done(Ok(())));
    assert_eq!(state.len(), 1);
    assert_eq!(uid_of_last(&state), Some("A".to_string()));

    assert_eq!(state.add_order(order("B")), AddStep::Done(Ok(())));
    assert_eq!(state.len(), 2);
    assert_eq!(uid_of_last(&state), Some("B".to_string()));

    let step = state.add_order(order("C"));
    assert_eq!(step, AddStep::Save { order: order("A"), incoming: order("C") });
    assert_eq!(state.len(), 1);
    let incoming = match step {
        AddStep::Save { incoming, .. } => incoming,
        AddStep::Done(_) => unreachable!(),
    };

    let step = state.order_saved(incoming, Ok(()));
    assert_eq!(step, AddStep::Save { order: order("B"), incoming: order("C") });
    assert_eq!(state.len(), 0);
    let incoming = match step {
        AddStep::Save { incoming, .. } => incoming,
        AddStep::Done(_) => unreachable!(),
    };

    assert_eq!(state.order_saved(incoming, Ok(())), AddStep::Done(Ok(())));
    assert_eq!(state.len(), 1);
    assert_eq!(state.get_last_order(), Some(order("C")));
}

#[test]
fn failed_flush_drops_the_failed_order_and_the_incoming_one() {
    let mut state = AppState::new(1);
    assert_eq!(state.add_order(order("A")), AddStep::Done(Ok(())));
    assert_eq!(state.len(), 1);

    let step = state.add_order(order("B"));
    assert_eq!(step, AddStep::Save { order: order("A"), incoming: order("B") });
    assert_eq!(state.len(), 0);
    let incoming = match step {
        AddStep::Save { incoming, .. } => incoming,
        AddStep::Done(_) => unreachable!(),
    };

    let step = state.order_saved(incoming, Err(failure("connection closed")));
    assert_eq!(step, AddStep::Done(Err(failure("connection closed"))));
    assert_eq!(state.len(), 0);
    assert_eq!(state.get_last_order(), None);
}

#[test]
fn failure_in_the_middle_keeps_the_orders_behind_it() {
    let mut state = AppState::new(3);
    for uid in ["A", "B", "C"] {
        assert_eq!(state.add_order(order(uid)), AddStep::Done(Ok(())));
    }
    let (saved, result) = add_with(&mut state, order("D"), &[Ok(()), Err(failure("disk full"))]);
    assert_eq!(saved, vec!["A".to_string(), "B".to_string()]);
    assert_eq!(result, Err(failure("disk full")));
    assert_eq!(state.len(), 1);
    assert_eq!(uid_of_last(&state), Some("C".to_string()));
}

#[test]
fn failure_on_the_first_order_keeps_the_rest() {
    let mut state = AppState::new(3);
    for uid in ["A", "B", "C"] {
        assert_eq!(state.add_order(order(uid)), AddStep::Done(Ok(())));
    }
    let (saved, result) = add_with(&mut state, order("D"), &[Err(failure("refused"))]);
    assert_eq!(saved, vec!["A".to_string()]);
    assert_eq!(result, Err(failure("refused")));
    assert_eq!(state.len(), 2);
    assert_eq!(uid_of_last(&state), Some("C".to_string()));
}

#[test]
fn buffer_below_capacity_after_a_failure_admits_without_a_flush() {
    let mut state = AppState::new(3);
    for uid in ["A", "B", "C"] {
        assert_eq!(state.add_order(order(uid)), AddStep::Done(Ok(())));
    }
    let (_, result) = add_with(&mut state, order("D"), &[Err(failure("refused"))]);
    assert!(result.is_err());
    assert_eq!(state.len(), 2);
    let (saved, result) = add_with(&mut state, order("E"), &[]);
    assert_eq!(saved, Vec::<String>::new());
    assert_eq!(result, Ok(()));
    assert_eq!(state.len(), 3);
    assert_eq!(uid_of_last(&state), Some("E".to_string()));
}

#[test]
fn flush_saves_in_the_order_of_arrival() {
    let mut state = AppState::new(4);
    for uid in ["first", "second", "third", "fourth"] {
        assert_eq!(state.add_order(order(uid)), AddStep::Done(Ok(())));
    }
    let (saved, result) = add_with(&mut state, order("fifth"), &[Ok(()), Ok(()), Ok(()), Ok(())]);
    assert_eq!(
        saved,
        vec!["first".to_string(), "second".to_string(), "third".to_string(), "fourth".to_string()]
    );
    assert_eq!(result, Ok(()));
    assert_eq!(state.len(), 1);
    assert_eq!(uid_of_last(&state), Some("fifth".to_string()));
}

#[test]
fn length_never_exceeds_capacity() {
    let capacity = 3;
    let mut state = AppState::new(capacity);
    let all_well = [Ok(()), Ok(()), Ok(())];
    for n in 0..20 {
        let (saved, result) = add_with(&mut state, order(&format!("order-{n}")), &all_well);
        assert_eq!(result, Ok(()));
        assert!(state.len() <= capacity);
        assert!(state.len() >= 1);
        if n > 0 && n % capacity == 0 {
            assert_eq!(saved.len(), capacity);
        } else {
            assert_eq!(saved.len(), 0);
        }
        assert_eq!(state.len(), n % capacity + 1);
    }
}

#[test]
fn read_gives_the_order_added_last() {
    let mut state = AppState::new(2);
    let all_well = [Ok(()), Ok(())];
    for n in 0..7 {
        let uid = format!("order-{n}");
        let (_, result) = add_with(&mut state, order(&uid), &all_well);
        assert_eq!(result, Ok(()));
        assert_eq!(uid_of_last(&state), Some(uid));
    }
}

#[test]
fn read_changes_nothing() {
    let mut state = AppState::new(2);
    assert_eq!(state.add_order(order("A")), AddStep::Done(Ok(())));
    assert_eq!(state.get_last_order(), Some(order("A")));
    assert_eq!(state.get_last_order(), Some(order("A")));
    assert_eq!(state.len(), 1);
}

#[test]
fn incoming_order_is_not_read_during_a_flush() {
    let mut state = AppState::new(2);
    assert_eq!(state.add_order(order("A")), AddStep::Done(Ok(())));
    assert_eq!(state.add_order(order("B")), AddStep::Done(Ok(())));
    let step = state.add_order(order("C"));
    assert!(matches!(step, AddStep::Save { .. }));
    assert_eq!(uid_of_last(&state), Some("B".to_string()));
}

#[test]
fn capacity_one_saves_each_order_when_the_next_arrives() {
    let mut state = AppState::new(1);
    let (saved, result) = add_with(&mut state, order("A"), &[]);
    assert_eq!((saved.len(), result), (0, Ok(())));
    let (saved, result) = add_with(&mut state, order("B"), &[Ok(())]);
    assert_eq!(saved, vec!["A".to_string()]);
    assert_eq!(result, Ok(()));
    let (saved, result) = add_with(&mut state, order("C"), &[Ok(())]);
    assert_eq!(saved, vec!["B".to_string()]);
    assert_eq!(result, Ok(()));
    assert_eq!(uid_of_last(&state), Some("C".to_string()));
}
