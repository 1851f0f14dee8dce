use vikey::state::{InvalidStateTransition, State, StateMachine};

#[test]
fn test_state_machine_transitions() {
    let mut sm = StateMachine::new();
    assert_eq!(sm.current(), State::Initial);

    assert!(sm.transition(State::Buffering).is_ok());
    assert_eq!(sm.current(), State::Buffering);

    assert!(sm.transition(State::Processing).is_ok());
    assert_eq!(sm.current(), State::Processing);
}

#[test]
fn test_invalid_transition() {
    let mut sm = StateMachine::new();
    sm.transition(State::Buffering).unwrap();

    assert!(sm.can_transition(State::Processing));
}

#[test]
fn test_reset() {
    let mut sm = StateMachine::new();
    sm.transition(State::Buffering).unwrap();
    sm.transition(State::Processing).unwrap();

    sm.reset();
    assert_eq!(sm.current(), State::Initial);
}

#[test]
fn refused_transition_keeps_state() {
    let mut sm = StateMachine::new();
    assert_eq!(
        sm.transition(State::Committed),
        Err(InvalidStateTransition { from: State::Initial, to: State::Committed })
    );
    assert_eq!(sm.current(), State::Initial);
    for _ in 0..12 {
        sm.transition(State::Buffering).unwrap();
        sm.transition(State::Initial).unwrap();
    }
    assert!(!sm.can_transition(State::Processing));
}
