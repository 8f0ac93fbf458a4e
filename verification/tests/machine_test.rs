use aer_core::machine::StateMachine;
use aer_core::{AerError, State};

#[test]
fn machine_starts_created() {
    let m = StateMachine::new();
    assert_eq!(m.state(), State::Created);
}

#[test]
fn machine_follows_created_running_exited() {
    let mut m = StateMachine::new();
    assert!(m.transition(State::Running).is_ok());
    assert_eq!(m.state(), State::Running);
    assert!(m.transition(State::Exited).is_ok());
    assert_eq!(m.state(), State::Exited);
}

#[test]
fn machine_refuses_skipping_running() {
    let mut m = StateMachine::new();
    let r = m.transition(State::Exited);
    assert!(matches!(
        r,
        Err(AerError::InvalidStateTransition { from: State::Created, to: State::Exited })
    ));
    assert_eq!(m.state(), State::Created);
}

#[test]
fn machine_exited_is_terminal() {
    let mut m = StateMachine::new();
    m.transition(State::Running).unwrap();
    m.transition(State::Exited).unwrap();
    for to in [State::Created, State::Running, State::Exited] {
        let r = m.transition(to);
        assert!(matches!(
            r,
            Err(AerError::InvalidStateTransition { from: State::Exited, to: t }) if t == to
        ));
        assert_eq!(m.state(), State::Exited);
    }
}

#[test]
fn machine_refuses_self_and_backward_transitions() {
    let mut m = StateMachine::new();
    assert!(m.transition(State::Created).is_err());
    m.transition(State::Running).unwrap();
    assert!(m.transition(State::Running).is_err());
    assert!(m.transition(State::Created).is_err());
    assert_eq!(m.state(), State::Running);
}

#[test]
fn state_names() {
    assert_eq!(State::Created.name(), "Created");
    assert_eq!(State::Running.name(), "Running");
    assert_eq!(State::Exited.name(), "Exited");
    assert!(State::Created.can_transition_to(State::Running));
    assert!(State::Running.can_transition_to(State::Exited));
    assert!(!State::Exited.can_transition_to(State::Created));
}
