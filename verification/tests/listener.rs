use tv_wol::listener::{AcceptOutcome, Listener, ListenerStep};

#[test]
fn a_new_listener_is_running() {
    assert!(Listener::new().running());
}

#[test]
fn an_accepted_connection_gets_a_watcher() {
    let mut l = Listener::new();
    assert_eq!(l.accepted(AcceptOutcome::Accepted), ListenerStep::Watch);
    assert!(l.running());
}

#[test]
fn a_failed_connection_does_not_end_the_loop() {
    let mut l = Listener::new();
    assert_eq!(l.accepted(AcceptOutcome::ConnectionFailed), ListenerStep::Skip);
    assert!(l.running());
    assert_eq!(l.accepted(AcceptOutcome::Accepted), ListenerStep::Watch);
    assert_eq!(l.accepted(AcceptOutcome::ConnectionFailed), ListenerStep::Skip);
    assert_eq!(l.accepted(AcceptOutcome::Accepted), ListenerStep::Watch);
    assert!(l.running());
}

#[test]
fn a_failed_socket_ends_the_loop_for_good() {
    let mut l = Listener::new();
    assert_eq!(l.accepted(AcceptOutcome::Accepted), ListenerStep::Watch);
    assert_eq!(l.accepted(AcceptOutcome::ListenerFailed), ListenerStep::Stop);
    assert!(!l.running());
    assert_eq!(l.accepted(AcceptOutcome::Accepted), ListenerStep::Stop);
    assert_eq!(l.accepted(AcceptOutcome::ConnectionFailed), ListenerStep::Stop);
    assert_eq!(l.accepted(AcceptOutcome::ListenerFailed), ListenerStep::Stop);
    assert!(!l.running());
}
