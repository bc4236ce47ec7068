use image_search::supervisor::{
    backoff_delay_seconds, ConnectionEvent, ConnectionState, ConnectionSupervisor,
    SupervisorAction,
};

#[test]
fn login_with_existing_authorized_session() {
    let mut s = ConnectionSupervisor::new();
    assert_eq!(s.state, ConnectionState::Disconnected);
    assert_eq!(s.step(ConnectionEvent::StartRequested), SupervisorAction::Connect);
    assert_eq!(s.state, ConnectionState::Authenticating);
    assert_eq!(
        s.step(ConnectionEvent::Connected { already_authorized: true }),
        SupervisorAction::PersistSession
    );
    assert_eq!(s.state, ConnectionState::Authenticated);
    assert_eq!(s.step(ConnectionEvent::SessionPersisted), SupervisorAction::StartPipeline);
    assert_eq!(s.state, ConnectionState::Running);
    assert_eq!(s.failures, 0);
}

#[test]
fn login_with_confirmation_code() {
    let mut s = ConnectionSupervisor::new();
    s.step(ConnectionEvent::StartRequested);
    assert_eq!(
        s.step(ConnectionEvent::Connected { already_authorized: false }),
        SupervisorAction::RequestCode
    );
    assert_eq!(s.state, ConnectionState::AwaitingConfirmationCode);
    assert_eq!(s.step(ConnectionEvent::CodeAccepted), SupervisorAction::PersistSession);
    assert_eq!(s.state, ConnectionState::Authenticated);
    assert_eq!(s.step(ConnectionEvent::SessionPersisted), SupervisorAction::StartPipeline);
    assert_eq!(s.state, ConnectionState::Running);
}

#[test]
fn backoff_schedule_doubles_then_caps() {
    let mut s = ConnectionSupervisor::new();
    s.step(ConnectionEvent::StartRequested);
    let expected: [u64; 10] = [1, 2, 4, 8, 16, 32, 64, 128, 128, 128];
    for (k, &secs) in expected.iter().enumerate() {
        let a = s.step(ConnectionEvent::AttemptFailed);
        assert_eq!(a, SupervisorAction::Sleep { seconds: secs });
        assert_eq!(s.state, ConnectionState::Backoff { attempt: (k + 1) as u32 });
        assert_eq!(s.step(ConnectionEvent::BackoffElapsed), SupervisorAction::Connect);
        assert_eq!(s.state, ConnectionState::Authenticating);
    }
}

#[test]
fn success_resets_backoff_counter() {
    let mut s = ConnectionSupervisor::new();
    s.step(ConnectionEvent::StartRequested);
    assert_eq!(
        s.step(ConnectionEvent::AttemptFailed),
        SupervisorAction::Sleep { seconds: 1 }
    );
    s.step(ConnectionEvent::BackoffElapsed);
    assert_eq!(
        s.step(ConnectionEvent::AttemptFailed),
        SupervisorAction::Sleep { seconds: 2 }
    );
    s.step(ConnectionEvent::BackoffElapsed);
    s.step(ConnectionEvent::Connected { already_authorized: true });
    s.step(ConnectionEvent::SessionPersisted);
    assert_eq!(s.state, ConnectionState::Running);
    assert_eq!(s.failures, 0);
    // The next failure starts the schedule over at 2^0.
    assert_eq!(
        s.step(ConnectionEvent::AttemptFailed),
        SupervisorAction::Sleep { seconds: 1 }
    );
}

#[test]
fn pipeline_failure_backs_off() {
    let mut s = ConnectionSupervisor::new();
    s.step(ConnectionEvent::StartRequested);
    s.step(ConnectionEvent::Connected { already_authorized: true });
    s.step(ConnectionEvent::SessionPersisted);
    assert_eq!(s.state, ConnectionState::Running);
    let a = s.step(ConnectionEvent::AttemptFailed);
    assert_eq!(a, SupervisorAction::Sleep { seconds: 1 });
    assert_eq!(s.state, ConnectionState::Backoff { attempt: 1 });
}

#[test]
fn delay_values() {
    assert_eq!(backoff_delay_seconds(0), 1);
    assert_eq!(backoff_delay_seconds(3), 8);
    assert_eq!(backoff_delay_seconds(7), 128);
    assert_eq!(backoff_delay_seconds(8), 128);
    assert_eq!(backoff_delay_seconds(1000), 128);
}

#[test]
fn mismatched_event_is_ignored() {
    let mut s = ConnectionSupervisor::new();
    assert_eq!(s.step(ConnectionEvent::CodeAccepted), SupervisorAction::Ignore);
    assert_eq!(s.state, ConnectionState::Disconnected);
}
