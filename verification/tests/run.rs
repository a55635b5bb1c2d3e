use meerkly::run::{Phase, RunAction, RunEvent, RunState, RETRY_MAX_SECS};
use meerkly::status::ConnectionState;

fn failed(s: &mut RunState, error: &str) -> Vec<RunAction> {
    s.step(RunEvent::StartFailed { error: error.to_owned() })
}

#[test]
fn a_run_publishes_connecting_then_starts() {
    let (state, actions) = RunState::new();
    assert_eq!(state.phase, Phase::Connecting);
    assert_eq!(
        actions,
        vec![RunAction::Publish { state: ConnectionState::Connecting }, RunAction::AttemptStart]
    );
}

#[test]
fn failed_first_connections_back_off_doubling_up_to_a_minute() {
    let (mut s, _) = RunState::new();
    let mut waits = Vec::new();
    for i in 0..8 {
        let actions = failed(&mut s, &format!("attempt {i}"));
        assert_eq!(actions[0], RunAction::Publish { state: ConnectionState::Connecting });
        match actions[1] {
            RunAction::Wait { secs } => waits.push(secs),
            other => panic!("expected a wait, got {other:?}"),
        }
        assert_eq!(s.last_error.as_deref(), Some(format!("attempt {i}").as_str()));
        assert_eq!(s.step(RunEvent::RetryDue), vec![RunAction::AttemptStart]);
    }
    assert_eq!(waits, vec![2, 4, 8, 16, 32, 60, 60, 60]);
    assert_eq!(s.backoff_secs, RETRY_MAX_SECS);
}

#[test]
fn connecting_clears_the_error_and_starts_the_status_timer() {
    let (mut s, _) = RunState::new();
    failed(&mut s, "no route");
    s.step(RunEvent::RetryDue);
    assert_eq!(s.step(RunEvent::Started), vec![RunAction::StartTicker { secs: 2 }]);
    assert_eq!(s.phase, Phase::Connected);
    assert!(s.last_error.is_none());
    assert_eq!(
        s.step(RunEvent::Tick { state: ConnectionState::Connecting }),
        vec![RunAction::Publish { state: ConnectionState::Connecting }]
    );
}

#[test]
fn a_stop_while_connected_stops_the_client_and_clears_the_status() {
    let (mut s, _) = RunState::new();
    s.step(RunEvent::Started);
    assert_eq!(
        s.step(RunEvent::Shutdown),
        vec![RunAction::StopClient, RunAction::ClearStatus, RunAction::Exit]
    );
    assert_eq!(s.phase, Phase::Finished);
    assert!(s.step(RunEvent::Tick { state: ConnectionState::Connected }).is_empty());
}

#[test]
fn a_stop_before_connecting_lands_immediately() {
    let (mut s, _) = RunState::new();
    assert_eq!(s.step(RunEvent::Shutdown), vec![RunAction::ClearStatus, RunAction::Exit]);
    let (mut s, _) = RunState::new();
    failed(&mut s, "x");
    assert_eq!(s.step(RunEvent::Shutdown), vec![RunAction::ClearStatus, RunAction::Exit]);
}

#[test]
fn events_out_of_turn_change_nothing() {
    let (mut s, _) = RunState::new();
    assert!(s.step(RunEvent::RetryDue).is_empty());
    assert!(s.step(RunEvent::Tick { state: ConnectionState::Idle }).is_empty());
    assert_eq!(s.phase, Phase::Connecting);
    assert_eq!(s.backoff_secs, 2);
}
