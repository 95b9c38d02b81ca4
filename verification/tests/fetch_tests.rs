use clients::fetch::FetchAttempt;
use clients::fetch::FetchError;
use clients::fetch::FetchEvent;
use clients::fetch::FetchStep;
use clients::fetch::fetch_script;

fn server_error(status: u16) -> FetchEvent {
    FetchEvent::Response { status, body: b"upstream overloaded".to_vec() }
}

#[test]
fn retry_bound_exhausts_budget() {
    // An endpoint that always answers 500: exactly max_retries + 1 attempts,
    // with strictly growing backoff 2^1, 2^2, 2^3 seconds.
    let events = vec![
        server_error(500),
        server_error(500),
        server_error(500),
        server_error(500),
        server_error(500),
    ];
    let t = fetch_script(&events, 3);
    assert_eq!(t.attempts, 4);
    assert_eq!(t.delays, vec![2, 4, 8]);
    assert!(t.delays.windows(2).all(|w| w[0] < w[1]));
    assert_eq!(t.result, Err(FetchError::Status(500)));
}

#[test]
fn no_retry_on_client_error() {
    // A 4xx fails immediately on the first attempt; no backoff is slept.
    let events = vec![FetchEvent::Response { status: 404, body: b"no such agency".to_vec() }];
    let t = fetch_script(&events, 3);
    assert_eq!(t.attempts, 1);
    assert!(t.delays.is_empty());
    assert_eq!(t.result, Err(FetchError::Status(404)));
}

#[test]
fn no_retry_on_transport_failure() {
    let events = vec![FetchEvent::Transport];
    let t = fetch_script(&events, 3);
    assert_eq!(t.attempts, 1);
    assert!(t.delays.is_empty());
    assert_eq!(t.result, Err(FetchError::Transport));
}

#[test]
fn success_after_server_errors() {
    let events = vec![
        server_error(503),
        server_error(502),
        FetchEvent::Response { status: 200, body: b"{\"results\":[]}".to_vec() },
    ];
    let t = fetch_script(&events, 3);
    assert_eq!(t.attempts, 3);
    assert_eq!(t.delays, vec![2, 4]);
    assert_eq!(t.result, Ok(b"{\"results\":[]}".to_vec()));
}

#[test]
fn immediate_success_uses_one_attempt() {
    let events = vec![FetchEvent::Response { status: 200, body: b"ok".to_vec() }];
    let t = fetch_script(&events, 3);
    assert_eq!(t.attempts, 1);
    assert_eq!(t.result, Ok(b"ok".to_vec()));
}

#[test]
fn step_walks_through_backoff() {
    let mut attempt = FetchAttempt::new(3);
    match attempt.step(server_error(500)) {
        FetchStep::Retry { delay_secs } => assert_eq!(delay_secs, 2),
        _ => panic!("expected a retry"),
    }
    match attempt.step(server_error(500)) {
        FetchStep::Retry { delay_secs } => assert_eq!(delay_secs, 4),
        _ => panic!("expected a retry"),
    }
    match attempt.step(server_error(500)) {
        FetchStep::Retry { delay_secs } => assert_eq!(delay_secs, 8),
        _ => panic!("expected a retry"),
    }
    // Budget spent: the fourth server error is terminal.
    match attempt.step(server_error(500)) {
        FetchStep::Fail { error } => assert_eq!(error, FetchError::Status(500)),
        _ => panic!("expected a failure"),
    }
}

#[test]
fn step_delivers_success_body() {
    let mut attempt = FetchAttempt::new(3);
    match attempt.step(FetchEvent::Response { status: 200, body: b"body".to_vec() }) {
        FetchStep::Deliver { body } => assert_eq!(body, b"body".to_vec()),
        _ => panic!("expected a delivery"),
    }
}

#[test]
fn step_fails_transport_without_counting_an_attempt_against_budget() {
    let mut attempt = FetchAttempt::new(3);
    match attempt.step(FetchEvent::Transport) {
        FetchStep::Fail { error } => assert_eq!(error, FetchError::Transport),
        _ => panic!("expected a failure"),
    }
}
