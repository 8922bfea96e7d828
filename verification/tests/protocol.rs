use api_gateway::events::{LogDetails, LogEntry, RetryReason};
use api_gateway::forward::{
    backoff_delay_ms, failure_response, on_decoded, report_exhausted, status_is_server_error,
    LastObservation, NetworkStep, NextAttempt, ResponseStep, RetryState, UpstreamCallOutcome,
    BASE_BACKOFF_MS,
    DECODE_ERROR_PREFIX, MAX_RETRIES, UPSTREAM_FAILURE_MESSAGE,
};
use api_gateway::model::{GatewayResponse, ResponseBody, UpstreamErrorBody};

const URL: &str = "http://127.0.0.1:8001/ask";

/// How a scripted upstream service behaves at one attempt.
#[derive(Clone)]
enum Reply {
    NoResponse(&'static str),
    Responded(u16, Result<&'static str, &'static str>),
}

/// What a call against a scripted upstream service did.
struct Run {
    attempts: usize,
    delays: Vec<u64>,
    events: Vec<LogEntry>,
    outcome: UpstreamCallOutcome<String>,
}

/// Runs the protocol as a caller does, taking the replies from `script`.
fn run(script: &[Reply]) -> Run {
    let mut state = RetryState::start(URL.to_string());
    let mut attempts = 0;
    let mut delays = Vec::new();
    let mut events = Vec::new();
    loop {
        let ready = match state.next_attempt() {
            NextAttempt::Send(ready) => ready,
            NextAttempt::Finished(outcome) => return Run { attempts, delays, events, outcome },
        };
        assert_eq!(ready.attempt(), attempts);
        let reply = script[attempts].clone();
        attempts += 1;
        let backoff = match reply {
            Reply::NoResponse(error) => match ready.on_network_error(error.to_string()) {
                NetworkStep::Retry(backoff) => backoff,
                NetworkStep::GiveUp(outcome) => return Run { attempts, delays, events, outcome },
            },
            Reply::Responded(status, body) => match ready.on_response(status) {
                ResponseStep::Retry(backoff) => backoff,
                ResponseStep::Decode { status } => {
                    let decoded = body.map(|b| b.to_string()).map_err(|e| e.to_string());
                    let outcome = on_decoded(status, decoded);
                    return Run { attempts, delays, events, outcome };
                },
            },
        };
        delays.push(backoff.delay_ms);
        events.push(backoff.event);
        state = backoff.next;
    }
}

fn bad_gateway(upstream_status: Option<u16>, last_error: Option<&str>) -> GatewayResponse {
    GatewayResponse {
        status: 502,
        body: ResponseBody::UpstreamError(UpstreamErrorBody {
            error: "Failed to reach Python service".to_string(),
            upstream_status,
            last_error: last_error.map(|e| e.to_string()),
        }),
    }
}

#[test]
fn protocol_constants() {
    assert_eq!(MAX_RETRIES, 3);
    assert_eq!(BASE_BACKOFF_MS, 120);
    assert_eq!(UPSTREAM_FAILURE_MESSAGE, "Failed to reach Python service");
    assert_eq!(DECODE_ERROR_PREFIX, "Failed to parse upstream response: ");
}

#[test]
fn server_error_range() {
    assert!(!status_is_server_error(499));
    assert!(status_is_server_error(500));
    assert!(status_is_server_error(503));
    assert!(status_is_server_error(599));
    assert!(!status_is_server_error(600));
    assert!(!status_is_server_error(200));
    assert!(!status_is_server_error(400));
    assert!(!status_is_server_error(0));
    assert!(!status_is_server_error(65535));
}

#[test]
fn backoff_doubles() {
    assert_eq!(backoff_delay_ms(0), 120);
    assert_eq!(backoff_delay_ms(1), 240);
    assert_eq!(backoff_delay_ms(2), 480);
    assert_eq!(backoff_delay_ms(10), 122_880);
    assert_eq!(backoff_delay_ms(57), 120 * (1u64 << 57));
}

#[test]
fn start_state() {
    let state = RetryState::start(URL.to_string());
    assert_eq!(state.attempt(), 0);
    assert!(state.has_budget());
    assert_eq!(state.url(), URL);
    match state.next_attempt::<String>() {
        NextAttempt::Send(ready) => assert_eq!(ready.attempt(), 0),
        other => panic!("unexpected step {:?}", other),
    }
}

#[test]
fn success_at_first_attempt() {
    let r = run(&[Reply::Responded(200, Ok("body"))]);
    assert_eq!(r.attempts, 1);
    assert!(r.delays.is_empty());
    assert!(r.events.is_empty());
    assert_eq!(r.outcome, UpstreamCallOutcome::Success("body".to_string()));
}

#[test]
fn retry_timing_two_server_errors_then_success() {
    let r = run(&[
        Reply::Responded(500, Err("unused")),
        Reply::Responded(500, Err("unused")),
        Reply::Responded(200, Ok("the 200 body")),
    ]);
    assert_eq!(r.attempts, 3);
    assert_eq!(r.delays, vec![120, 240]);
    assert_eq!(r.outcome, UpstreamCallOutcome::Success("the 200 body".to_string()));
    assert_eq!(r.outcome.into_result(), Ok("the 200 body".to_string()));
}

#[test]
fn retry_events_count_attempts_from_one() {
    let r = run(&[
        Reply::Responded(500, Err("unused")),
        Reply::Responded(503, Err("unused")),
        Reply::Responded(200, Ok("ok")),
    ]);
    assert_eq!(
        r.events,
        vec![
            LogEntry {
                event: "gateway.retry".to_string(),
                details: LogDetails::Retry {
                    url: URL.to_string(),
                    attempt: 1,
                    reason: RetryReason::UpstreamServerError { status: 500 },
                },
            },
            LogEntry {
                event: "gateway.retry".to_string(),
                details: LogDetails::Retry {
                    url: URL.to_string(),
                    attempt: 2,
                    reason: RetryReason::UpstreamServerError { status: 503 },
                },
            },
        ]
    );
}

#[test]
fn retry_exhaustion_on_server_errors() {
    let r = run(&[
        Reply::Responded(500, Err("expected value at line 1 column 1")),
        Reply::Responded(500, Err("expected value at line 1 column 1")),
        Reply::Responded(500, Err("expected value at line 1 column 1")),
    ]);
    assert_eq!(r.attempts, 3);
    assert_eq!(r.delays.len(), 2);
    assert_eq!(r.delays, vec![120, 240]);
    assert_eq!(
        r.outcome,
        UpstreamCallOutcome::DecodeError {
            status: 500,
            message: "Failed to parse upstream response: expected value at line 1 column 1"
                .to_string(),
        }
    );
    assert_eq!(
        r.outcome.into_result(),
        Err(bad_gateway(
            Some(500),
            Some("Failed to parse upstream response: expected value at line 1 column 1")
        ))
    );
}

#[test]
fn server_error_on_last_attempt_with_decodable_body_succeeds() {
    let r = run(&[
        Reply::Responded(502, Err("unused")),
        Reply::Responded(502, Err("unused")),
        Reply::Responded(502, Ok("decodable")),
    ]);
    assert_eq!(r.attempts, 3);
    assert_eq!(r.outcome, UpstreamCallOutcome::Success("decodable".to_string()));
}

#[test]
fn network_failures_are_retried_until_the_budget_is_spent() {
    let r = run(&[
        Reply::NoResponse("connection refused"),
        Reply::NoResponse("connection refused"),
        Reply::NoResponse("connection refused"),
    ]);
    assert_eq!(r.attempts, 3);
    assert_eq!(r.delays, vec![120, 240]);
    assert_eq!(
        r.outcome,
        UpstreamCallOutcome::NetworkError { message: "connection refused".to_string() }
    );
    let response = r.outcome.into_result().unwrap_err();
    assert_eq!(response.status, 502);
    match response.body {
        ResponseBody::UpstreamError(body) => {
            assert_eq!(body.upstream_status, None);
            assert!(!body.last_error.unwrap().is_empty());
        },
        other => panic!("unexpected body {:?}", other),
    }
}

#[test]
fn network_retry_events_carry_the_error() {
    let r = run(&[
        Reply::NoResponse("first"),
        Reply::NoResponse("second"),
        Reply::NoResponse("third"),
    ]);
    assert_eq!(
        r.events,
        vec![
            LogEntry {
                event: "gateway.retry".to_string(),
                details: LogDetails::Retry {
                    url: URL.to_string(),
                    attempt: 1,
                    reason: RetryReason::NetworkError { error: "first".to_string() },
                },
            },
            LogEntry {
                event: "gateway.retry".to_string(),
                details: LogDetails::Retry {
                    url: URL.to_string(),
                    attempt: 2,
                    reason: RetryReason::NetworkError { error: "second".to_string() },
                },
            },
        ]
    );
    assert_eq!(r.outcome, UpstreamCallOutcome::NetworkError { message: "third".to_string() });
}

#[test]
fn final_network_failure_reports_no_status() {
    let r = run(&[
        Reply::Responded(500, Err("unused")),
        Reply::NoResponse("reset"),
        Reply::NoResponse("timed out"),
    ]);
    assert_eq!(r.attempts, 3);
    assert_eq!(r.delays, vec![120, 240]);
    assert_eq!(r.outcome.into_result(), Err(bad_gateway(None, Some("timed out"))));
}

#[test]
fn no_retry_on_400_with_decodable_body() {
    let r = run(&[Reply::Responded(400, Ok("still a body"))]);
    assert_eq!(r.attempts, 1);
    assert!(r.delays.is_empty());
    assert_eq!(r.outcome, UpstreamCallOutcome::Success("still a body".to_string()));
}

#[test]
fn no_retry_on_400_with_undecodable_body() {
    let r = run(&[Reply::Responded(400, Err("missing field `answer`"))]);
    assert_eq!(r.attempts, 1);
    assert!(r.delays.is_empty());
    assert_eq!(
        r.outcome.into_result(),
        Err(bad_gateway(
            Some(400),
            Some("Failed to parse upstream response: missing field `answer`")
        ))
    );
}

#[test]
fn decode_failure_is_never_retried() {
    let r = run(&[Reply::Responded(200, Err("EOF while parsing"))]);
    assert_eq!(r.attempts, 1);
    assert_eq!(
        r.outcome,
        UpstreamCallOutcome::DecodeError {
            status: 200,
            message: "Failed to parse upstream response: EOF while parsing".to_string(),
        }
    );
}

#[test]
fn recovery_after_one_network_failure() {
    let r = run(&[Reply::NoResponse("refused"), Reply::Responded(200, Ok("up again"))]);
    assert_eq!(r.attempts, 2);
    assert_eq!(r.delays, vec![120]);
    assert_eq!(r.outcome, UpstreamCallOutcome::Success("up again".to_string()));
}

#[test]
fn statuses_next_to_the_server_error_range_are_not_retried() {
    for status in [100u16, 200, 204, 301, 404, 499, 600, 999] {
        let state = RetryState::start(URL.to_string());
        assert_eq!(state.on_response(status), ResponseStep::Decode { status });
    }
    for status in [500u16, 501, 599] {
        let state = RetryState::start(URL.to_string());
        match state.on_response(status) {
            ResponseStep::Retry(backoff) => {
                assert_eq!(backoff.delay_ms, 120);
                assert_eq!(backoff.next.attempt(), 1);
                assert_eq!(backoff.next.url(), URL);
            },
            other => panic!("unexpected step {:?}", other),
        }
    }
}

#[test]
fn budget_is_never_spent_by_the_protocol() {
    let first = match RetryState::start(URL.to_string()).on_response(500) {
        ResponseStep::Retry(backoff) => backoff.next,
        other => panic!("unexpected step {:?}", other),
    };
    assert!(first.has_budget());
    let second = match first.on_network_error::<String>("x".to_string()) {
        NetworkStep::Retry(backoff) => backoff.next,
        other => panic!("unexpected step {:?}", other),
    };
    assert_eq!(second.attempt(), 2);
    assert!(second.has_budget());
    let third = match second.next_attempt::<String>() {
        NextAttempt::Send(ready) => ready,
        other => panic!("unexpected step {:?}", other),
    };
    assert_eq!(third.on_response(500), ResponseStep::Decode { status: 500 });
}

#[test]
fn last_recorded_observation_decides_the_exhausted_report() {
    assert_eq!(
        report_exhausted::<String>(LastObservation::Status(503)),
        UpstreamCallOutcome::UpstreamError { status: 503, message: None }
    );
    assert_eq!(
        report_exhausted::<String>(LastObservation::NetworkError("reset".to_string())),
        UpstreamCallOutcome::NetworkError { message: "reset".to_string() }
    );
}

#[test]
fn exhausted_report_becomes_bad_gateway() {
    let by_status = report_exhausted::<String>(LastObservation::Status(503));
    assert_eq!(by_status.into_result(), Err(bad_gateway(Some(503), None)));
    let by_network = report_exhausted::<String>(LastObservation::NetworkError("reset".to_string()));
    assert_eq!(by_network.into_result(), Err(bad_gateway(None, Some("reset"))));
}

#[test]
fn failure_response_shape() {
    assert_eq!(failure_response(None, None), bad_gateway(None, None));
    assert_eq!(
        failure_response(Some(504), Some("late".to_string())),
        bad_gateway(Some(504), Some("late"))
    );
}

#[test]
fn decoded_body_wins_over_status() {
    assert_eq!(on_decoded(500, Ok(7u32)), UpstreamCallOutcome::Success(7u32));
    assert_eq!(
        on_decoded::<u32>(200, Err(String::new())),
        UpstreamCallOutcome::DecodeError {
            status: 200,
            message: "Failed to parse upstream response: ".to_string(),
        }
    );
}
