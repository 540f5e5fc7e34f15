use recoverable_messaging::error::{AmqpError, AmqpErrorCondition, Error, ErrorCause, ErrorKind};
use recoverable_messaging::retry::{
    apply_jitter, backoff_ms, execute_with_retry, policy_classification, RetryOptions, RetryPolicy,
};

fn transient(status: u16) -> Error {
    AmqpError::new_management_error(status, Some("transient".into())).into()
}

fn fatal() -> Error {
    AmqpError::new_described_error(AmqpErrorCondition::IllegalState, Some("fatal".into())).into()
}

fn status_of(e: &Error) -> Option<u16> {
    match &e.cause {
        Some(ErrorCause::Amqp(a)) => match &a.kind {
            recoverable_messaging::error::AmqpErrorKind::ManagementStatusCode { status, .. } => {
                Some(*status)
            }
            _ => None,
        },
        _ => None,
    }
}

#[test]
fn retry_n_failures_then_success() {
    // Two retryable failures, then success, within a budget of three
    // retries: the success value comes back after exactly two delays.
    let options = RetryOptions::new(3, 100, 60000, 0);
    let outcomes: Vec<Result<i32, Error>> =
        vec![Err(transient(503)), Err(transient(503)), Ok(42)];
    let scales = vec![100u16, 100, 100];
    let run = execute_with_retry(RetryPolicy::ManagementOperation, &options, outcomes, &scales);
    assert_eq!(run.result.unwrap(), 42);
    assert_eq!(run.delays, vec![100, 200]);
}

#[test]
fn success_on_first_attempt_sleeps_never() {
    let options = RetryOptions::default();
    let outcomes: Vec<Result<i32, Error>> = vec![Ok(7)];
    let scales = vec![100u16; 4];
    let run = execute_with_retry(RetryPolicy::ManagementOperation, &options, outcomes, &scales);
    assert_eq!(run.result.unwrap(), 7);
    assert_eq!(run.delays.len(), 0);
}

#[test]
fn fatal_error_is_never_retried() {
    // A fatal first failure comes back at once, whatever the budget.
    let options = RetryOptions::new(1000000, 100, 60000, 0);
    let outcomes: Vec<Result<i32, Error>> = vec![Err(fatal())];
    let scales = vec![100u16; 4];
    let run = execute_with_retry(RetryPolicy::ManagementOperation, &options, outcomes, &scales);
    assert!(run.result.is_err());
    assert_eq!(run.delays.len(), 0);
}

#[test]
fn exhausted_budget_returns_last_error_verbatim() {
    let options = RetryOptions::new(1, 100, 60000, 0);
    let outcomes: Vec<Result<i32, Error>> = vec![Err(transient(503)), Err(transient(429))];
    let scales = vec![100u16; 4];
    let run = execute_with_retry(RetryPolicy::ManagementOperation, &options, outcomes, &scales);
    let err = run.result.unwrap_err();
    // The error surfaced is the last one observed, not the first.
    assert_eq!(status_of(&err), Some(429));
    assert_eq!(run.delays.len(), 1);
}

#[test]
fn zero_max_retries_attempts_exactly_once() {
    let options = RetryOptions::new(0, 100, 60000, 0);
    let outcomes: Vec<Result<i32, Error>> = vec![Err(transient(503))];
    let scales = vec![100u16; 4];
    let run = execute_with_retry(RetryPolicy::ManagementOperation, &options, outcomes, &scales);
    assert!(run.result.is_err());
    assert_eq!(run.delays.len(), 0);
}

#[test]
fn no_classifier_means_no_retry() {
    let options = RetryOptions::new(5, 100, 60000, 0);
    let outcomes: Vec<Result<i32, Error>> = vec![Err(transient(503))];
    let scales = vec![100u16; 8];
    let run = execute_with_retry(RetryPolicy::NoRetry, &options, outcomes, &scales);
    assert!(run.result.is_err());
    assert_eq!(run.delays.len(), 0);
}

#[test]
fn connection_policy_retries_network_failures() {
    let io = Error::message(ErrorKind::Io, "connection reset");
    assert!(!matches!(
        policy_classification(RetryPolicy::ConnectionRecovery, &io),
        recoverable_messaging::error::ErrorClassification::Fatal
    ));
    let credential = Error::message(ErrorKind::Credential, "forbidden");
    assert!(matches!(
        policy_classification(RetryPolicy::ConnectionRecovery, &credential),
        recoverable_messaging::error::ErrorClassification::Fatal
    ));
}

#[test]
fn cancellation_stops_the_retry_loop() {
    // A caller-requested abort is surfaced distinctly and never retried.
    let options = RetryOptions::new(5, 100, 60000, 0);
    let outcomes: Vec<Result<i32, Error>> =
        vec![Err(Error::message(ErrorKind::Cancelled, "caller gave up"))];
    let scales = vec![100u16; 8];
    let run = execute_with_retry(RetryPolicy::ManagementOperation, &options, outcomes, &scales);
    let err = run.result.unwrap_err();
    assert_eq!(err.kind(), ErrorKind::Cancelled);
    assert_eq!(run.delays.len(), 0);
}

#[test]
fn backoff_doubles_and_caps() {
    let options = RetryOptions::new(10, 100, 60000, 0);
    assert_eq!(backoff_ms(&options, 1), 100);
    assert_eq!(backoff_ms(&options, 2), 200);
    assert_eq!(backoff_ms(&options, 3), 400);
    assert_eq!(backoff_ms(&options, 4), 800);

    let capped = RetryOptions::new(10, 40000, 60000, 0);
    assert_eq!(backoff_ms(&capped, 1), 40000);
    assert_eq!(backoff_ms(&capped, 2), 60000);
    assert_eq!(backoff_ms(&capped, 3), 60000);

    let base_above_cap = RetryOptions::new(10, 90000, 60000, 0);
    assert_eq!(backoff_ms(&base_above_cap, 1), 60000);
}

#[test]
fn jitter_scales_in_percent() {
    assert_eq!(apply_jitter(1000, 108), 1080);
    assert_eq!(apply_jitter(1000, 92), 920);
    assert_eq!(apply_jitter(1000, 100), 1000);
    assert_eq!(apply_jitter(0, 150), 0);
}

#[test]
fn default_options_documented_values() {
    let options = RetryOptions::default();
    assert_eq!(options.max_retries, 3);
    assert_eq!(options.base_delay_ms, 800);
    assert_eq!(options.max_delay_ms, 60000);
    assert_eq!(options.jitter_percent, 8);
}
