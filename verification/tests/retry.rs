use parallel_fetch::{FetchError, RetryDecision, RetryState};

fn transient() -> FetchError {
    FetchError::TransientError {
        status_code: Some(503),
        message: "connection reset".to_owned(),
    }
}

#[test]
fn retry_budget_of_zero_is_rejected() {
    // A zero budget fails with invalid-argument before any attempt runs.
    let error = RetryState::new(0).expect_err("testing");
    assert_eq!(
        error.description(),
        "Number of max-retries must be greater than zero".to_owned(),
    );
    assert!(matches!(error, FetchError::InvalidArgumentsError(_)));
}

#[test]
fn retry_success_ends_supervision() {
    let mut supervisor = RetryState::new(3).unwrap();
    assert!(matches!(
        supervisor.observe(Ok(())),
        RetryDecision::Success
    ));
    assert_eq!(supervisor.attempts, 0);
}

#[test]
fn retry_transient_until_budget_spent() {
    let mut supervisor = RetryState::new(3).unwrap();
    assert!(matches!(
        supervisor.observe(Err(transient())),
        RetryDecision::Retry
    ));
    assert!(matches!(
        supervisor.observe(Err(transient())),
        RetryDecision::Retry
    ));
    match supervisor.observe(Err(transient())) {
        RetryDecision::Fail(error) => {
            assert!(matches!(
                error,
                FetchError::TransientError {
                    status_code: Some(503),
                    ..
                }
            ));
        }
        _ => panic!("expected the third transient failure to be terminal"),
    }
    assert_eq!(supervisor.attempts, 3);
}

#[test]
fn retry_client_error_is_immediate() {
    let mut supervisor = RetryState::new(5).unwrap();
    let client = FetchError::ClientRequestError {
        status_code: 416,
        message: "requested range not satisfiable".to_owned(),
    };
    match supervisor.observe(Err(client)) {
        RetryDecision::Fail(error) => {
            assert!(matches!(
                error,
                FetchError::ClientRequestError {
                    status_code: 416,
                    ..
                }
            ));
        }
        _ => panic!("expected a client error to be terminal"),
    }
}

#[test]
fn retry_server_support_error_is_immediate() {
    let mut supervisor = RetryState::new(5).unwrap();
    let support = FetchError::ServerSupportError("no partial content".to_owned());
    match supervisor.observe(Err(support)) {
        RetryDecision::Fail(error) => {
            assert!(matches!(error, FetchError::ServerSupportError(_)));
        }
        _ => panic!("expected a server-support error to be terminal"),
    }
    assert_eq!(supervisor.attempts, 0);
}

#[test]
fn retry_with_budget_of_one_fails_on_first_transient() {
    let mut supervisor = RetryState::new(1).unwrap();
    assert!(matches!(
        supervisor.observe(Err(transient())),
        RetryDecision::Fail(_)
    ));
}
