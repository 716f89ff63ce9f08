use parallel_fetch::{
    content_range_string, create_ranges, join_outcomes, probe_response, validate_range_response,
    write_at, FetchError, Range, RetryDecision, RetryState,
};

#[test]
fn single_fetch() {
    // One range over ten bytes: the server advertises support, answers the
    // range request with 206, the canonical content-range and the exact
    // length, and the body lands at offset zero.
    let accept_ranges = Some("bytes".to_owned());
    let content_length = Some("10".to_owned());
    let probe = probe_response(&accept_ranges, &content_length, &None).unwrap();
    assert_eq!(probe.content_length, 10);

    let ranges = create_ranges(probe.content_length, 1).unwrap();
    assert_eq!(ranges, vec![Range { start: 0, end: 9 }]);

    let echoed = Some("bytes 0-9/10".to_owned());
    let length = Some("10".to_owned());
    let checked = validate_range_response(ranges[0], 10, 206, &echoed, &length);
    assert!(checked.is_ok());

    let mut destination = vec![0u8; 10];
    let body = b"HelloWorld".to_vec();
    write_at(&mut destination, 0, &body);
    assert_eq!(destination, b"HelloWorld".to_vec());
}

#[test]
fn second_fetch_fails() {
    // Two ranges over ten bytes: range A succeeds, range B keeps answering
    // with a 500 status until the retry budget is spent, and the overall
    // result carries that server error.
    let ranges = create_ranges(10, 2).unwrap();
    assert_eq!(
        ranges,
        vec![Range { start: 0, end: 4 }, Range { start: 5, end: 9 }]
    );

    let echoed = Some("bytes 0-4/10".to_owned());
    let length = Some("5".to_owned());
    let outcome_a = validate_range_response(ranges[0], 10, 206, &echoed, &length);
    assert!(outcome_a.is_ok());

    let mut supervisor = RetryState::new(5).unwrap();
    let mut attempts = 0;
    let outcome_b = loop {
        attempts += 1;
        let outcome = validate_range_response(ranges[1], 10, 500, &None, &None);
        match supervisor.observe(outcome) {
            RetryDecision::Retry => continue,
            RetryDecision::Fail(error) => break Err(error),
            RetryDecision::Success => unreachable!(),
        }
    };
    assert_eq!(attempts, 5);

    let outcomes = vec![outcome_a, outcome_b];
    let error = join_outcomes(&outcomes).expect_err("testing");
    assert!(matches!(
        error,
        FetchError::TransientError {
            status_code: Some(500),
            ..
        }
    ));
}

#[test]
fn two_fetches() {
    // Two ranges over ten bytes, both successful: the disjoint positional
    // writes rebuild the content whichever range finishes first.
    let ranges = create_ranges(10, 2).unwrap();

    let first_ok = validate_range_response(
        ranges[0],
        10,
        206,
        &Some("bytes 0-4/10".to_owned()),
        &Some("5".to_owned()),
    );
    let second_ok = validate_range_response(
        ranges[1],
        10,
        206,
        &Some("bytes 5-9/10".to_owned()),
        &Some("5".to_owned()),
    );
    assert!(first_ok.is_ok() && second_ok.is_ok());

    let hello = b"Hello".to_vec();
    let world = b"World".to_vec();

    let mut in_order = vec![0u8; 10];
    write_at(&mut in_order, 0, &hello);
    write_at(&mut in_order, 5, &world);

    let mut reversed = vec![0u8; 10];
    write_at(&mut reversed, 5, &world);
    write_at(&mut reversed, 0, &hello);

    assert_eq!(in_order, b"HelloWorld".to_vec());
    assert_eq!(reversed, b"HelloWorld".to_vec());
}

#[test]
fn range_response_not_partial_content() {
    let range = Range { start: 0, end: 9 };
    let error = validate_range_response(
        range,
        10,
        200,
        &Some("bytes 0-9/10".to_owned()),
        &Some("10".to_owned()),
    )
    .expect_err("testing");
    assert_eq!(
        error.description(),
        "Range response status code was not a 206".to_owned(),
    );
}

#[test]
fn range_response_client_error() {
    let range = Range { start: 0, end: 9 };
    let error = validate_range_response(range, 10, 404, &None, &None).expect_err("testing");
    assert!(matches!(
        error,
        FetchError::ClientRequestError {
            status_code: 404,
            ..
        }
    ));
}

#[test]
fn range_response_missing_content_range() {
    let range = Range { start: 0, end: 9 };
    let error = validate_range_response(range, 10, 206, &None, &Some("10".to_owned()))
        .expect_err("testing");
    assert_eq!(
        error.description(),
        "Range response did not include Content-Range header".to_owned(),
    );
}

#[test]
fn range_response_missing_content_length() {
    let range = Range { start: 0, end: 9 };
    let error = validate_range_response(range, 10, 206, &Some("bytes 0-9/10".to_owned()), &None)
        .expect_err("testing");
    assert_eq!(
        error.description(),
        "Range response did not include Content-Length header".to_owned(),
    );
}

#[test]
fn range_response_unparsable_content_length() {
    let range = Range { start: 0, end: 9 };
    let error = validate_range_response(
        range,
        10,
        206,
        &Some("bytes 0-9/10".to_owned()),
        &Some("ten".to_owned()),
    )
    .expect_err("testing");
    assert_eq!(
        error.description(),
        "Server returned Content-Length header that cannot be parsed to u64".to_owned(),
    );
}

#[test]
fn range_response_mismatched_content_range() {
    let range = Range { start: 0, end: 9 };
    let error = validate_range_response(
        range,
        10,
        206,
        &Some("bytes 0-8/10".to_owned()),
        &Some("10".to_owned()),
    )
    .expect_err("testing");
    assert_eq!(
        error.description(),
        "Range response Content-Range headers did not match expected".to_owned(),
    );
}

#[test]
fn range_response_wrong_content_length() {
    let range = Range { start: 0, end: 9 };
    let error = validate_range_response(
        range,
        10,
        206,
        &Some("bytes 0-9/10".to_owned()),
        &Some("9".to_owned()),
    )
    .expect_err("testing");
    assert_eq!(
        error.description(),
        "Range response Content-Length was incorrect".to_owned(),
    );
}

#[test]
fn content_range_string_canonical_form() {
    assert_eq!(content_range_string(0, 9, 10), "bytes 0-9/10".to_owned());
    assert_eq!(
        content_range_string(50, 99, 100),
        "bytes 50-99/100".to_owned()
    );
}

#[test]
fn join_outcomes_all_ok() {
    let outcomes: Vec<Result<(), FetchError>> = vec![Ok(()), Ok(()), Ok(())];
    assert!(join_outcomes(&outcomes).is_ok());
}

#[test]
fn join_outcomes_picks_first_failure() {
    let outcomes: Vec<Result<(), FetchError>> = vec![
        Ok(()),
        Err(FetchError::IoError("first".to_owned())),
        Err(FetchError::ValidationError("second".to_owned())),
    ];
    let error = join_outcomes(&outcomes).expect_err("testing");
    assert_eq!(error.description(), "first".to_owned());
}
