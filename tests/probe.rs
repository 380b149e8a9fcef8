use actix_bug::probe::{
    check_ping_body, classify_probe, should_report, ProbeAttempt, ProbeError, ProbeTally,
    PING_BODY, PING_PATH,
};

#[test]
fn expected_body_is_accepted() {
    let r = check_ping_body("pong".to_string());
    assert_eq!(r.unwrap(), "pong");
    assert_eq!(PING_BODY, "pong");
    assert_eq!(PING_PATH, "/ping");
}

#[test]
fn other_body_is_a_wrong_response() {
    match check_ping_body("ping".to_string()) {
        Err(ProbeError::WrongResponse(b)) => assert_eq!(b, "ping"),
        other => panic!("unexpected {:?}", other),
    }
    assert!(matches!(check_ping_body(String::new()), Err(ProbeError::WrongResponse(_))));
    assert!(matches!(check_ping_body("pong\n".to_string()), Err(ProbeError::WrongResponse(_))));
    assert!(matches!(check_ping_body("PONG".to_string()), Err(ProbeError::WrongResponse(_))));
}

#[test]
fn live_server_answer_is_success() {
    let r = classify_probe(ProbeAttempt::Responded("pong".to_string()));
    assert_eq!(r.unwrap(), "pong");
}

#[test]
fn refused_connection_is_failure() {
    let r = classify_probe(ProbeAttempt::RequestFailed("connection refused".to_string()));
    match r {
        Err(ProbeError::RequestFailed(m)) => assert_eq!(m, "connection refused"),
        other => panic!("unexpected {:?}", other),
    }
}

#[test]
fn timed_out_probe_is_failure_and_counts_no_success() {
    let mut tally = ProbeTally::new();
    let r = classify_probe(ProbeAttempt::TimedOut);
    assert!(matches!(r, Err(ProbeError::TimedOut)));
    assert_eq!(tally.record(&r), 1);
    assert_eq!(tally.successes(), 0);
    assert_eq!(tally.failures(), 1);
}

#[test]
fn wrong_body_through_classification() {
    let r = classify_probe(ProbeAttempt::Responded("nope".to_string()));
    assert!(matches!(r, Err(ProbeError::WrongResponse(ref b)) if b == "nope"));
}

#[test]
fn report_on_multiples_of_pool_size() {
    assert!(!should_report(1, 50));
    assert!(!should_report(49, 50));
    assert!(should_report(50, 50));
    assert!(should_report(100, 50));
    assert!(!should_report(101, 50));
    assert!(should_report(0, 50));
    assert!(should_report(7, 1));
}

#[test]
fn record_returns_new_counter_value() {
    let mut tally = ProbeTally::new();
    assert_eq!(tally.successes(), 0);
    assert_eq!(tally.failures(), 0);
    let ok: Result<String, ProbeError> = Ok("pong".to_string());
    let bad: Result<String, ProbeError> = Err(ProbeError::TimedOut);
    assert_eq!(tally.record(&ok), 1);
    assert_eq!(tally.record(&ok), 2);
    assert_eq!(tally.record(&bad), 1);
    assert_eq!(tally.record(&ok), 3);
    assert_eq!(tally.successes(), 3);
    assert_eq!(tally.failures(), 1);
}

#[test]
fn workers_times_iterations_all_counted() {
    let workers: u64 = 8;
    let iterations: u64 = 25;
    let mut tally = ProbeTally::new();
    // round-robin interleaving of the workers, against a fake service that
    // alternates between up and down
    for i in 0..iterations {
        for w in 0..workers {
            let attempt = if (w + i) % 2 == 0 {
                ProbeAttempt::Responded("pong".to_string())
            } else {
                ProbeAttempt::RequestFailed("down".to_string())
            };
            let outcome = classify_probe(attempt);
            tally.record(&outcome);
        }
    }
    assert_eq!(tally.successes() + tally.failures(), workers * iterations);
    assert_eq!(tally.successes(), 100);
    assert_eq!(tally.failures(), 100);
}
