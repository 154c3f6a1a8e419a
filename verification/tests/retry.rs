use tjuptatt::error::AttemptOutcome;
use tjuptatt::error::ErrorKind;
use tjuptatt::retry::RetryPolicy;
use tjuptatt::retry::RetryStep;

/// Runs a policy over attempts that end as the list says, one after another,
/// and gives the number of attempts made and the outcome of the run.
fn drive(max_attempts: u8, outcomes: &[AttemptOutcome]) -> (usize, AttemptOutcome) {
    let mut policy = RetryPolicy::new(max_attempts);
    let mut made = 0;
    loop {
        let outcome = outcomes[made];
        made += 1;
        match policy.record(outcome) {
            RetryStep::Again => {}
            RetryStep::Stop(o) => return (made, o),
        }
    }
}

fn failures(n: usize) -> Vec<AttemptOutcome> {
    let kinds = [ErrorKind::Network, ErrorKind::Auth, ErrorKind::Parse, ErrorKind::NoMatch, ErrorKind::Submission];
    (0..n).map(|i| AttemptOutcome::Failure(kinds[i % kinds.len()])).collect()
}

#[test]
fn failing_attempts_use_up_the_bound_exactly() {
    for n in 1..=12u8 {
        let outcomes = failures(40);
        let (made, outcome) = drive(n, &outcomes);
        assert_eq!(made, n as usize);
        assert_eq!(outcome, outcomes[n as usize - 1]);
    }
}

#[test]
fn the_largest_bound_is_reached() {
    let outcomes = failures(300);
    let (made, outcome) = drive(255, &outcomes);
    assert_eq!(made, 255);
    assert_eq!(outcome, outcomes[254]);
}

#[test]
fn a_bound_of_one_makes_one_attempt() {
    assert_eq!(drive(1, &[AttemptOutcome::Success]), (1, AttemptOutcome::Success));
    assert_eq!(
        drive(1, &[AttemptOutcome::Failure(ErrorKind::Auth), AttemptOutcome::Success]),
        (1, AttemptOutcome::Failure(ErrorKind::Auth))
    );
}

#[test]
fn a_bound_below_one_counts_as_one() {
    let policy = RetryPolicy::new(0);
    assert_eq!(policy.max_attempts(), 1);
    assert_eq!(
        drive(0, &[AttemptOutcome::Failure(ErrorKind::Network), AttemptOutcome::Success]),
        (1, AttemptOutcome::Failure(ErrorKind::Network))
    );
}

#[test]
fn the_first_success_stops_the_run() {
    let outcomes = [
        AttemptOutcome::Failure(ErrorKind::Network),
        AttemptOutcome::Failure(ErrorKind::NoMatch),
        AttemptOutcome::Success,
        AttemptOutcome::Failure(ErrorKind::Auth),
    ];
    assert_eq!(drive(5, &outcomes), (3, AttemptOutcome::Success));
    assert_eq!(drive(3, &outcomes), (3, AttemptOutcome::Success));
    assert_eq!(drive(2, &outcomes), (2, AttemptOutcome::Failure(ErrorKind::NoMatch)));
}

#[test]
fn every_kind_of_failure_is_retried_alike() {
    let kinds = [
        ErrorKind::Network,
        ErrorKind::Auth,
        ErrorKind::Parse,
        ErrorKind::NotFound,
        ErrorKind::NoMatch,
        ErrorKind::Submission,
        ErrorKind::Lock,
        ErrorKind::AlreadyCompleted,
    ];
    for kind in kinds {
        let mut policy = RetryPolicy::new(2);
        assert_eq!(policy.record(AttemptOutcome::Failure(kind)), RetryStep::Again);
        assert_eq!(policy.attempts(), 1);
        assert_eq!(policy.record(AttemptOutcome::Failure(kind)), RetryStep::Stop(AttemptOutcome::Failure(kind)));
        assert_eq!(policy.attempts(), 2);
    }
}

#[test]
fn kinds_have_names() {
    assert_eq!(ErrorKind::Network.name(), "NetworkError");
    assert_eq!(ErrorKind::Auth.name(), "AuthError");
    assert_eq!(ErrorKind::Parse.name(), "ParseError");
    assert_eq!(ErrorKind::NotFound.name(), "NotFoundError");
    assert_eq!(ErrorKind::NoMatch.name(), "NoMatchError");
    assert_eq!(ErrorKind::Submission.name(), "SubmissionError");
    assert_eq!(ErrorKind::Lock.name(), "LockError");
    assert_eq!(ErrorKind::AlreadyCompleted.name(), "AlreadyCompleted");
    assert!(AttemptOutcome::Success.is_success());
    assert!(!AttemptOutcome::Failure(ErrorKind::Lock).is_success());
}
