use node_launcher::errors::LaunchHolochainError;
use node_launcher::retry::{ConnectRetry, RetryDecision, RetryPolicy};

#[test]
fn first_success_connects_at_once() {
    let mut retry = ConnectRetry::start(RetryPolicy::reference());
    assert_eq!(retry.attempts, 1);
    assert_eq!(retry.on_outcome(Ok(())), RetryDecision::Connected);
    assert_eq!(retry.attempts, 1);
}

#[test]
fn reference_policy_allows_three_attempts() {
    let policy = RetryPolicy::reference();
    assert_eq!(policy.max_attempts, 3);
    assert_eq!(policy.delay_millis, 5000);
    let mut retry = ConnectRetry::start(policy);
    assert_eq!(retry.on_outcome(Err("refused 1".to_string())), RetryDecision::RetryAfter(5000));
    assert_eq!(retry.attempts, 2);
    assert_eq!(retry.on_outcome(Err("refused 2".to_string())), RetryDecision::RetryAfter(5000));
    assert_eq!(retry.attempts, 3);
    assert_eq!(
        retry.on_outcome(Err("refused 3".to_string())),
        RetryDecision::GiveUp(LaunchHolochainError::CouldNotConnectToConductor(
            "refused 3".to_string()
        ))
    );
    assert_eq!(retry.attempts, 3);
}

#[test]
fn success_after_a_refusal_connects() {
    let mut retry = ConnectRetry::start(RetryPolicy::new(2, 10).unwrap());
    assert_eq!(retry.on_outcome(Err("not yet".to_string())), RetryDecision::RetryAfter(10));
    assert_eq!(retry.on_outcome(Ok(())), RetryDecision::Connected);
    assert_eq!(retry.attempts, 2);
}

#[test]
fn single_attempt_policy_gives_up_on_first_refusal() {
    let mut retry = ConnectRetry::start(RetryPolicy::new(1, 10).unwrap());
    assert_eq!(
        retry.on_outcome(Err("no".to_string())),
        RetryDecision::GiveUp(LaunchHolochainError::CouldNotConnectToConductor("no".to_string()))
    );
}

#[test]
fn attempts_never_exceed_the_bound() {
    for max in 1..6u32 {
        let mut retry = ConnectRetry::start(RetryPolicy::new(max, 1).unwrap());
        let mut attempts_made = 1;
        loop {
            match retry.on_outcome(Err("refused".to_string())) {
                RetryDecision::RetryAfter(_) => attempts_made += 1,
                RetryDecision::GiveUp(_) => break,
                RetryDecision::Connected => panic!("a refusal does not connect"),
            }
        }
        assert_eq!(attempts_made, max);
        assert_eq!(retry.attempts, max);
    }
}

#[test]
fn a_policy_allows_at_least_one_attempt() {
    assert_eq!(RetryPolicy::new(0, 5000), None);
    assert_eq!(
        RetryPolicy::new(1, 0),
        Some(RetryPolicy { max_attempts: 1, delay_millis: 0 })
    );
    assert_eq!(
        RetryPolicy::new(u32::MAX, u64::MAX),
        Some(RetryPolicy { max_attempts: u32::MAX, delay_millis: u64::MAX })
    );
}
