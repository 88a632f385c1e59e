use ble_to_mqtt::publish::{PublishRetry, PublishStep, MAX_PUBLISH_ATTEMPTS, RETRY_DELAY_SECONDS};

#[test]
fn accepted_first_attempt_stops() {
    let mut p = PublishRetry::new();
    assert!(p.after_attempt(true) == PublishStep::Done);
    assert_eq!(p.attempts(), 1);
    assert!(p.finished());
    assert!(p.after_attempt(false) == PublishStep::Done);
    assert_eq!(p.attempts(), 1);
}

#[test]
fn refused_attempts_retry_then_give_up() {
    assert_eq!(MAX_PUBLISH_ATTEMPTS, 30);
    assert_eq!(RETRY_DELAY_SECONDS, 1);
    let mut p = PublishRetry::new();
    for _ in 1..30 {
        assert!(p.after_attempt(false) == PublishStep::RetryAfter { seconds: 1 });
        assert!(!p.finished());
    }
    assert!(p.after_attempt(false) == PublishStep::GiveUpAfter { seconds: 1 });
    assert!(p.finished());
    assert_eq!(p.attempts(), 30);
    assert!(p.after_attempt(true) == PublishStep::Done);
}

#[test]
fn acceptance_after_refusals_stops() {
    let mut p = PublishRetry::new();
    for _ in 0..5 {
        assert!(p.after_attempt(false) == PublishStep::RetryAfter { seconds: 1 });
    }
    assert!(p.after_attempt(true) == PublishStep::Done);
    assert_eq!(p.attempts(), 6);
    assert!(p.finished());
}
