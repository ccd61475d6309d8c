use lt_kafka::client::produce::{
    is_queue_full, produce, BrokerError, ErrorCode, Phase, ProduceAction, ProduceEvent,
    POLL_TIMEOUT_MS, RETRY_DELAY_MS,
};

fn full() -> BrokerError {
    BrokerError::MessageProduction { code: ErrorCode::QueueFull, reason: String::from("queue full") }
}

/// Drives a call against a sink that reports a full queue for the first
/// `rejections` submissions and takes the next one.
fn drive(rejections: usize) -> (Vec<&'static str>, ProduceAction) {
    let mut call = produce("orders", 42, b"key", b"hello");
    let mut log = vec!["send"];
    let mut submitted = 0;
    let mut event = if rejections == 0 {
        ProduceEvent::Accepted
    } else {
        ProduceEvent::Rejected(full())
    };
    submitted += 1;
    loop {
        match call.step(event) {
            ProduceAction::Send => {
                log.push("send");
                event = if submitted < rejections {
                    ProduceEvent::Rejected(full())
                } else {
                    ProduceEvent::Accepted
                };
                submitted += 1;
            }
            ProduceAction::Poll { timeout_ms } => {
                assert_eq!(timeout_ms, 1000);
                log.push("poll");
                event = ProduceEvent::Polled;
            }
            ProduceAction::Wait { delay_ms } => {
                assert_eq!(delay_ms, 100);
                log.push("wait");
                event = ProduceEvent::Waited;
            }
            last => return (log, last),
        }
    }
}

#[test]
fn queue_full_is_the_only_transient_error() {
    assert!(is_queue_full(&full()));
    assert!(!is_queue_full(&BrokerError::MessageProduction {
        code: ErrorCode::Other,
        reason: String::from("message too large"),
    }));
    assert!(!is_queue_full(&BrokerError::Other { reason: String::from("queue full") }));
}

#[test]
fn timing_constants() {
    assert_eq!(POLL_TIMEOUT_MS, 1000);
    assert_eq!(RETRY_DELAY_MS, 100);
}

#[test]
fn produce_wraps_the_value_in_an_envelope() {
    let call = produce("orders", 42, b"key", b"hello");
    assert_eq!(call.phase(), Phase::Sending);
    assert_eq!(call.record().topic, "orders");
    assert_eq!(call.record().key, b"key");
    assert_eq!(call.record().payload, vec![0, 0, 0, 0, 42, b'h', b'e', b'l', b'l', b'o']);
}

#[test]
fn accepted_at_once_needs_one_submission() {
    let (log, last) = drive(0);
    assert_eq!(log, vec!["send"]);
    assert_eq!(last, ProduceAction::Done);
}

#[test]
fn full_queue_is_polled_and_tried_again() {
    let (log, last) = drive(3);
    assert_eq!(
        log,
        vec!["send", "poll", "wait", "send", "poll", "wait", "send", "poll", "wait", "send"]
    );
    assert_eq!(last, ProduceAction::Done);
}

#[test]
fn submissions_are_one_more_than_rejections() {
    for rejections in [0usize, 1, 2, 10, 57] {
        let (log, last) = drive(rejections);
        assert_eq!(log.iter().filter(|entry| **entry == "send").count(), rejections + 1);
        assert_eq!(log.iter().filter(|entry| **entry == "poll").count(), rejections);
        assert_eq!(last, ProduceAction::Done);
    }
}

#[test]
fn other_error_fails_without_retry() {
    let mut call = produce("orders", 1, b"", b"x");
    let error = BrokerError::MessageProduction {
        code: ErrorCode::Other,
        reason: String::from("message too large"),
    };
    assert_eq!(
        call.step(ProduceEvent::Rejected(error)),
        ProduceAction::Fail(BrokerError::MessageProduction {
            code: ErrorCode::Other,
            reason: String::from("message too large"),
        })
    );
    assert_eq!(call.phase(), Phase::Over);
}

#[test]
fn other_error_after_retries_fails() {
    let mut call = produce("orders", 1, b"", b"x");
    assert_eq!(call.step(ProduceEvent::Rejected(full())), ProduceAction::Poll { timeout_ms: 1000 });
    assert_eq!(call.step(ProduceEvent::Polled), ProduceAction::Wait { delay_ms: 100 });
    assert_eq!(call.step(ProduceEvent::Waited), ProduceAction::Send);
    assert_eq!(
        call.step(ProduceEvent::Rejected(BrokerError::Other { reason: String::from("fatal") })),
        ProduceAction::Fail(BrokerError::Other { reason: String::from("fatal") })
    );
}

#[test]
fn record_is_the_same_for_every_submission() {
    let mut call = produce("orders", 7, b"k", b"v");
    let before = call.record().payload.clone();
    call.step(ProduceEvent::Rejected(full()));
    call.step(ProduceEvent::Polled);
    call.step(ProduceEvent::Waited);
    assert_eq!(call.record().payload, before);
    assert_eq!(call.record().topic, "orders");
}

#[test]
fn event_out_of_turn_ends_the_call() {
    let mut call = produce("orders", 1, b"", b"x");
    assert_eq!(call.step(ProduceEvent::Polled), ProduceAction::Misused);
    assert_eq!(call.phase(), Phase::Over);
    assert_eq!(call.step(ProduceEvent::Accepted), ProduceAction::Misused);
    let mut call = produce("orders", 1, b"", b"x");
    assert_eq!(call.step(ProduceEvent::Accepted), ProduceAction::Done);
    assert_eq!(call.step(ProduceEvent::Accepted), ProduceAction::Misused);
}
