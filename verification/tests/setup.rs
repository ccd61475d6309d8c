use lt_kafka::client::consume::{partition_list, Assignment, StartOffset};
use lt_kafka::client::produce::{BrokerError, ErrorCode};
use lt_kafka::client::setup::{consume, SetupAction, SetupError, SetupEvent, SetupStage};

fn topics(names: &[&str]) -> Vec<String> {
    names.iter().map(|name| String::from(*name)).collect()
}

fn at_end(name: &str, partition: i32) -> Assignment {
    Assignment { topic: String::from(name), partition, offset: StartOffset::End }
}

fn fetch(topic: &str) -> SetupAction {
    SetupAction::FetchMetadata { topic: String::from(topic), timeout_ms: 60_000 }
}

fn down() -> BrokerError {
    BrokerError::Other { reason: String::from("broker down") }
}

#[test]
fn group_mode_subscribes() {
    let (mut setup, action) = consume(topics(&["T1", "T2"]), &Some(String::from("workers")));
    assert_eq!(action, SetupAction::Subscribe { topics: topics(&["T1", "T2"]) });
    assert_eq!(setup.stage(), SetupStage::Subscribing);
    assert_eq!(setup.step(SetupEvent::Done), SetupAction::Ready);
    assert_eq!(setup.stage(), SetupStage::Ready);
}

#[test]
fn tail_mode_assigns_three_partitions_of_two_topics() {
    let (mut setup, action) = consume(topics(&["T1", "T2"]), &None);
    assert_eq!(action, fetch("T1"));
    assert_eq!(setup.step(SetupEvent::Metadata(vec![vec![0, 1]])), fetch("T2"));
    let action = setup.step(SetupEvent::Metadata(vec![vec![0]]));
    assert_eq!(
        action,
        SetupAction::Assign { assignments: vec![at_end("T1", 0), at_end("T1", 1), at_end("T2", 0)] }
    );
    if let SetupAction::Assign { assignments } = action {
        assert_eq!(partition_list(&assignments).unwrap().count(), 3);
    }
    assert_eq!(setup.step(SetupEvent::Done), SetupAction::Ready);
}

#[test]
fn tail_mode_without_topics_assigns_nothing() {
    let (mut setup, action) = consume(Vec::new(), &None);
    assert_eq!(action, SetupAction::Assign { assignments: Vec::new() });
    assert_eq!(setup.stage(), SetupStage::Assigning);
    assert_eq!(setup.step(SetupEvent::Done), SetupAction::Ready);
}

#[test]
fn reported_partitions_go_under_the_requested_name() {
    let (mut setup, _) = consume(topics(&["orders"]), &None);
    assert_eq!(
        setup.step(SetupEvent::Metadata(vec![vec![0, 1], vec![2], Vec::new()])),
        SetupAction::Assign {
            assignments: vec![at_end("orders", 0), at_end("orders", 1), at_end("orders", 2)],
        }
    );
}

#[test]
fn topic_requested_twice_is_assigned_once() {
    let (mut setup, action) = consume(topics(&["a", "a"]), &None);
    assert_eq!(action, fetch("a"));
    assert_eq!(setup.step(SetupEvent::Metadata(vec![vec![0]])), fetch("a"));
    assert_eq!(
        setup.step(SetupEvent::Metadata(vec![vec![0, 1]])),
        SetupAction::Assign { assignments: vec![at_end("a", 0), at_end("a", 1)] }
    );
}

#[test]
fn metadata_failure_is_fatal() {
    let (mut setup, _) = consume(topics(&["T1", "T2"]), &None);
    setup.step(SetupEvent::Metadata(vec![vec![0]]));
    assert_eq!(
        setup.step(SetupEvent::Failed(down())),
        SetupAction::Abort(SetupError::Broker(down()))
    );
    assert_eq!(setup.stage(), SetupStage::Failed);
    assert_eq!(
        setup.step(SetupEvent::Metadata(vec![vec![0]])),
        SetupAction::Abort(SetupError::Protocol)
    );
}

#[test]
fn assignment_failure_is_fatal() {
    let (mut setup, _) = consume(topics(&["T1"]), &None);
    assert!(matches!(
        setup.step(SetupEvent::Metadata(vec![vec![0]])),
        SetupAction::Assign { .. }
    ));
    let error = BrokerError::MessageProduction { code: ErrorCode::Other, reason: String::new() };
    assert!(matches!(
        setup.step(SetupEvent::Failed(error)),
        SetupAction::Abort(SetupError::Broker(_))
    ));
}

#[test]
fn subscription_failure_is_fatal() {
    let (mut setup, _) = consume(topics(&["T1"]), &Some(String::from("g")));
    assert_eq!(
        setup.step(SetupEvent::Failed(down())),
        SetupAction::Abort(SetupError::Broker(down()))
    );
}

#[test]
fn setup_event_out_of_turn_is_fatal() {
    let (mut setup, _) = consume(topics(&["T1"]), &Some(String::from("g")));
    assert_eq!(
        setup.step(SetupEvent::Metadata(Vec::new())),
        SetupAction::Abort(SetupError::Protocol)
    );
    let (mut setup, _) = consume(topics(&["T1"]), &None);
    assert_eq!(setup.step(SetupEvent::Done), SetupAction::Abort(SetupError::Protocol));
    let (mut setup, _) = consume(topics(&["T1"]), &Some(String::from("g")));
    assert_eq!(setup.step(SetupEvent::Done), SetupAction::Ready);
    assert_eq!(setup.step(SetupEvent::Done), SetupAction::Abort(SetupError::Protocol));
}
