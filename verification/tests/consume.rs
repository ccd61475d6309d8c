use lt_kafka::client::consume::{
    consume_mode, partition_list, tail_assignments, Assignment, ConsumeMode, Flaw,
    PartitionListError, StartOffset, TopicPartitions, METADATA_TIMEOUT_MS,
};
use rdkafka::topic_partition_list::Offset;

fn topic(name: &str, partitions: &[i32]) -> TopicPartitions {
    TopicPartitions { topic: String::from(name), partitions: partitions.to_vec() }
}

fn at_end(name: &str, partition: i32) -> Assignment {
    Assignment { topic: String::from(name), partition, offset: StartOffset::End }
}

#[test]
fn group_id_selects_the_mode() {
    assert_eq!(consume_mode(&Some(String::from("workers"))), ConsumeMode::Group);
    assert_eq!(consume_mode(&Some(String::new())), ConsumeMode::Group);
    assert_eq!(consume_mode(&None), ConsumeMode::Tail);
}

#[test]
fn metadata_timeout_is_a_minute() {
    assert_eq!(METADATA_TIMEOUT_MS, 60_000);
}

#[test]
fn tail_mode_assigns_every_partition_at_the_end() {
    let plan = tail_assignments(&vec![topic("T1", &[0, 1]), topic("T2", &[0])]);
    assert_eq!(plan, vec![at_end("T1", 0), at_end("T1", 1), at_end("T2", 0)]);
}

#[test]
fn tail_mode_of_no_topics_assigns_nothing() {
    assert_eq!(tail_assignments(&Vec::new()), Vec::new());
    assert_eq!(tail_assignments(&vec![topic("empty", &[])]), Vec::new());
}

#[test]
fn tail_mode_assigns_each_pair_once() {
    let plan = tail_assignments(&vec![
        topic("T1", &[0, 1, 0]),
        topic("T2", &[1]),
        topic("T1", &[1, 2]),
    ]);
    assert_eq!(plan, vec![at_end("T1", 0), at_end("T1", 1), at_end("T2", 1), at_end("T1", 2)]);
}

#[test]
fn tail_mode_keeps_the_order_of_the_metadata() {
    let plan = tail_assignments(&vec![topic("b", &[2, 0, 1]), topic("a", &[5])]);
    assert_eq!(plan, vec![at_end("b", 2), at_end("b", 0), at_end("b", 1), at_end("a", 5)]);
}

#[test]
fn partition_list_holds_the_assignments_in_order() {
    let plan = tail_assignments(&vec![topic("T1", &[0, 1]), topic("T2", &[0])]);
    let list = partition_list(&plan).unwrap();
    assert_eq!(list.count(), 3);
    let elements = list.elements();
    let listed: Vec<(String, i32, Offset)> = elements
        .iter()
        .map(|element| (String::from(element.topic()), element.partition(), element.offset()))
        .collect();
    assert_eq!(
        listed,
        vec![
            (String::from("T1"), 0, Offset::End),
            (String::from("T1"), 1, Offset::End),
            (String::from("T2"), 0, Offset::End),
        ]
    );
}

#[test]
fn partition_list_takes_other_offsets() {
    let list = partition_list(&vec![
        Assignment { topic: String::from("a"), partition: 0, offset: StartOffset::Beginning },
        Assignment { topic: String::from("a"), partition: 1, offset: StartOffset::Stored },
        Assignment { topic: String::from("b"), partition: 0, offset: StartOffset::Invalid },
    ])
    .unwrap();
    let offsets: Vec<Offset> = list.elements().iter().map(|element| element.offset()).collect();
    assert_eq!(offsets, vec![Offset::Beginning, Offset::Stored, Offset::Invalid]);
}

#[test]
fn partition_list_of_nothing_is_empty() {
    assert_eq!(partition_list(&Vec::new()).unwrap().count(), 0);
}

#[test]
fn partition_list_rejects_a_zero_byte_in_a_topic() {
    let result = partition_list(&vec![at_end("ok", 0), at_end("bad\0name", 0)]);
    assert_eq!(result.err(), Some(PartitionListError { index: 1, flaw: Flaw::NulInTopic }));
}

#[test]
fn partition_list_rejects_a_repeated_pair() {
    let result = partition_list(&vec![at_end("a", 0), at_end("b", 0), at_end("a", 0)]);
    assert_eq!(result.err(), Some(PartitionListError { index: 2, flaw: Flaw::Repeated }));
    let result = partition_list(&vec![
        at_end("a", 0),
        Assignment { topic: String::from("a"), partition: 0, offset: StartOffset::Beginning },
    ]);
    assert_eq!(result.err(), Some(PartitionListError { index: 1, flaw: Flaw::Repeated }));
}

#[test]
fn partition_list_takes_every_plan_without_flaw() {
    let plan = tail_assignments(&vec![
        topic("a", &[0, 1, 2, 3, 4, 5, 6, 7]),
        topic("b", &[0]),
        topic("a", &[8, 0]),
    ]);
    assert_eq!(plan.len(), 10);
    let list = partition_list(&plan).unwrap();
    assert_eq!(list.count(), 10);
    assert!(list.elements().iter().all(|element| element.offset() == Offset::End));
}

#[test]
fn partition_list_reports_the_first_flaw() {
    let result = partition_list(&vec![
        at_end("a", 0),
        at_end("a", 0),
        at_end("bad\0name", 0),
    ]);
    assert_eq!(result.err(), Some(PartitionListError { index: 1, flaw: Flaw::Repeated }));
    let result = partition_list(&vec![at_end("\0", 0), at_end("\0", 0)]);
    assert_eq!(result.err(), Some(PartitionListError { index: 0, flaw: Flaw::NulInTopic }));
}
