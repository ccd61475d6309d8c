use lt_kafka::metadata::Metadata;

#[test]
fn metadata_keeps_what_it_is_given() {
    let headers = vec![
        (String::from("a"), vec![1u8]),
        (String::from("b"), Vec::new()),
        (String::from("a"), vec![2u8, 3]),
    ];
    let metadata = Metadata::new(headers.clone(), Some(1234), String::from("orders"), 2, 77);
    assert_eq!(metadata.headers(), &headers);
    assert_eq!(metadata.timestamp, Some(1234));
    assert_eq!(metadata.topic, "orders");
    assert_eq!(metadata.partition, 2);
    assert_eq!(metadata.offset, 77);
}

#[test]
fn metadata_may_lack_headers_and_timestamp() {
    let metadata = Metadata::new(Vec::new(), None, String::from("t"), 0, 0);
    assert!(metadata.headers().is_empty());
    assert_eq!(metadata.timestamp, None);
}
