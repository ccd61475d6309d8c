use lt_kafka::adapters::{BackendReply, BackendRequest, CacheError, MemoryAdapter};
use lt_kafka::client::dispatch::Dispatcher;
use lt_kafka::client::{Action, ConsumeError, Delivery, Event, HandlerReply};
use lt_kafka::envelope::{encode, EnvelopeError};
use lt_kafka::metadata::Metadata;
use lt_kafka::schema_registry::{
    RegistryError, RegistryReply, ReplyBody, SchemaRegistry, SchemaRegistryConfig, SubjectVersion,
};

fn registry() -> SchemaRegistry {
    SchemaRegistry::new(SchemaRegistryConfig::new(
        String::from("registry.example.com"),
        String::from("user"),
        String::from("pass"),
    ))
}

fn metadata(offset: i64) -> Metadata {
    Metadata::new(Vec::new(), None, String::from("orders"), 0, offset)
}

fn message(schema_id: u32, payload: &[u8], offset: i64) -> Event {
    Event::Delivery(Delivery::Message {
        payload: Some(encode(schema_id, payload)),
        metadata: metadata(offset),
    })
}

fn versions(entries: &[(&str, u32)]) -> Event {
    let versions = entries
        .iter()
        .map(|(subject, version)| SubjectVersion {
            subject: String::from(*subject),
            version: *version,
        })
        .collect();
    Event::Backend(BackendReply::Registry(RegistryReply::Response {
        status: 200,
        text: String::new(),
        body: Some(ReplyBody::Versions(versions)),
    }))
}

fn schema(body: &str) -> Event {
    Event::Backend(BackendReply::Registry(RegistryReply::Response {
        status: 200,
        text: String::new(),
        body: Some(ReplyBody::Schema(String::from(body))),
    }))
}

fn returned() -> Event {
    Event::Handler(HandlerReply::Returned)
}

fn decision(eligible: bool) -> Event {
    Event::Handler(HandlerReply::Decision(eligible))
}

fn record(schema_id: u32, subject: &str, payload: &[u8], offset: i64) -> Action {
    Action::Record {
        schema_id,
        subject_name: String::from(subject),
        payload: payload.to_vec(),
        metadata: metadata(offset),
    }
}

#[test]
fn first_message_of_a_schema_goes_through_every_stage() {
    let registry = registry();
    let mut pipeline = Dispatcher::new(MemoryAdapter::new(&registry));
    assert_eq!(
        pipeline.step(message(42, b"hello", 7)),
        Action::Backend(BackendRequest::Registry(registry.versions_request(42)))
    );
    assert_eq!(
        pipeline.step(versions(&[("orders-value", 1)])),
        Action::ShouldProcess { schema_id: 42, subject_name: String::from("orders-value") }
    );
    assert_eq!(
        pipeline.step(decision(true)),
        Action::Backend(BackendRequest::Registry(registry.schema_request(42)))
    );
    assert_eq!(
        pipeline.step(schema("{\"type\":\"string\"}")),
        Action::NewSchema {
            schema_id: 42,
            subject_name: String::from("orders-value"),
            schema: String::from("{\"type\":\"string\"}"),
        }
    );
    assert_eq!(pipeline.step(returned()), record(42, "orders-value", b"hello", 7));
    assert_eq!(pipeline.step(returned()), Action::Receive);
}

#[test]
fn handler_is_called_in_order_for_a_resolved_schema() {
    let registry = registry();
    let mut pipeline = Dispatcher::new(MemoryAdapter::new(&registry));
    let mut calls = Vec::new();
    let mut event = message(42, b"hello", 7);
    loop {
        let action = pipeline.step(event);
        event = match action {
            Action::Backend(BackendRequest::Registry(request)) => {
                if request.url.ends_with("/versions") {
                    versions(&[("orders-value", 1)])
                } else {
                    schema("{\"type\":\"string\"}")
                }
            }
            Action::ShouldProcess { .. } => {
                calls.push(action);
                decision(true)
            }
            Action::NewSchema { .. } | Action::Record { .. } => {
                calls.push(action);
                returned()
            }
            Action::Receive => break,
            other => panic!("unexpected action {:?}", other),
        };
    }
    assert_eq!(
        calls,
        vec![
            Action::ShouldProcess { schema_id: 42, subject_name: String::from("orders-value") },
            Action::NewSchema {
                schema_id: 42,
                subject_name: String::from("orders-value"),
                schema: String::from("{\"type\":\"string\"}"),
            },
            record(42, "orders-value", b"hello", 7),
        ]
    );
}

#[test]
fn second_message_of_a_schema_is_recorded_at_once() {
    let registry = registry();
    let mut pipeline = Dispatcher::new(MemoryAdapter::new(&registry));
    pipeline.step(message(42, b"hello", 7));
    pipeline.step(versions(&[("orders-value", 1)]));
    pipeline.step(decision(true));
    pipeline.step(schema("{}"));
    pipeline.step(returned());
    assert_eq!(pipeline.step(returned()), Action::Receive);
    assert_eq!(pipeline.step(message(42, b"again", 8)), record(42, "orders-value", b"again", 8));
    assert_eq!(pipeline.step(returned()), Action::Receive);
    assert_eq!(pipeline.message_iteration(Delivery::Message {
        payload: Some(encode(42, b"")),
        metadata: metadata(9),
    }), record(42, "orders-value", b"", 9));
}

#[test]
fn message_without_subject_reaches_no_handler() {
    let registry = registry();
    let mut pipeline = Dispatcher::new(MemoryAdapter::new(&registry));
    assert!(matches!(pipeline.step(message(5, b"x", 1)), Action::Backend(_)));
    assert_eq!(pipeline.step(versions(&[])), Action::Receive);
    assert_eq!(pipeline.step(message(5, b"y", 2)), Action::Receive);
    assert_eq!(pipeline.step(message(5, b"z", 3)), Action::Receive);
}

#[test]
fn ineligible_schema_is_asked_about_once_and_never_recorded() {
    let registry = registry();
    let mut pipeline = Dispatcher::new(MemoryAdapter::new(&registry));
    pipeline.step(message(8, b"x", 1));
    assert!(matches!(pipeline.step(versions(&[("s", 1)])), Action::ShouldProcess { .. }));
    assert_eq!(pipeline.step(decision(false)), Action::Receive);
    assert_eq!(pipeline.step(message(8, b"y", 2)), Action::Receive);
}

#[test]
fn different_schemas_are_decided_separately() {
    let registry = registry();
    let mut pipeline = Dispatcher::new(MemoryAdapter::new(&registry));
    pipeline.step(message(1, b"x", 1));
    pipeline.step(versions(&[("one", 1)]));
    assert_eq!(pipeline.step(decision(false)), Action::Receive);
    pipeline.step(message(2, b"y", 2));
    assert_eq!(
        pipeline.step(versions(&[("two", 1)])),
        Action::ShouldProcess { schema_id: 2, subject_name: String::from("two") }
    );
    assert!(matches!(pipeline.step(decision(true)), Action::Backend(_)));
}

#[test]
fn exhausted_source_finishes() {
    let registry = registry();
    let mut pipeline = Dispatcher::new(MemoryAdapter::new(&registry));
    assert_eq!(pipeline.step(Event::Delivery(Delivery::Exhausted)), Action::Finished);
    assert_eq!(pipeline.step(message(1, b"x", 1)), Action::Abort(ConsumeError::Protocol));
}

#[test]
fn read_error_aborts() {
    let registry = registry();
    let mut pipeline = Dispatcher::new(MemoryAdapter::new(&registry));
    assert_eq!(
        pipeline.step(Event::Delivery(Delivery::ReadError(String::from("broker down")))),
        Action::Abort(ConsumeError::Read(String::from("broker down")))
    );
}

#[test]
fn message_without_payload_aborts() {
    let registry = registry();
    let mut pipeline = Dispatcher::new(MemoryAdapter::new(&registry));
    assert_eq!(
        pipeline.step(Event::Delivery(Delivery::Message { payload: None, metadata: metadata(1) })),
        Action::Abort(ConsumeError::NoPayload)
    );
}

#[test]
fn payload_that_is_no_envelope_aborts() {
    let registry = registry();
    let mut pipeline = Dispatcher::new(MemoryAdapter::new(&registry));
    assert_eq!(
        pipeline.step(Event::Delivery(Delivery::Message {
            payload: Some(vec![0, 0, 1]),
            metadata: metadata(1),
        })),
        Action::Abort(ConsumeError::Envelope(EnvelopeError::Truncated))
    );
    let mut pipeline = Dispatcher::new(MemoryAdapter::new(&registry));
    assert_eq!(
        pipeline.step(Event::Delivery(Delivery::Message {
            payload: Some(vec![3, 0, 0, 0, 1, 9]),
            metadata: metadata(1),
        })),
        Action::Abort(ConsumeError::Envelope(EnvelopeError::BadMagic))
    );
}

#[test]
fn registry_failure_aborts() {
    let registry = registry();
    let mut pipeline = Dispatcher::new(MemoryAdapter::new(&registry));
    pipeline.step(message(1, b"x", 1));
    assert_eq!(
        pipeline.step(Event::Backend(BackendReply::Registry(RegistryReply::NoResponse))),
        Action::Abort(ConsumeError::Cache(CacheError::Registry(RegistryError::NoResponse)))
    );
}

#[test]
fn handler_failure_aborts_at_every_call() {
    let registry = registry();
    let raised = || Event::Handler(HandlerReply::Raised(String::from("boom")));
    let abort = Action::Abort(ConsumeError::Handler(String::from("boom")));

    let mut pipeline = Dispatcher::new(MemoryAdapter::new(&registry));
    pipeline.step(message(1, b"x", 1));
    pipeline.step(versions(&[("s", 1)]));
    assert_eq!(pipeline.step(raised()), abort);

    let mut pipeline = Dispatcher::new(MemoryAdapter::new(&registry));
    pipeline.step(message(1, b"x", 1));
    pipeline.step(versions(&[("s", 1)]));
    pipeline.step(decision(true));
    pipeline.step(schema("{}"));
    assert_eq!(pipeline.step(raised()), abort);

    let mut pipeline = Dispatcher::new(MemoryAdapter::new(&registry));
    pipeline.step(message(1, b"x", 1));
    pipeline.step(versions(&[("s", 1)]));
    pipeline.step(decision(true));
    pipeline.step(schema("{}"));
    pipeline.step(returned());
    assert_eq!(pipeline.step(raised()), abort);
    assert_eq!(pipeline.step(returned()), Action::Abort(ConsumeError::Protocol));
}

#[test]
fn event_out_of_turn_aborts() {
    let registry = registry();
    let mut pipeline = Dispatcher::new(MemoryAdapter::new(&registry));
    assert_eq!(pipeline.step(returned()), Action::Abort(ConsumeError::Protocol));
    let mut pipeline = Dispatcher::new(MemoryAdapter::new(&registry));
    pipeline.step(message(1, b"x", 1));
    assert_eq!(pipeline.step(decision(true)), Action::Abort(ConsumeError::Protocol));
}

#[test]
fn headers_and_timestamp_travel_with_the_message() {
    let registry = registry();
    let mut pipeline = Dispatcher::new(MemoryAdapter::new(&registry));
    let headers = vec![(String::from("trace"), vec![1, 2]), (String::from("empty"), Vec::new())];
    let sent = Metadata::new(headers.clone(), Some(1_700_000_000_000), String::from("orders"), 3, 99);
    pipeline.step(Event::Delivery(Delivery::Message {
        payload: Some(encode(1, b"x")),
        metadata: sent,
    }));
    pipeline.step(versions(&[("s", 1)]));
    pipeline.step(decision(true));
    pipeline.step(schema("{}"));
    match pipeline.step(returned()) {
        Action::Record { metadata, payload, .. } => {
            assert_eq!(payload, b"x");
            assert_eq!(metadata.headers(), &headers);
            assert_eq!(metadata.timestamp, Some(1_700_000_000_000));
            assert_eq!(metadata.topic, "orders");
            assert_eq!(metadata.partition, 3);
            assert_eq!(metadata.offset, 99);
        }
        other => panic!("unexpected action {:?}", other),
    }
}

#[test]
fn pipeline_runs_on_a_keyed_cache() {
    let registry = registry();
    let mut pipeline = Dispatcher::new(MemoryAdapter::with_store(&registry));
    assert_eq!(
        pipeline.step(message(42, b"hello", 7)),
        Action::Backend(BackendRequest::StoreGet { key: String::from("subject_name_42") })
    );
    assert_eq!(
        pipeline.step(Event::Backend(BackendReply::StoreValue(None))),
        Action::Backend(BackendRequest::Registry(registry.versions_request(42)))
    );
    assert_eq!(
        pipeline.step(versions(&[("orders-value", 1)])),
        Action::Backend(BackendRequest::StorePut {
            key: String::from("subject_name_42"),
            value: b"orders-value".to_vec(),
        })
    );
    assert_eq!(
        pipeline.step(Event::Backend(BackendReply::Written)),
        Action::ShouldProcess { schema_id: 42, subject_name: String::from("orders-value") }
    );
}
