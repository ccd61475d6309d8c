use lt_kafka::json_config::{
    consumer_config, group_consumer_config, producer_config, write_config, BadValue, ConfigError, ConfigValue,
    KafkaConfigSections, LtClientConfig, Section,
};
use lt_kafka::schema_registry::SchemaRegistryConfig;
use rdkafka::ClientConfig;

fn text(key: &str, value: &str) -> (String, ConfigValue) {
    (String::from(key), ConfigValue::Text(String::from(value)))
}

fn client_config(base: Section, consumer: Section, producer: Section) -> LtClientConfig {
    LtClientConfig {
        kafka_config: KafkaConfigSections { base, consumer, producer },
        topics: vec![String::from("orders")],
        schema_registry: SchemaRegistryConfig::new(
            String::from("registry.example.com"),
            String::from("user"),
            String::from("pass"),
        ),
    }
}

#[test]
fn write_config_sets_each_kind_of_value() {
    let mut config = ClientConfig::new();
    let section = vec![
        text("bootstrap.servers", "localhost:9092"),
        (String::from("enable.auto.commit"), ConfigValue::Bool(true)),
        (String::from("enable.idempotence"), ConfigValue::Bool(false)),
        (String::from("linger.ms"), ConfigValue::Number(String::from("5"))),
    ];
    assert_eq!(write_config(&mut config, &section), Ok(()));
    assert_eq!(config.get("bootstrap.servers"), Some("localhost:9092"));
    assert_eq!(config.get("enable.auto.commit"), Some("true"));
    assert_eq!(config.get("enable.idempotence"), Some("false"));
    assert_eq!(config.get("linger.ms"), Some("5"));
    assert_eq!(config.get("absent"), None);
}

#[test]
fn write_config_keeps_what_it_does_not_name() {
    let mut config = ClientConfig::new();
    config.set("client.id", "mine");
    assert_eq!(write_config(&mut config, &vec![text("acks", "all")]), Ok(()));
    assert_eq!(config.get("client.id"), Some("mine"));
    assert_eq!(config.get("acks"), Some("all"));
}

#[test]
fn later_setting_replaces_earlier() {
    let mut config = ClientConfig::new();
    assert_eq!(write_config(&mut config, &vec![text("acks", "1"), text("acks", "all")]), Ok(()));
    assert_eq!(config.get("acks"), Some("all"));
}

#[test]
fn write_config_stops_at_the_first_bad_value() {
    let mut config = ClientConfig::new();
    let section = vec![
        text("a", "1"),
        (String::from("b"), ConfigValue::Null),
        text("c", "3"),
        (String::from("d"), ConfigValue::Array),
    ];
    assert_eq!(
        write_config(&mut config, &section),
        Err(ConfigError { key: String::from("b"), found: BadValue::Null })
    );
    assert_eq!(config.get("a"), Some("1"));
    assert_eq!(config.get("c"), None);
}

#[test]
fn each_bad_value_has_its_error() {
    for (value, found, message) in [
        (ConfigValue::Null, BadValue::Null, "got error parsing \"k\": got null"),
        (ConfigValue::Array, BadValue::Array, "got error parsing \"k\": got array"),
        (ConfigValue::Object, BadValue::Object, "got error parsing \"k\": got object"),
    ] {
        let mut config = ClientConfig::new();
        let error = write_config(&mut config, &vec![(String::from("k"), value)]).unwrap_err();
        assert_eq!(error, ConfigError { key: String::from("k"), found });
        assert_eq!(error.message(), message);
    }
}

#[test]
fn consumer_config_merges_base_and_consumer() {
    let config = client_config(
        vec![text("bootstrap.servers", "b:9092"), text("client.id", "base")],
        vec![text("client.id", "consumer"), text("auto.offset.reset", "latest")],
        vec![text("acks", "all")],
    );
    let consumer = consumer_config(&config).unwrap();
    assert_eq!(consumer.get("bootstrap.servers"), Some("b:9092"));
    assert_eq!(consumer.get("client.id"), Some("consumer"));
    assert_eq!(consumer.get("auto.offset.reset"), Some("latest"));
    assert_eq!(consumer.get("acks"), None);
}

#[test]
fn producer_config_merges_base_and_producer() {
    let config = client_config(
        vec![text("bootstrap.servers", "b:9092"), text("client.id", "base")],
        vec![text("auto.offset.reset", "latest")],
        vec![text("acks", "all"), text("client.id", "producer")],
    );
    let producer = producer_config(&config).unwrap();
    assert_eq!(producer.get("bootstrap.servers"), Some("b:9092"));
    assert_eq!(producer.get("client.id"), Some("producer"));
    assert_eq!(producer.get("acks"), Some("all"));
    assert_eq!(producer.get("auto.offset.reset"), None);
}

#[test]
fn bad_value_in_a_section_that_is_not_used_does_not_matter() {
    let config = client_config(
        vec![text("bootstrap.servers", "b:9092")],
        vec![(String::from("broken"), ConfigValue::Object)],
        vec![text("acks", "all")],
    );
    assert!(producer_config(&config).is_ok());
    assert_eq!(
        consumer_config(&config).err(),
        Some(ConfigError { key: String::from("broken"), found: BadValue::Object })
    );
}

#[test]
fn bad_value_in_base_fails_both() {
    let config = client_config(
        vec![(String::from("broken"), ConfigValue::Null)],
        Vec::new(),
        Vec::new(),
    );
    let expected = Some(ConfigError { key: String::from("broken"), found: BadValue::Null });
    assert_eq!(consumer_config(&config).err(), expected);
    assert_eq!(producer_config(&config).err(), expected);
}

#[test]
fn group_consumer_config_names_the_group() {
    let config = client_config(
        vec![text("bootstrap.servers", "b:9092"), text("group.id", "from-file")],
        vec![text("auto.offset.reset", "latest")],
        Vec::new(),
    );
    let consumer = group_consumer_config(&config, &Some(String::from("workers"))).unwrap();
    assert_eq!(consumer.get("group.id"), Some("workers"));
    assert_eq!(consumer.get("bootstrap.servers"), Some("b:9092"));
    assert_eq!(consumer.get("auto.offset.reset"), Some("latest"));
}

#[test]
fn group_consumer_config_without_group_is_the_consumer_config() {
    let config = client_config(
        vec![text("bootstrap.servers", "b:9092")],
        vec![text("auto.offset.reset", "latest")],
        Vec::new(),
    );
    let consumer = group_consumer_config(&config, &None).unwrap();
    assert_eq!(consumer.get("group.id"), None);
    assert_eq!(consumer.get("bootstrap.servers"), Some("b:9092"));
    let config = client_config(vec![text("group.id", "from-file")], Vec::new(), Vec::new());
    let consumer = group_consumer_config(&config, &None).unwrap();
    assert_eq!(consumer.get("group.id"), Some("from-file"));
}

#[test]
fn group_consumer_config_reports_a_bad_value() {
    let config = client_config(
        Vec::new(),
        vec![(String::from("broken"), ConfigValue::Array)],
        Vec::new(),
    );
    assert_eq!(
        group_consumer_config(&config, &Some(String::from("workers"))).err(),
        Some(ConfigError { key: String::from("broken"), found: BadValue::Array })
    );
}
