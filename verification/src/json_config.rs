//! The client's configuration: the registry, the topics, and the settings of
//! the broker client, grouped into those that every client gets, those of
//! consumers and those of producers.

use crate::schema_registry::SchemaRegistryConfig;
use rdkafka::ClientConfig;
use vstd::prelude::*;
use vstd::string::*;

verus! {

/// A value of the configuration document.
#[derive(Debug, PartialEq, Eq)]
pub enum ConfigValue {
    Null,
    Bool(bool),
    /// A number, as the document spells it.
    Number(String),
    Text(String),
    Array,
    Object,
}

pub enum ConfigValueView {
    Null,
    Bool(bool),
    Number(Seq<char>),
    Text(Seq<char>),
    Array,
    Object,
}

impl View for ConfigValue {
    type V = ConfigValueView;

    open spec fn view(&self) -> ConfigValueView {
        match self {
            ConfigValue::Null => ConfigValueView::Null,
            ConfigValue::Bool(b) => ConfigValueView::Bool(*b),
            ConfigValue::Number(n) => ConfigValueView::Number(n@),
            ConfigValue::Text(s) => ConfigValueView::Text(s@),
            ConfigValue::Array => ConfigValueView::Array,
            ConfigValue::Object => ConfigValueView::Object,
        }
    }
}

/// One setting: its key and its value.
pub type Setting = (String, ConfigValue);

/// A group of settings, in the order of the document.
pub type Section = Vec<Setting>;

pub open spec fn section_view(section: Seq<Setting>) -> Seq<(Seq<char>, ConfigValueView)> {
    section.map_values(|setting: Setting| (setting.0@, setting.1@))
}

/// The kinds of value that are no setting.
#[derive(Clone, Copy, Debug, PartialEq, Eq, Structural)]
pub enum BadValue {
    Null,
    Array,
    Object,
}

/// A setting whose value the broker client cannot take.
#[derive(Debug, PartialEq, Eq)]
pub struct ConfigError {
    pub key: String,
    pub found: BadValue,
}

pub struct ConfigErrorView {
    pub key: Seq<char>,
    pub found: BadValue,
}

impl View for ConfigError {
    type V = ConfigErrorView;

    open spec fn view(&self) -> ConfigErrorView {
        ConfigErrorView { key: self.key@, found: self.found }
    }
}

pub open spec fn bad_value_text(found: BadValue) -> Seq<char> {
    match found {
        BadValue::Null => "got null"@,
        BadValue::Array => "got array"@,
        BadValue::Object => "got object"@,
    }
}

/// The text of the error.
pub open spec fn error_text(error: ConfigErrorView) -> Seq<char> {
    "got error parsing \""@ + error.key + "\": "@ + bad_value_text(error.found)
}

impl ConfigError {
    /// Describes the error.
    pub fn message(&self) -> (out: String)
        ensures
            out@ == error_text(self@),
    {
        let mut out = String::from_str("got error parsing \"");
        out.append(self.key.as_str());
        out.append("\": ");
        match self.found {
            BadValue::Null => out.append("got null"),
            BadValue::Array => out.append("got array"),
            BadValue::Object => out.append("got object"),
        }
        out
    }
}

/// The text under which a value is handed to the broker client: `true` or
/// `false` for a boolean, a number or a string as it stands. Nothing else
/// is a setting.
pub open spec fn setting_text(value: ConfigValueView) -> Result<Seq<char>, BadValue> {
    match value {
        ConfigValueView::Null => Err(BadValue::Null),
        ConfigValueView::Bool(true) => Ok("true"@),
        ConfigValueView::Bool(false) => Ok("false"@),
        ConfigValueView::Number(n) => Ok(n),
        ConfigValueView::Text(s) => Ok(s),
        ConfigValueView::Array => Err(BadValue::Array),
        ConfigValueView::Object => Err(BadValue::Object),
    }
}

/// The settings after a section has been written over them, setting after
/// setting, up to the first value that is no setting; and the error that
/// this value gives, if there is one.
pub open spec fn written(
    settings: Map<Seq<char>, Seq<char>>,
    section: Seq<(Seq<char>, ConfigValueView)>,
) -> (Map<Seq<char>, Seq<char>>, Option<ConfigErrorView>)
    decreases section.len(),
{
    if section.len() == 0 {
        (settings, None)
    } else {
        let (before, error) = written(settings, section.drop_last());
        if error is Some {
            (before, error)
        } else {
            match setting_text(section.last().1) {
                Ok(text) => (before.insert(section.last().0, text), None),
                Err(found) => (before, Some(ConfigErrorView { key: section.last().0, found })),
            }
        }
    }
}

/// The settings that two sections give, the second written over the first.
pub open spec fn merged(
    first: Seq<(Seq<char>, ConfigValueView)>,
    second: Seq<(Seq<char>, ConfigValueView)>,
) -> Result<Map<Seq<char>, Seq<char>>, ConfigErrorView> {
    let (settings, error) = written(no_settings(), first);
    match error {
        Some(error) => Err(error),
        None => {
            let (settings, error) = written(settings, second);
            match error {
                Some(error) => Err(error),
                None => Ok(settings),
            }
        },
    }
}

/// Declares `rdkafka::ClientConfig`, the configuration of a broker client,
/// as a type whose inside is not looked at.
#[verifier::external_type_specification]
#[verifier::external_body]
pub struct ExClientConfig(ClientConfig);

/// The settings that a broker-client configuration holds, by key.
pub uninterp spec fn config_settings(config: ClientConfig) -> Map<Seq<char>, Seq<char>>;

/// No settings at all.
pub open spec fn no_settings() -> Map<Seq<char>, Seq<char>> {
    Map::empty()
}

/// Calls `rdkafka::ClientConfig::new`, which makes a configuration without
/// settings.
#[verifier::external_body]
fn empty_config() -> (out: ClientConfig)
    ensures
        config_settings(out) == no_settings(),
{
    ClientConfig::new()
}

/// Calls `rdkafka::ClientConfig::set`, which stores `value` under `key` and
/// replaces what was stored under `key` before.
#[verifier::external_body]
fn set_config(config: &mut ClientConfig, key: &str, value: String)
    ensures
        config_settings(*final(config)) == config_settings(*old(config)).insert(key@, value@),
{
    config.set(key, value);
}

fn value_text(value: &ConfigValue) -> (out: Result<String, BadValue>)
    ensures
        match out {
            Ok(text) => setting_text(value@) == Ok::<Seq<char>, BadValue>(text@),
            Err(found) => setting_text(value@) == Err::<Seq<char>, BadValue>(found),
        },
{
    match value {
        ConfigValue::Null => Err(BadValue::Null),
        ConfigValue::Bool(true) => Ok(String::from_str("true")),
        ConfigValue::Bool(false) => Ok(String::from_str("false")),
        ConfigValue::Number(n) => Ok(n.clone()),
        ConfigValue::Text(s) => Ok(s.clone()),
        ConfigValue::Array => Err(BadValue::Array),
        ConfigValue::Object => Err(BadValue::Object),
    }
}

/// Writes a section into a configuration, setting after setting, and stops
/// at the first value that is no setting.
pub fn write_config(config: &mut ClientConfig, section: &Section) -> (out: Result<(), ConfigError>)
    ensures
        config_settings(*final(config)) == written(
            config_settings(*old(config)),
            section_view(section@),
        ).0,
        match out {
            Ok(_) => written(config_settings(*old(config)), section_view(section@)).1 is None,
            Err(error) => written(config_settings(*old(config)), section_view(section@)).1
                == Some(error@),
        },
{
    let ghost start = config_settings(*config);
    let ghost view = section_view(section@);
    let mut i: usize = 0;
    assert(view.take(0) =~= Seq::empty());
    while i < section.len()
        invariant
            0 <= i <= section.len(),
            view == section_view(section@),
            start == config_settings(*old(config)),
            written(start, view.take(i as int)).0 == config_settings(*config),
            written(start, view.take(i as int)).1 is None,
        decreases section.len() - i,
    {
        let setting = &section[i];
        proof {
            assert(view.take(i + 1).drop_last() =~= view.take(i as int));
            assert(view.take(i + 1).last() == (setting.0@, setting.1@));
        }
        match value_text(&setting.1) {
            Ok(text) => {
                set_config(config, setting.0.as_str(), text);
            },
            Err(found) => {
                proof {
                    assert(written(start, view.take(i + 1)).1 is Some);
                    lemma_written_stops(start, view, i + 1);
                }
                return Err(ConfigError { key: setting.0.clone(), found });
            },
        }
        i = i + 1;
    }
    assert(view.take(i as int) =~= view);
    Ok(())
}

/// Once a value is no setting, the rest of the section changes nothing.
proof fn lemma_written_stops(
    settings: Map<Seq<char>, Seq<char>>,
    section: Seq<(Seq<char>, ConfigValueView)>,
    n: int,
)
    requires
        0 <= n <= section.len(),
        written(settings, section.take(n)).1 is Some,
    ensures
        written(settings, section) == written(settings, section.take(n)),
    decreases section.len() - n,
{
    if n < section.len() {
        assert(section.take(n + 1).drop_last() =~= section.take(n));
        lemma_written_stops(settings, section, n + 1);
    } else {
        assert(section.take(n) =~= section);
    }
}

/// The settings of the broker client, by their use.
#[derive(Debug, PartialEq, Eq)]
pub struct KafkaConfigSections {
    pub base: Section,
    pub consumer: Section,
    pub producer: Section,
}

/// The configuration of a client.
#[derive(Debug, PartialEq, Eq)]
pub struct LtClientConfig {
    pub kafka_config: KafkaConfigSections,
    pub topics: Vec<String>,
    pub schema_registry: SchemaRegistryConfig,
}

fn sections_config(first: &Section, second: &Section) -> (out: Result<ClientConfig, ConfigError>)
    ensures
        match out {
            Ok(config) => merged(section_view(first@), section_view(second@)) == Ok::<
                Map<Seq<char>, Seq<char>>,
                ConfigErrorView,
            >(config_settings(config)),
            Err(error) => merged(section_view(first@), section_view(second@)) == Err::<
                Map<Seq<char>, Seq<char>>,
                ConfigErrorView,
            >(error@),
        },
{
    let mut config = empty_config();
    match write_config(&mut config, first) {
        Ok(_) => {},
        Err(error) => {
            return Err(error);
        },
    }
    match write_config(&mut config, second) {
        Ok(_) => {},
        Err(error) => {
            return Err(error);
        },
    }
    Ok(config)
}

/// The configuration of a consumer: the settings for every client, and over
/// them the settings for consumers.
pub fn consumer_config(client_config: &LtClientConfig) -> (out: Result<ClientConfig, ConfigError>)
    ensures
        match out {
            Ok(config) => merged(
                section_view(client_config.kafka_config.base@),
                section_view(client_config.kafka_config.consumer@),
            ) == Ok::<Map<Seq<char>, Seq<char>>, ConfigErrorView>(config_settings(config)),
            Err(error) => merged(
                section_view(client_config.kafka_config.base@),
                section_view(client_config.kafka_config.consumer@),
            ) == Err::<Map<Seq<char>, Seq<char>>, ConfigErrorView>(error@),
        },
{
    sections_config(&client_config.kafka_config.base, &client_config.kafka_config.consumer)
}

/// The configuration of a producer: the settings for every client, and over
/// them the settings for producers.
pub fn producer_config(client_config: &LtClientConfig) -> (out: Result<ClientConfig, ConfigError>)
    ensures
        match out {
            Ok(config) => merged(
                section_view(client_config.kafka_config.base@),
                section_view(client_config.kafka_config.producer@),
            ) == Ok::<Map<Seq<char>, Seq<char>>, ConfigErrorView>(config_settings(config)),
            Err(error) => merged(
                section_view(client_config.kafka_config.base@),
                section_view(client_config.kafka_config.producer@),
            ) == Err::<Map<Seq<char>, Seq<char>>, ConfigErrorView>(error@),
        },
{
    sections_config(&client_config.kafka_config.base, &client_config.kafka_config.producer)
}

/// The key under which the broker client takes the name of the consumer
/// group.
pub open spec fn group_key() -> Seq<char> {
    "group.id"@
}

/// The settings of a consumer: those of [`consumer_config`], and over them
/// the name of its group where it has one.
pub open spec fn settings_in_group(
    settings: Map<Seq<char>, Seq<char>>,
    group_id: Option<String>,
) -> Map<Seq<char>, Seq<char>> {
    match group_id {
        Some(id) => settings.insert(group_key(), id@),
        None => settings,
    }
}

/// The configuration of a consumer that joins `group_id`, or, without a
/// group, the configuration of a consumer as it stands.
pub fn group_consumer_config(client_config: &LtClientConfig, group_id: &Option<String>) -> (out:
    Result<ClientConfig, ConfigError>)
    ensures
        match out {
            Ok(config) => match merged(
                section_view(client_config.kafka_config.base@),
                section_view(client_config.kafka_config.consumer@),
            ) {
                Ok(settings) => config_settings(config) == settings_in_group(settings, *group_id),
                Err(_) => false,
            },
            Err(error) => merged(
                section_view(client_config.kafka_config.base@),
                section_view(client_config.kafka_config.consumer@),
            ) == Err::<Map<Seq<char>, Seq<char>>, ConfigErrorView>(error@),
        },
{
    match consumer_config(client_config) {
        Ok(config) => {
            let mut config = config;
            match group_id {
                Some(id) => {
                    set_config(&mut config, "group.id", id.clone());
                },
                None => {},
            }
            Ok(config)
        },
        Err(error) => Err(error),
    }
}

} // verus!
