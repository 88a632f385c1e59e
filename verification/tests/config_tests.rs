use ble_to_mqtt::bridge::{select_broker, Broker, SetupError};
use ble_to_mqtt::config::{Config, ConfigError};
use ble_to_mqtt::mqtt::{mqtt_settings, QosLevel, KEEP_ALIVE_SECONDS, REQUEST_CHANNEL_CAPACITY};
use ble_to_mqtt::parse::{parse_bool, parse_u16, parse_u64, parse_u8, parse_unsigned};

fn vars(pairs: &[(&str, &str)]) -> Vec<(String, String)> {
    pairs.iter().map(|(k, v)| (k.to_string(), v.to_string())).collect()
}

fn load(pairs: &[(&str, &str)]) -> Config {
    match Config::init_from_pairs(&vars(pairs)) {
        Ok(c) => c,
        Err(ConfigError::ParseError { name }) => panic!("unexpected parse error on {}", name),
    }
}

fn error_name(pairs: &[(&str, &str)]) -> String {
    match Config::init_from_pairs(&vars(pairs)) {
        Ok(_) => panic!("expected an error"),
        Err(ConfigError::ParseError { name }) => name,
    }
}

#[test]
fn config_defaults_when_nothing_is_set() {
    let c = load(&[]);
    assert!(c.mqtt_enabled);
    assert_eq!(c.mqtt_host, "127.0.0.1");
    assert_eq!(c.mqtt_port, 1883);
    assert!(!c.mqtt_use_tls_transport);
    assert_eq!(c.mqtt_username, None);
    assert_eq!(c.mqtt_password, None);
    assert_eq!(c.mqtt_client_id, "ble-to-mqtt-bridge");
    assert_eq!(c.mqtt_topic, "ble-to-mqtt");
    assert_eq!(c.mqtt_topic_qos, 0);
    assert!(!c.mqtt_topic_retain);
    assert_eq!(c.mqtt_keep_alive_interval_seconds, 10);
    assert!(!c.mqtt_clean_start);
    assert_eq!(c.bt_auto_scan_restart_interval_seconds, 3600);
    assert!(!c.memphis_enabled);
    assert_eq!(c.memphis_hostname, "localhost:6666");
    assert_eq!(c.memphis_username, "root");
    assert_eq!(c.memphis_password, "memphis");
    assert_eq!(c.memphis_station, "bleTomMemphis");
    assert_eq!(c.memphis_producer_name, "bleTomMemphisProducer");
}

#[test]
fn config_variables_override_defaults() {
    let c = load(&[
        ("BLE_TO_MQTT_HOST", "broker.local"),
        ("BLE_TO_MQTT_PORT", "8883"),
        ("BLE_TO_MQTT_USE_TLS_TRANSPORT", "true"),
        ("BLE_TO_MQTT_USERNAME", "alice"),
        ("BLE_TO_MQTT_PASSWORD", "secret"),
        ("BLE_TO_MQTT_TOPIC_QOS", "2"),
        ("BLE_TO_MQTT_KEEP_ALIVE_INTERVAL_SEC", "+30"),
        ("BLE_TO_MEMPHIS_ENABLED", "true"),
        ("BLE_TO_MEMPHIS_STATION", "station"),
        ("UNRELATED", "x"),
    ]);
    assert_eq!(c.mqtt_host, "broker.local");
    assert_eq!(c.mqtt_port, 8883);
    assert!(c.mqtt_use_tls_transport);
    assert_eq!(c.mqtt_username.as_deref(), Some("alice"));
    assert_eq!(c.mqtt_password.as_deref(), Some("secret"));
    assert_eq!(c.mqtt_topic_qos, 2);
    assert_eq!(c.mqtt_keep_alive_interval_seconds, 30);
    assert!(c.memphis_enabled);
    assert_eq!(c.memphis_station, "station");
    assert_eq!(c.mqtt_topic, "ble-to-mqtt");
}

#[test]
fn config_first_value_of_a_variable_wins() {
    let c = load(&[("BLE_TO_MQTT_TOPIC", "first"), ("BLE_TO_MQTT_TOPIC", "second")]);
    assert_eq!(c.mqtt_topic, "first");
    let c = load(&[("BLE_TO_MQTT_PORT", "1"), ("BLE_TO_MQTT_PORT", "bad")]);
    assert_eq!(c.mqtt_port, 1);
}

#[test]
fn config_empty_optional_is_present() {
    let c = load(&[("BLE_TO_MQTT_USERNAME", "")]);
    assert_eq!(c.mqtt_username.as_deref(), Some(""));
}

#[test]
fn config_reports_unparsable_port() {
    assert_eq!(error_name(&[("BLE_TO_MQTT_PORT", "70000")]), "BLE_TO_MQTT_PORT");
    assert_eq!(error_name(&[("BLE_TO_MQTT_PORT", "")]), "BLE_TO_MQTT_PORT");
}

#[test]
fn config_reports_first_bad_setting_in_declaration_order() {
    let name = error_name(&[
        ("BLE_TO_MEMPHIS_ENABLED", "maybe"),
        ("BLE_TO_MQTT_TOPIC_QOS", "-1"),
        ("BLE_TO_MQTT_ENABLED", "TRUE"),
    ]);
    assert_eq!(name, "BLE_TO_MQTT_ENABLED");
    let name = error_name(&[("BLE_TO_MEMPHIS_ENABLED", "maybe"), ("BLE_TO_MQTT_TOPIC_QOS", "-1")]);
    assert_eq!(name, "BLE_TO_MQTT_TOPIC_QOS");
    let name = error_name(&[("BLE_TO_MQTT_BT_AUTO_SCAN_RESTART_INTERVAL_SEC", "1h")]);
    assert_eq!(name, "BLE_TO_MQTT_BT_AUTO_SCAN_RESTART_INTERVAL_SEC");
}

#[test]
fn parse_bool_accepts_exact_words_only() {
    assert_eq!(parse_bool("true"), Some(true));
    assert_eq!(parse_bool("false"), Some(false));
    assert_eq!(parse_bool("True"), None);
    assert_eq!(parse_bool(" true"), None);
    assert_eq!(parse_bool(""), None);
    assert_eq!(parse_bool("1"), None);
}

#[test]
fn parse_unsigned_grammar() {
    assert_eq!(parse_u16("+42"), Some(42));
    assert_eq!(parse_u16("007"), Some(7));
    assert_eq!(parse_u16("65535"), Some(65535));
    assert_eq!(parse_u16("65536"), None);
    assert_eq!(parse_u16(""), None);
    assert_eq!(parse_u16("+"), None);
    assert_eq!(parse_u16("-1"), None);
    assert_eq!(parse_u16("1 "), None);
    assert_eq!(parse_u16("++1"), None);
    assert_eq!(parse_u8("255"), Some(255));
    assert_eq!(parse_u8("256"), None);
    assert_eq!(parse_u8("0000000000000000000000000000255"), Some(255));
    assert_eq!(parse_u64("18446744073709551615"), Some(u64::MAX));
    assert_eq!(parse_u64("18446744073709551616"), None);
    assert_eq!(parse_unsigned("99999999999999999999999999", 10), None);
    assert_eq!(parse_unsigned("10", 10), Some(10));
    assert_eq!(parse_unsigned("٣", 10), None);
}

#[test]
fn parse_unsigned_agrees_with_std() {
    for s in ["0", "+0", "12", "+65535", "65536", "", "+", "-0", "a1", "1a", "00065535", "9"] {
        assert_eq!(parse_u16(s), s.parse::<u16>().ok(), "text {:?}", s);
        assert_eq!(parse_u8(s), s.parse::<u8>().ok(), "text {:?}", s);
        assert_eq!(parse_u64(s), s.parse::<u64>().ok(), "text {:?}", s);
    }
    for s in ["true", "false", "TRUE", "", "yes"] {
        assert_eq!(parse_bool(s), s.parse::<bool>().ok());
    }
}

#[test]
fn mqtt_settings_from_config() {
    let c = load(&[
        ("BLE_TO_MQTT_USERNAME", "alice"),
        ("BLE_TO_MQTT_PASSWORD", "secret"),
        ("BLE_TO_MQTT_TOPIC_QOS", "1"),
        ("BLE_TO_MQTT_TOPIC_RETAIN", "true"),
        ("BLE_TO_MQTT_CLEAN_START", "true"),
        ("BLE_TO_MQTT_KEEP_ALIVE_INTERVAL_SEC", "60"),
    ]);
    let s = mqtt_settings(&c);
    assert_eq!(s.client_id, "ble-to-mqtt-bridge");
    assert_eq!(s.host, "127.0.0.1");
    assert_eq!(s.port, 1883);
    assert!(!s.use_tls);
    assert_eq!(s.keep_alive_seconds, KEEP_ALIVE_SECONDS);
    assert_eq!(s.keep_alive_seconds, 5);
    assert!(s.clean_start);
    assert_eq!(s.credentials, Some(("alice".to_string(), "secret".to_string())));
    assert_eq!(s.request_channel_capacity, REQUEST_CHANNEL_CAPACITY);
    assert_eq!(s.request_channel_capacity, 10);
    assert!(s.qos == QosLevel::AtLeastOnce);
    assert!(s.retain);
}

#[test]
fn mqtt_settings_qos_levels_and_fallback() {
    let s = mqtt_settings(&load(&[("BLE_TO_MQTT_TOPIC_QOS", "2")]));
    assert!(s.qos == QosLevel::ExactlyOnce);
    let s = mqtt_settings(&load(&[("BLE_TO_MQTT_TOPIC_QOS", "0")]));
    assert!(s.qos == QosLevel::AtMostOnce);
    let s = mqtt_settings(&load(&[("BLE_TO_MQTT_TOPIC_QOS", "3")]));
    assert!(s.qos == QosLevel::AtMostOnce);
}

#[test]
fn mqtt_credentials_need_both_user_and_password() {
    let s = mqtt_settings(&load(&[("BLE_TO_MQTT_USERNAME", "alice")]));
    assert_eq!(s.credentials, None);
    let s = mqtt_settings(&load(&[("BLE_TO_MQTT_PASSWORD", "secret")]));
    assert_eq!(s.credentials, None);
}

#[test]
fn broker_choice_prefers_mqtt() {
    let c = load(&[("BLE_TO_MEMPHIS_ENABLED", "true"), ("BLE_TO_MQTT_TOPIC", "t")]);
    let choice = select_broker(&c).ok().unwrap();
    assert!(choice.broker == Broker::Mqtt);
    assert_eq!(choice.topic, "t");
}

#[test]
fn broker_choice_memphis_when_mqtt_disabled() {
    let c = load(&[
        ("BLE_TO_MQTT_ENABLED", "false"),
        ("BLE_TO_MEMPHIS_ENABLED", "true"),
        ("BLE_TO_MEMPHIS_STATION", "st"),
    ]);
    let choice = select_broker(&c).ok().unwrap();
    assert!(choice.broker == Broker::Memphis);
    assert_eq!(choice.topic, "st");
}

#[test]
fn broker_choice_fails_when_none_enabled() {
    let c = load(&[("BLE_TO_MQTT_ENABLED", "false")]);
    assert!(matches!(select_broker(&c), Err(SetupError::NoBrokerEnabled)));
}
