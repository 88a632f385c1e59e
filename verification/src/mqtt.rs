//! The MQTT connection settings that the bridge derives from its configuration.

use vstd::prelude::*;

use crate::config::Config;

verus! {

/// MQTT delivery guarantee of published messages.
#[derive(PartialEq, Eq, Structural)]
pub enum QosLevel {
    AtMostOnce,
    AtLeastOnce,
    ExactlyOnce,
}

/// The delivery guarantee that an MQTT quality-of-service number denotes.
pub open spec fn qos_level_spec(num: u8) -> Option<QosLevel> {
    if num == 0 {
        Some(QosLevel::AtMostOnce)
    } else if num == 1 {
        Some(QosLevel::AtLeastOnce)
    } else if num == 2 {
        Some(QosLevel::ExactlyOnce)
    } else {
        None
    }
}

/// The delivery guarantee for a quality-of-service number.
///
/// Trusted: calls `rumqttc::v5::mqttbytes::qos`, whose source maps 0, 1 and 2
/// to `AtMostOnce`, `AtLeastOnce` and `ExactlyOnce` and every other number to
/// `None`; the result is converted variant for variant.
#[verifier::external_body]
fn qos(num: u8) -> (r: Option<QosLevel>)
    ensures
        r == qos_level_spec(num),
{
    match rumqttc::v5::mqttbytes::qos(num) {
        Some(rumqttc::v5::mqttbytes::QoS::AtMostOnce) => Some(QosLevel::AtMostOnce),
        Some(rumqttc::v5::mqttbytes::QoS::AtLeastOnce) => Some(QosLevel::AtLeastOnce),
        Some(rumqttc::v5::mqttbytes::QoS::ExactlyOnce) => Some(QosLevel::ExactlyOnce),
        None => None,
    }
}

/// Keep-alive interval of the MQTT connection, in seconds.
pub const KEEP_ALIVE_SECONDS: u64 = 5;

/// Capacity of the client's request channel.
pub const REQUEST_CHANNEL_CAPACITY: usize = 10;

/// Everything the MQTT client is built from.
pub struct MqttSettings {
    pub client_id: String,
    pub host: String,
    pub port: u16,
    pub use_tls: bool,
    pub keep_alive_seconds: u64,
    pub clean_start: bool,
    pub credentials: Option<(String, String)>,
    pub request_channel_capacity: usize,
    pub qos: QosLevel,
    pub retain: bool,
}

/// The user name and password to log in with: both, or none when either is unset.
pub open spec fn credentials_spec(username: Option<String>, password: Option<String>) -> Option<
    (String, String),
> {
    match (username, password) {
        (Some(u), Some(p)) => Some((u, p)),
        _ => None,
    }
}

/// The MQTT settings for a configuration: its client identifier, broker
/// host and port, transport and clean-start choice; a keep-alive of
/// [`KEEP_ALIVE_SECONDS`]; credentials only when both user name and password
/// are set; the configured quality of service, or at-most-once when the
/// configured number denotes none; and the configured retain flag.
pub fn mqtt_settings(config: &Config) -> (r: MqttSettings)
    ensures
        r.client_id == config.mqtt_client_id,
        r.host == config.mqtt_host,
        r.port == config.mqtt_port,
        r.use_tls == config.mqtt_use_tls_transport,
        r.keep_alive_seconds == KEEP_ALIVE_SECONDS,
        r.clean_start == config.mqtt_clean_start,
        r.credentials == credentials_spec(config.mqtt_username, config.mqtt_password),
        r.request_channel_capacity == REQUEST_CHANNEL_CAPACITY,
        r.qos == (match qos_level_spec(config.mqtt_topic_qos) {
            Some(q) => q,
            None => QosLevel::AtMostOnce,
        }),
        r.retain == config.mqtt_topic_retain,
{
    let credentials = match (&config.mqtt_username, &config.mqtt_password) {
        (Some(u), Some(p)) => Some((u.clone(), p.clone())),
        _ => None,
    };
    let qos = match qos(config.mqtt_topic_qos) {
        Some(q) => q,
        None => QosLevel::AtMostOnce,
    };
    MqttSettings {
        client_id: config.mqtt_client_id.clone(),
        host: config.mqtt_host.clone(),
        port: config.mqtt_port,
        use_tls: config.mqtt_use_tls_transport,
        keep_alive_seconds: KEEP_ALIVE_SECONDS,
        clean_start: config.mqtt_clean_start,
        credentials,
        request_channel_capacity: REQUEST_CHANNEL_CAPACITY,
        qos,
        retain: config.mqtt_topic_retain,
    }
}

} // verus!
