//! Which broker the bridge publishes to, and on which base topic.

use vstd::prelude::*;

use crate::config::Config;

verus! {

/// The message brokers the bridge can publish to.
#[derive(PartialEq, Eq, Structural)]
pub enum Broker {
    Mqtt,
    Memphis,
}

/// The broker to publish to and the base topic of every message.
pub struct BrokerChoice {
    pub broker: Broker,
    pub topic: String,
}

/// Why the bridge cannot start.
#[derive(PartialEq, Eq, Structural)]
pub enum SetupError {
    /// Neither broker is enabled.
    NoBrokerEnabled,
}

/// Chooses the broker: MQTT, on the MQTT topic, when it is enabled;
/// otherwise Memphis, on the Memphis station, when that is enabled; and
/// neither when both are disabled.
pub fn select_broker(config: &Config) -> (r: Result<BrokerChoice, SetupError>)
    ensures
        config.mqtt_enabled ==> (r matches Ok(c) && c.broker == Broker::Mqtt && c.topic
            == config.mqtt_topic),
        !config.mqtt_enabled && config.memphis_enabled ==> (r matches Ok(c) && c.broker
            == Broker::Memphis && c.topic == config.memphis_station),
        !config.mqtt_enabled && !config.memphis_enabled ==> r == Err::<BrokerChoice, SetupError>(
            SetupError::NoBrokerEnabled,
        ),
{
    if config.mqtt_enabled {
        Ok(BrokerChoice { broker: Broker::Mqtt, topic: config.mqtt_topic.clone() })
    } else if config.memphis_enabled {
        Ok(BrokerChoice { broker: Broker::Memphis, topic: config.memphis_station.clone() })
    } else {
        Err(SetupError::NoBrokerEnabled)
    }
}

} // verus!
