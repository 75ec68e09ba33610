use vstd::prelude::*;

use crate::config::DeviceConfig;

verus! {

/// Where measurements are published, and as whom.
#[derive(Clone, Debug)]
pub struct MqttBrokerConfig {
    pub url: String,
    pub measurement_topic: String,
    pub user: Option<String>,
    pub password: Option<String>,
}

/// The configuration of the measuring service.
#[derive(Clone, Debug)]
pub struct ServiceConfig {
    pub mqtt_config: MqttBrokerConfig,
    pub device_config: DeviceConfig,
}

/// Delivery guarantee of a published message.
#[derive(Clone, Copy, Debug, PartialEq, Eq, Structural)]
pub enum QoS {
    AtMostOnce,
    AtLeastOnce,
    ExactlyOnce,
}

impl QoS {
    pub open spec fn spec_level(self) -> i32 {
        match self {
            QoS::AtMostOnce => 0,
            QoS::AtLeastOnce => 1,
            QoS::ExactlyOnce => 2,
        }
    }

    /// The protocol's number for this level.
    pub fn level(&self) -> (r: i32)
        ensures
            r == self.spec_level(),
    {
        match self {
            QoS::AtMostOnce => 0,
            QoS::AtLeastOnce => 1,
            QoS::ExactlyOnce => 2,
        }
    }
}

} // verus!
