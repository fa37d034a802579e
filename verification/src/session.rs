//! What the session with the broker is opened with: the connection
//! parameters, the last will, the subscription and the retry interval.

use crate::identity::{spec_command_topic, DeviceIdentity};
use vstd::prelude::*;
use vstd::string::*;

verus! {

/// Seconds between keep-alive probes.
pub const KEEP_ALIVE_SECS: u64 = 30;

/// The pinned protocol level: 4, which is MQTT 3.1.1.
pub const PROTOCOL_LEVEL: u32 = 4;

/// Milliseconds to wait after a failed reconnect before the next one. The
/// interval is flat: it does not grow with the number of failures.
pub const RETRY_INTERVAL_MS: u64 = 1000;

/// How many inbound events may queue up before the agent takes them.
pub const EVENT_BUFFER: usize = 25;

/// How hard the broker tries to deliver a message.
#[derive(Clone, Copy, Debug, PartialEq, Eq, Structural)]
pub enum DeliveryGuarantee {
    AtMostOnce,
    AtLeastOnce,
    ExactlyOnce,
}

impl DeliveryGuarantee {
    /// The quality-of-service level on the wire.
    pub open spec fn spec_level(self) -> u8 {
        match self {
            DeliveryGuarantee::AtMostOnce => 0,
            DeliveryGuarantee::AtLeastOnce => 1,
            DeliveryGuarantee::ExactlyOnce => 2,
        }
    }

    /// The quality-of-service level on the wire.
    pub fn level(&self) -> (r: u8)
        ensures
            r == self.spec_level(),
    {
        match self {
            DeliveryGuarantee::AtMostOnce => 0,
            DeliveryGuarantee::AtLeastOnce => 1,
            DeliveryGuarantee::ExactlyOnce => 2,
        }
    }
}

/// The message the broker publishes for a client that vanishes uncleanly.
#[derive(Debug)]
pub struct LastWill {
    pub topic: String,
    pub payload: String,
    pub guarantee: DeliveryGuarantee,
}

impl LastWill {
    /// Whether this is the will every device leaves: the same topic, payload
    /// and guarantee for all.
    pub open spec fn is_standard(&self) -> bool {
        &&& self.topic@ == "test"@
        &&& self.payload@ == "Async subscriber lost connection"@
        &&& self.guarantee == DeliveryGuarantee::AtLeastOnce
    }

    /// The will every device leaves.
    pub fn standard() -> (r: LastWill)
        ensures
            r.is_standard(),
    {
        LastWill {
            topic: String::from_str("test"),
            payload: String::from_str("Async subscriber lost connection"),
            guarantee: DeliveryGuarantee::AtLeastOnce,
        }
    }
}

/// Everything a connection to the broker is made with.
#[derive(Debug)]
pub struct ConnectParams {
    pub server_uri: String,
    pub client_id: String,
    pub keep_alive_secs: u64,
    pub protocol_level: u32,
    pub clean_session: bool,
    pub will: LastWill,
    pub event_buffer: usize,
}

impl ConnectParams {
    /// Whether these are the parameters for the device named `name`: the
    /// fixed broker address, the name as client id, the fixed keep-alive
    /// interval and protocol level, a session that the broker keeps across
    /// disconnects, and the standard will.
    pub open spec fn is_for(&self, name: Seq<char>) -> bool {
        &&& self.server_uri@ == "tcp://rpi2.local:1883"@
        &&& self.client_id@ == name
        &&& self.keep_alive_secs == KEEP_ALIVE_SECS
        &&& self.protocol_level == PROTOCOL_LEVEL
        &&& !self.clean_session
        &&& self.will.is_standard()
        &&& self.event_buffer == EVENT_BUFFER
    }

    /// The parameters with which `identity` connects.
    pub fn for_identity(identity: &DeviceIdentity) -> (r: ConnectParams)
        ensures
            r.is_for(identity@),
    {
        ConnectParams {
            server_uri: String::from_str("tcp://rpi2.local:1883"),
            client_id: String::from_str(identity.client_id()),
            keep_alive_secs: KEEP_ALIVE_SECS,
            protocol_level: PROTOCOL_LEVEL,
            clean_session: false,
            will: LastWill::standard(),
            event_buffer: EVENT_BUFFER,
        }
    }
}

/// What the agent subscribes to, once, after its first connect.
#[derive(Debug)]
pub struct Subscription {
    pub topic: String,
    pub guarantee: DeliveryGuarantee,
}

impl Subscription {
    /// Whether this is the subscription of the device named `name`: its
    /// command topic, delivered at least once.
    pub open spec fn is_for(&self, name: Seq<char>) -> bool {
        &&& self.topic@ == spec_command_topic(name)
        &&& self.guarantee == DeliveryGuarantee::AtLeastOnce
    }

    /// The subscription of `identity`.
    pub fn for_identity(identity: &DeviceIdentity) -> (r: Subscription)
        ensures
            r.is_for(identity@),
    {
        Subscription {
            topic: identity.command_topic(),
            guarantee: DeliveryGuarantee::AtLeastOnce,
        }
    }
}

} // verus!
