//! This module contains all packet types.

use vstd::prelude::*;

use crate::node_config::NodeConfig;
use crate::node_settings::NodeSettings;
use crate::telemetry::NodeTelemetry;

verus! {

/// Errors of packet encoding.
#[derive(Clone, Copy, Debug, PartialEq, Eq, Structural)]
pub enum Error {
    Serialize,
    Deserialize,
}

/// The generic-ish packet type.
#[derive(Debug)]
pub struct Packet {
    pub header: PacketHeader,
    pub payload: PacketPayload,
}

impl Packet {
    pub fn new(uptime_ms: u64, payload: PacketPayload) -> (res: Self)
        ensures
            res.header.uptime_ms == uptime_ms,
            res.payload == payload,
    {
        let header = PacketHeader::new(uptime_ms);
        Self { header, payload }
    }
}

/// Packet metadata: the sender's uptime.
#[derive(Clone, Copy, Debug, PartialEq, Eq, Structural)]
pub struct PacketHeader {
    /// Real timestamp should be computed on the server side.
    pub uptime_ms: u64,
}

impl PacketHeader {
    pub fn new(uptime_ms: u64) -> (res: Self)
        ensures
            res.uptime_ms == uptime_ms,
    {
        Self { uptime_ms }
    }
}

/// Enum for all packet types.
#[derive(Debug)]
#[non_exhaustive]
pub enum PacketPayload {
    /// Standard telemetry packet, sent repeatedly over certain interval.
    Telemetry(NodeTelemetry),
    /// The packet sent by the board when it boots.
    /// Contains node config. Followed by the settings override packet.
    NodeBoot(NodeConfig),
    /// Sent by server after its booting.
    /// Followed by a node config packet.
    ServerBoot,
    /// Packet sent by server that contains the actual node settings.
    SettingsOverride(NodeSettings),
    /// Packet sent by server to water the plant on the given channel.
    Water(u8),
}

} // verus!
