//! This module contains NodeConfig and related structs / enums.

use vstd::prelude::*;

verus! {

/// The most bytes a node id can hold.
pub const NODE_ID_CAPACITY: usize = 32;

/// The number of bytes that the UTF-8 encoding of `chars` takes.
pub open spec fn utf8_len(chars: Seq<char>) -> nat {
    vstd::utf8::encode_utf8(chars).len()
}

/// The identifier of a node: a string of at most [`NODE_ID_CAPACITY`] bytes.
#[derive(Debug)]
pub struct NodeId {
    chars: String,
}

impl View for NodeId {
    type V = Seq<char>;

    closed spec fn view(&self) -> Seq<char> {
        self.chars@
    }
}

impl NodeId {
    #[verifier::type_invariant]
    spec fn fits(self) -> bool {
        utf8_len(self.chars@) <= NODE_ID_CAPACITY
    }

    /// Parse a node id: succeeds exactly when `s` fits in [`NODE_ID_CAPACITY`] bytes.
    pub fn parse(s: &str) -> (res: Option<NodeId>)
        ensures
            res is Some <==> utf8_len(s@) <= NODE_ID_CAPACITY,
            res matches Some(id) ==> id@ == s@,
    {
        let bytes = s.as_bytes();
        if bytes.len() <= NODE_ID_CAPACITY {
            let chars = s.to_owned();
            Some(NodeId { chars })
        } else {
            None
        }
    }

    /// The characters of the id.
    pub fn as_str(&self) -> (res: &str)
        ensures
            res@ == self@,
            utf8_len(res@) <= NODE_ID_CAPACITY,
    {
        proof {
            use_type_invariant(self);
        }
        self.chars.as_str()
    }

    /// A copy of the id.
    pub fn duplicate(&self) -> (res: NodeId)
        ensures
            res@ == self@,
    {
        proof {
            use_type_invariant(self);
        }
        NodeId { chars: self.chars.clone() }
    }
}

/// Each node should have a configuration defined.
/// Design assumes that each node supports soil moisture reading and pump
/// control on every flower channel.
#[derive(Debug)]
pub struct NodeConfig {
    pub node_id: NodeId,
    /// Maximum number of flowers attached to this node.
    pub n_plant_channels: u8,
    pub water_tank_detection: WaterTankDetection,
    /// Node telemetry.
    pub telemetry: TelemetryCapabilities,
}

impl NodeConfig {
    pub fn new(
        node_id: NodeId,
        max_flower_channels: u8,
        water_tank_detection: WaterTankDetection,
        telemetry: TelemetryCapabilities,
    ) -> (res: Self)
        ensures
            res.node_id@ == node_id@,
            res.n_plant_channels == max_flower_channels,
            res.water_tank_detection == water_tank_detection,
            res.telemetry == telemetry,
    {
        NodeConfig { node_id, n_plant_channels: max_flower_channels, water_tank_detection, telemetry }
    }

    /// A copy of the configuration.
    pub fn duplicate(&self) -> (res: NodeConfig)
        ensures
            res.node_id@ == self.node_id@,
            res.n_plant_channels == self.n_plant_channels,
            res.water_tank_detection == self.water_tank_detection,
            res.telemetry == self.telemetry,
    {
        NodeConfig {
            node_id: self.node_id.duplicate(),
            n_plant_channels: self.n_plant_channels,
            water_tank_detection: self.water_tank_detection,
            telemetry: self.telemetry,
        }
    }
}

/// Supported telemetry options.
#[derive(Clone, Copy, Debug, PartialEq, Eq, Structural)]
pub struct TelemetryCapabilities {
    pub temperature: bool,
    pub humidity: bool,
    pub pressure: bool,
    pub light: bool,
}

impl TelemetryCapabilities {
    pub fn new(temperature: bool, humidity: bool, pressure: bool, light: bool) -> (res: Self)
        ensures
            res == (TelemetryCapabilities { temperature, humidity, pressure, light }),
    {
        Self { temperature, humidity, pressure, light }
    }
}

/// Supported water tank telemetry capabilities.
#[derive(Clone, Copy, Debug, PartialEq, Eq, Structural)]
pub enum WaterTankDetection {
    /// No water tank telemetry.
    NoTelemetry,
    /// Can detect whether the tank is empty or not.
    EmptyDetection,
    /// Can detect the exact water level.
    LevelDetection,
}

} // verus!
