//! Plant monitoring and watering system: the protocol, data model and
//! decision logic shared by the backend server and the sensor nodes.

pub mod mqtt_convention;
pub mod topic;
pub mod node_settings;
pub mod node_config;
pub mod telemetry;
pub mod packets;

pub mod bmp280;
pub mod bh1750;
pub mod router;
pub mod priority;
pub mod network;
pub mod entries;
pub mod api;
