//! This module contains telemetry related structs.
//!
//! Sensor readings are real numbers measured as 32-bit IEEE-754 floats; the
//! library carries each one as its bit pattern, which the decision logic only
//! moves around and never computes with.

use vstd::prelude::*;

use crate::node_settings::MAX_PLANT_CHANNELS;

verus! {

/// Node specific telemetry.
#[derive(Clone, Copy, Debug)]
pub struct NodeTelemetry {
    /// Water tank telemetry.
    pub water_tank_has_water: Option<bool>,
    /// Water tank level in percent (float bits).
    pub water_tank_level: Option<u32>,
    /// Temperature in °C (float bits).
    pub temperature: Option<u32>,
    /// Pressure in hPa (float bits).
    pub pressure: Option<u32>,
    /// Relative air humidity (float bits).
    pub air_humidity: Option<u32>,
    /// Light intensity in lux (float bits).
    pub light_intensity: Option<u32>,
    /// Plant channel telemetry.
    pub plant_telemetry: [Option<PlantTelemetry>; MAX_PLANT_CHANNELS],
}

impl NodeTelemetry {
    /// Whether no reading has been recorded yet.
    pub open spec fn is_empty(self) -> bool {
        &&& self.water_tank_has_water is None
        &&& self.water_tank_level is None
        &&& self.temperature is None
        &&& self.pressure is None
        &&& self.air_humidity is None
        &&& self.light_intensity is None
        &&& forall|i: int| 0 <= i < MAX_PLANT_CHANNELS ==> #[trigger] self.plant_telemetry[i] is None
    }

    /// Telemetry with no reading recorded.
    pub fn new() -> (res: NodeTelemetry)
        ensures
            res.is_empty(),
    {
        let none: Option<PlantTelemetry> = None;
        NodeTelemetry {
            water_tank_has_water: None,
            water_tank_level: None,
            temperature: None,
            pressure: None,
            air_humidity: None,
            light_intensity: None,
            plant_telemetry: [none; MAX_PLANT_CHANNELS],
        }
    }
}

/// Plant specific telemetry.
#[derive(Clone, Copy, Debug, PartialEq, Eq, Structural)]
pub struct PlantTelemetry {
    /// Timestamp of last measurement, needed to avoid bloating the db with it.
    pub measurement_stamp: u64,
    /// Actual measurement: soil moisture in percent (float bits).
    pub soil_moisture: u32,
}

impl PlantTelemetry {
    pub fn new(stamp: u64, moisture: u32) -> (res: Self)
        ensures
            res == (PlantTelemetry { measurement_stamp: stamp, soil_moisture: moisture }),
    {
        Self { measurement_stamp: stamp, soil_moisture: moisture }
    }
}

} // verus!
