//! The dynamic node settings.

use vstd::prelude::*;

verus! {

/// Maximum number of plants allowed per node.
pub const MAX_PLANT_CHANNELS: usize = 8;

/// The main settings struct.
#[derive(Clone, Copy, Debug)]
#[non_exhaustive]
pub struct NodeSettings {
    /// Frequency of creating telemetry packets in seconds.
    pub telemetry_packet_creation_freq_s: u16,
    /// Array of settings per each plant channel.
    pub plant_settings: [PlantSettings; MAX_PLANT_CHANNELS],
    /// Measurement frequencies.
    pub m_freq: MeasurementFrequencies,
}

/// Helper struct that contains all possible measurement frequencies.
/// Convention: `<quantity>_<unit>`.
#[derive(Clone, Copy, Debug, PartialEq, Eq, Structural)]
#[non_exhaustive]
pub struct MeasurementFrequencies {
    /// Light intensity measurement.
    pub light_intensity_s: u16,
    /// BMP / BME measurement frequencies (temp, pressure, humidity).
    pub bmpe_s: u16,
}

/// Settings per each channel.
#[derive(Clone, Copy, Debug, PartialEq, Eq, Structural)]
#[non_exhaustive]
pub struct PlantSettings {
    /// Channel is enabled.
    pub enabled: bool,
    /// Soil moisture measurement frequency in seconds.
    pub moisture_m_freq_s: u16,
    /// Watering time (s).
    pub watering_time_s: u16,
}

impl PlantSettings {
    /// The settings of a channel that has never been configured:
    /// disabled, moisture measured every 10 minutes, 5 s of watering.
    pub open spec fn spec_default() -> PlantSettings {
        PlantSettings { enabled: false, moisture_m_freq_s: 600, watering_time_s: 5 }
    }
}

impl MeasurementFrequencies {
    /// Light and BMP/BME sensors measured every 10 seconds.
    pub open spec fn spec_default() -> MeasurementFrequencies {
        MeasurementFrequencies { light_intensity_s: 10, bmpe_s: 10 }
    }
}

impl NodeSettings {
    /// Whether these are the settings of a node that has never been configured:
    /// telemetry every 10 seconds, default measurement frequencies and every
    /// channel at its default.
    pub open spec fn is_default(self) -> bool {
        &&& self.telemetry_packet_creation_freq_s == 10
        &&& self.m_freq == MeasurementFrequencies::spec_default()
        &&& forall|i: int|
            0 <= i < MAX_PLANT_CHANNELS ==> #[trigger] self.plant_settings[i]
                == PlantSettings::spec_default()
    }
}

impl Default for PlantSettings {
    fn default() -> (res: Self)
        ensures
            res == PlantSettings::spec_default(),
    {
        PlantSettings {
            enabled: false,
            moisture_m_freq_s: 60 * 10,  // 10 minutes
            watering_time_s: 5,
        }
    }
}

impl Default for MeasurementFrequencies {
    fn default() -> (res: Self)
        ensures
            res == MeasurementFrequencies::spec_default(),
    {
        MeasurementFrequencies { light_intensity_s: 10, bmpe_s: 10 }
    }
}

impl Default for NodeSettings {
    fn default() -> (res: Self)
        ensures
            res.is_default(),
    {
        let plant = PlantSettings::default();
        NodeSettings {
            telemetry_packet_creation_freq_s: 10,
            plant_settings: [plant; MAX_PLANT_CHANNELS],
            m_freq: MeasurementFrequencies::default(),
        }
    }
}

} // verus!
