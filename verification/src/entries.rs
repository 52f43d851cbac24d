//! The server's database rows and what is computed from and for them.
//!
//! Timestamps are milliseconds since the Unix epoch (UTC). The database calls
//! themselves are made by the server program; every method here that mirrors
//! an update takes the outcome of the database write and changes the row in
//! memory only when the write succeeded.

use vstd::prelude::*;

use crate::node_config::{
    NodeConfig, NodeId, TelemetryCapabilities, WaterTankDetection, utf8_len, NODE_ID_CAPACITY,
};
use crate::node_settings::{
    MAX_PLANT_CHANNELS, MeasurementFrequencies, NodeSettings, PlantSettings,
};
use crate::telemetry::{NodeTelemetry, PlantTelemetry};

verus! {

/// `channels` table.
#[derive(Debug)]
pub struct ChannelEntry {
    pub id: i64,
    pub node_id: String,
    pub channel_id: u8,
    pub verbose_name: Option<String>,
    pub enabled: bool,
    pub moisture_m_freq: u16,
    pub watering_time: u16,
}

/// The values of a new `channels` row.
#[derive(Debug)]
pub struct NewChannel {
    pub node_id: String,
    pub channel_id: u8,
    pub enabled: bool,
    pub moisture_m_freq: u16,
    pub watering_time: u16,
}

impl NewChannel {
    /// Whether these are the values of the row for channel `idx` of node
    /// `node_id` holding `settings`.
    pub open spec fn holds(self, node_id: Seq<char>, idx: u8, settings: PlantSettings) -> bool {
        &&& self.node_id@ == node_id
        &&& self.channel_id == idx
        &&& self.enabled == settings.enabled
        &&& self.moisture_m_freq == settings.moisture_m_freq_s
        &&& self.watering_time == settings.watering_time_s
    }

    /// The row once the database stored it under `id` with the given name.
    pub open spec fn stored(self, id: i64, verbose_name: Option<String>) -> ChannelEntry {
        ChannelEntry {
            id,
            node_id: self.node_id,
            channel_id: self.channel_id,
            verbose_name,
            enabled: self.enabled,
            moisture_m_freq: self.moisture_m_freq,
            watering_time: self.watering_time,
        }
    }
}

impl ChannelEntry {
    /// The settings that a channel row stores: its enabled flag, moisture
    /// frequency and watering time.
    pub open spec fn spec_settings(self) -> PlantSettings {
        PlantSettings {
            enabled: self.enabled,
            moisture_m_freq_s: self.moisture_m_freq,
            watering_time_s: self.watering_time,
        }
    }

    /// Get channel settings.
    pub fn get_settings(&self) -> (res: PlantSettings)
        ensures
            res == self.spec_settings(),
    {
        let mut s = PlantSettings::default();
        s.enabled = self.enabled;
        s.moisture_m_freq_s = self.moisture_m_freq;
        s.watering_time_s = self.watering_time;
        s
    }

    /// The new row for channel `idx` of a node, holding `settings`.
    pub fn push(node_id: &str, idx: u8, settings: PlantSettings) -> (res: NewChannel)
        ensures
            res.holds(node_id@, idx, settings),
    {
        NewChannel {
            node_id: node_id.to_owned(),
            channel_id: idx,
            enabled: settings.enabled,
            moisture_m_freq: settings.moisture_m_freq_s,
            watering_time: settings.watering_time_s,
        }
    }

    /// Shortcut for default settings.
    pub fn push_default(node_id: &str, idx: u8) -> (res: NewChannel)
        ensures
            res.holds(node_id@, idx, PlantSettings::spec_default()),
    {
        Self::push(node_id, idx, PlantSettings::default())
    }

    /// Set channel verbose name, once the database holds it.
    pub fn set_verbose<E>(&mut self, written: Result<(), E>, name: String) -> (res: Result<(), E>)
        ensures
            res == written,
            written is Ok ==> *final(self) == (ChannelEntry { verbose_name: Some(name), ..*old(self) }),
            written is Err ==> *final(self) == *old(self),
    {
        if written.is_ok() {
            self.verbose_name = Some(name);
        }
        written
    }

    /// Enable channel, once the database holds it.
    pub fn enable<E>(&mut self, written: Result<(), E>) -> (res: Result<(), E>)
        ensures
            res == written,
            written is Ok ==> *final(self) == (ChannelEntry { enabled: true, ..*old(self) }),
            written is Err ==> *final(self) == *old(self),
    {
        self.set_enable(written, true)
    }

    /// Disable channel, once the database holds it.
    pub fn disable<E>(&mut self, written: Result<(), E>) -> (res: Result<(), E>)
        ensures
            res == written,
            written is Ok ==> *final(self) == (ChannelEntry { enabled: false, ..*old(self) }),
            written is Err ==> *final(self) == *old(self),
    {
        self.set_enable(written, false)
    }

    /// Enable / disable, once the database holds it.
    pub fn set_enable<E>(&mut self, written: Result<(), E>, enable: bool) -> (res: Result<(), E>)
        ensures
            res == written,
            written is Ok ==> *final(self) == (ChannelEntry { enabled: enable, ..*old(self) }),
            written is Err ==> *final(self) == *old(self),
    {
        if written.is_ok() {
            self.enabled = enable;
        }
        written
    }

    /// Set soil moisture measurement frequency, once the database holds it.
    pub fn set_moisture_m_freq<E>(&mut self, written: Result<(), E>, value: u16) -> (res: Result<
        (),
        E,
    >)
        ensures
            res == written,
            written is Ok ==> *final(self) == (ChannelEntry { moisture_m_freq: value, ..*old(self) }),
            written is Err ==> *final(self) == *old(self),
    {
        if written.is_ok() {
            self.moisture_m_freq = value;
        }
        written
    }

    /// Set settings (the enabled flag, then the moisture frequency), given the
    /// outcome of the first database write and, when that one succeeded, of
    /// the second. The two writes are separate: when the second fails, the
    /// row keeps the new enabled flag and the old frequency.
    pub fn set_settings<E>(
        &mut self,
        enable_written: Result<(), E>,
        freq_written: Option<Result<(), E>>,
        settings: PlantSettings,
    ) -> (res: Result<(), E>)
        requires
            enable_written is Ok <==> freq_written is Some,
        ensures
            enable_written matches Err(e) ==> res == Err::<(), E>(e) && *final(self) == *old(self),
            freq_written matches Some(Err(e)) ==> res == Err::<(), E>(e) && *final(self) == (
            ChannelEntry { enabled: settings.enabled, ..*old(self) }),
            freq_written matches Some(Ok(_)) ==> res is Ok && *final(self) == (ChannelEntry {
                enabled: settings.enabled,
                moisture_m_freq: settings.moisture_m_freq_s,
                ..*old(self)
            }),
    {
        match enable_written {
            Err(e) => Err(e),
            Ok(()) => {
                self.enabled = settings.enabled;
                match freq_written {
                    Some(Ok(())) => {
                        self.moisture_m_freq = settings.moisture_m_freq_s;
                        Ok(())
                    },
                    Some(Err(e)) => Err(e),
                    None => Ok(()),
                }
            },
        }
    }
}

/// `nodes` table.
#[derive(Debug)]
pub struct NodeEntry {
    pub id: i64,
    pub node_id: String,
    pub verbose_name: Option<String>,
    pub n_channels: u8,
    pub water_tank: bool,
    pub water_tank_level: bool,
    pub temperature: bool,
    pub humidity: bool,
    pub pressure: bool,
    pub light: bool,
    pub telemetry_report_freq: u16,
    pub light_m_freq: u16,
    pub bmpe_m_freq: u16,
    pub last_boot: i64,
    pub last_active: i64,
}

/// The values of a new `nodes` row.
#[derive(Debug)]
pub struct NewNode {
    pub node_id: String,
    pub n_channels: u8,
    pub water_tank: bool,
    pub water_tank_level: bool,
    pub temperature: bool,
    pub humidity: bool,
    pub pressure: bool,
    pub light: bool,
    pub telemetry_report_freq: u16,
    pub light_m_freq: u16,
    pub bmpe_m_freq: u16,
    pub last_boot: i64,
    pub last_active: i64,
}

impl NewNode {
    /// Whether the row records the configuration and the node-wide settings.
    pub open spec fn records(self, config: NodeConfig, settings: NodeSettings) -> bool {
        self.records_values(
            config,
            settings.telemetry_packet_creation_freq_s,
            settings.m_freq.light_intensity_s,
            settings.m_freq.bmpe_s,
        )
    }

    /// Whether the row records the configuration, the telemetry frequency and
    /// the measurement frequencies.
    pub open spec fn records_values(
        self,
        config: NodeConfig,
        telemetry_report_freq: u16,
        light_m_freq: u16,
        bmpe_m_freq: u16,
    ) -> bool {
        &&& self.n_channels == config.n_plant_channels
        &&& (self.water_tank, self.water_tank_level) == spec_tank_flags(config.water_tank_detection)
        &&& self.temperature == config.telemetry.temperature
        &&& self.humidity == config.telemetry.humidity
        &&& self.pressure == config.telemetry.pressure
        &&& self.light == config.telemetry.light
        &&& self.telemetry_report_freq == telemetry_report_freq
        &&& self.light_m_freq == light_m_freq
        &&& self.bmpe_m_freq == bmpe_m_freq
    }

    /// The row once the database stored it under `id`, with the given name.
    pub open spec fn stored(self, id: i64, verbose_name: Option<String>) -> NodeEntry {
        NodeEntry {
            id,
            node_id: self.node_id,
            verbose_name,
            n_channels: self.n_channels,
            water_tank: self.water_tank,
            water_tank_level: self.water_tank_level,
            temperature: self.temperature,
            humidity: self.humidity,
            pressure: self.pressure,
            light: self.light,
            telemetry_report_freq: self.telemetry_report_freq,
            light_m_freq: self.light_m_freq,
            bmpe_m_freq: self.bmpe_m_freq,
            last_boot: self.last_boot,
            last_active: self.last_active,
        }
    }
}

/// How a water tank capability is stored: whether there is tank telemetry,
/// and whether it measures the level.
pub open spec fn spec_tank_flags(detection: WaterTankDetection) -> (bool, bool) {
    (detection != WaterTankDetection::NoTelemetry, detection == WaterTankDetection::LevelDetection)
}

/// The water tank capability that stored flags stand for.
pub open spec fn spec_tank_detection(water_tank: bool, water_tank_level: bool) -> WaterTankDetection {
    if water_tank {
        if water_tank_level {
            WaterTankDetection::LevelDetection
        } else {
            WaterTankDetection::EmptyDetection
        }
    } else {
        WaterTankDetection::NoTelemetry
    }
}

/// How a water tank capability is stored: whether there is tank telemetry,
/// and whether it measures the level.
pub fn tank_flags(detection: WaterTankDetection) -> (res: (bool, bool))
    ensures
        res == spec_tank_flags(detection),
{
    let water_tank = !matches!(detection, WaterTankDetection::NoTelemetry);
    let water_tank_level = matches!(detection, WaterTankDetection::LevelDetection);
    (water_tank, water_tank_level)
}

/// The moment a node booted: `uptime` milliseconds before `now`, the uptime
/// read as a signed number of milliseconds (`as i64`, which wraps above
/// `i64::MAX`).
pub open spec fn spec_boot_time(now: i64, uptime: u64) -> int {
    now - (uptime as i64)
}

/// The moment a node booted, `uptime` milliseconds before `now`.
pub fn boot_time(now: i64, uptime: u64) -> (res: i64)
    requires
        i64::MIN <= spec_boot_time(now, uptime) <= i64::MAX,
    ensures
        res == spec_boot_time(now, uptime),
{
    now - (uptime as i64)
}

impl NodeEntry {
    /// The new row for a node that reported `config` after `uptime`
    /// milliseconds, at `now`, with the given settings.
    pub fn push(node_id: &str, uptime: u64, now: i64, config: &NodeConfig, settings: &NodeSettings) -> (res: NewNode)
        requires
            i64::MIN <= spec_boot_time(now, uptime) <= i64::MAX,
        ensures
            res.node_id@ == node_id@,
            res.records(*config, *settings),
            res.last_boot == spec_boot_time(now, uptime),
            res.last_active == now,
    {
        let (water_tank, water_tank_level) = tank_flags(config.water_tank_detection);
        let last_boot = boot_time(now, uptime);
        let last_active = now;
        NewNode {
            node_id: node_id.to_owned(),
            n_channels: config.n_plant_channels,
            water_tank,
            water_tank_level,
            temperature: config.telemetry.temperature,
            humidity: config.telemetry.humidity,
            pressure: config.telemetry.pressure,
            light: config.telemetry.light,
            telemetry_report_freq: settings.telemetry_packet_creation_freq_s,
            light_m_freq: settings.m_freq.light_intensity_s,
            bmpe_m_freq: settings.m_freq.bmpe_s,
            last_boot,
            last_active,
        }
    }

    /// The new row for a node with default settings.
    pub fn push_default(node_id: &str, uptime: u64, now: i64, config: &NodeConfig) -> (res: NewNode)
        requires
            i64::MIN <= spec_boot_time(now, uptime) <= i64::MAX,
        ensures
            res.node_id@ == node_id@,
            res.records_values(*config, 10, 10, 10),
            res.last_boot == spec_boot_time(now, uptime),
            res.last_active == now,
    {
        let settings = NodeSettings::default();
        Self::push(node_id, uptime, now, config, &settings)
    }

    /// The row once it records `config`.
    pub open spec fn with_config(self, config: NodeConfig) -> NodeEntry {
        NodeEntry {
            n_channels: config.n_plant_channels,
            water_tank: spec_tank_flags(config.water_tank_detection).0,
            water_tank_level: spec_tank_flags(config.water_tank_detection).1,
            temperature: config.telemetry.temperature,
            humidity: config.telemetry.humidity,
            pressure: config.telemetry.pressure,
            light: config.telemetry.light,
            ..self
        }
    }

    /// The row once it records the node-wide part of `settings`.
    pub open spec fn with_settings(self, settings: NodeSettings) -> NodeEntry {
        NodeEntry {
            telemetry_report_freq: settings.telemetry_packet_creation_freq_s,
            light_m_freq: settings.m_freq.light_intensity_s,
            bmpe_m_freq: settings.m_freq.bmpe_s,
            ..self
        }
    }

    /// The capabilities that the row records.
    pub open spec fn spec_capabilities(self) -> TelemetryCapabilities {
        TelemetryCapabilities {
            temperature: self.temperature,
            humidity: self.humidity,
            pressure: self.pressure,
            light: self.light,
        }
    }

    /// Convert into NodeConfig.
    pub fn get_config(&self) -> (res: NodeConfig)
        requires
            utf8_len(self.node_id@) <= NODE_ID_CAPACITY,
        ensures
            res.node_id@ == self.node_id@,
            res.n_plant_channels == self.n_channels,
            res.water_tank_detection == spec_tank_detection(self.water_tank, self.water_tank_level),
            res.telemetry == self.spec_capabilities(),
    {
        let tank = if self.water_tank {
            if self.water_tank_level {
                WaterTankDetection::LevelDetection
            } else {
                WaterTankDetection::EmptyDetection
            }
        } else {
            WaterTankDetection::NoTelemetry
        };
        let telemetry = TelemetryCapabilities::new(
            self.temperature,
            self.humidity,
            self.pressure,
            self.light,
        );
        let node_id = match NodeId::parse(self.node_id.as_str()) {
            Some(id) => id,
            None => {
                assert(false);
                return NodeConfig::new(NodeId::parse("").unwrap(), 0, tank, telemetry);
            },
        };
        NodeConfig::new(node_id, self.n_channels, tank, telemetry)
    }

    /// Whether `settings` are the ones that the row and the node's channel rows
    /// store: the node-wide frequencies of the row, each channel's stored
    /// settings where it has a row, and the defaults elsewhere.
    pub open spec fn settings_are(self, channels: Seq<Option<ChannelEntry>>, settings: NodeSettings) -> bool {
        &&& settings.telemetry_packet_creation_freq_s == self.telemetry_report_freq
        &&& settings.m_freq.bmpe_s == self.bmpe_m_freq
        &&& settings.m_freq.light_intensity_s == self.light_m_freq
        &&& forall|i: int|
            0 <= i < MAX_PLANT_CHANNELS ==> #[trigger] settings.plant_settings[i] == (if i
                < channels.len() && channels[i] is Some {
                channels[i]->Some_0.spec_settings()
            } else {
                PlantSettings::spec_default()
            })
    }

    /// Get NodeSettings from entry and the node's channel rows (`None` where a
    /// channel has no row yet, which keeps the default settings).
    pub fn get_settings(&self, channels: &Vec<Option<ChannelEntry>>) -> (res: NodeSettings)
        requires
            channels@.len() == self.n_channels,
            forall|i: int| MAX_PLANT_CHANNELS <= i < channels@.len() ==> #[trigger] channels@[i] is None,
        ensures
            self.settings_are(channels@, res),
    {
        let mut settings = NodeSettings::default();
        settings.telemetry_packet_creation_freq_s = self.telemetry_report_freq;
        settings.m_freq.bmpe_s = self.bmpe_m_freq;
        settings.m_freq.light_intensity_s = self.light_m_freq;

        let n = channels.len();
        let mut i: usize = 0;
        while i < n
            invariant
                n == channels@.len(),
                i <= n,
                forall|j: int| MAX_PLANT_CHANNELS <= j < channels@.len() ==> #[trigger] channels@[j] is None,
                settings.telemetry_packet_creation_freq_s == self.telemetry_report_freq,
                settings.m_freq.bmpe_s == self.bmpe_m_freq,
                settings.m_freq.light_intensity_s == self.light_m_freq,
                forall|j: int|
                    0 <= j < MAX_PLANT_CHANNELS ==> #[trigger] settings.plant_settings[j] == (if j
                        < i && channels@[j] is Some {
                        channels@[j]->Some_0.spec_settings()
                    } else {
                        PlantSettings::spec_default()
                    }),
            decreases n - i,
        {
            match &channels[i] {
                Some(ch) => {
                    settings.plant_settings[i] = ch.get_settings();
                },
                None => {},
            }
            i = i + 1;
        }
        settings
    }

    /// Update config, once the database holds it.
    pub fn update_config<E>(&mut self, written: Result<(), E>, config: &NodeConfig) -> (res: Result<(), E>)
        ensures
            res == written,
            written is Ok ==> *final(self) == old(self).with_config(*config),
            written is Err ==> *final(self) == *old(self),
    {
        if written.is_ok() {
            let (water_tank, water_tank_level) = tank_flags(config.water_tank_detection);
            self.n_channels = config.n_plant_channels;
            self.water_tank = water_tank;
            self.water_tank_level = water_tank_level;
            self.temperature = config.telemetry.temperature;
            self.humidity = config.telemetry.humidity;
            self.pressure = config.telemetry.pressure;
            self.light = config.telemetry.light;
        }
        written
    }

    /// Update last boot, once the database holds it.
    pub fn update_boot<E>(&mut self, written: Result<(), E>, last_boot: i64) -> (res: Result<(), E>)
        ensures
            res == written,
            written is Ok ==> *final(self) == (NodeEntry { last_boot, ..*old(self) }),
            written is Err ==> *final(self) == *old(self),
    {
        if written.is_ok() {
            self.last_boot = last_boot;
        }
        written
    }

    /// Update last activity field, once the database holds it.
    pub fn update_activity<E>(&mut self, written: Result<(), E>, now: i64) -> (res: Result<(), E>)
        ensures
            res == written,
            written is Ok ==> *final(self) == (NodeEntry { last_active: now, ..*old(self) }),
            written is Err ==> *final(self) == *old(self),
    {
        if written.is_ok() {
            self.last_active = now;
        }
        written
    }

    /// Set node verbose name, once the database holds it.
    pub fn set_verbose<E>(&mut self, written: Result<(), E>, name: String) -> (res: Result<(), E>)
        ensures
            res == written,
            written is Ok ==> *final(self) == (NodeEntry { verbose_name: Some(name), ..*old(self) }),
            written is Err ==> *final(self) == *old(self),
    {
        if written.is_ok() {
            self.verbose_name = Some(name);
        }
        written
    }

    /// The channel updates that a settings update makes after the node row:
    /// each channel of the node, in order, with its plant settings. Only the
    /// channels that already have a row are updated; none is added. Settings
    /// exist for the first `MAX_PLANT_CHANNELS` channels only: the updates
    /// stop there.
    pub fn channel_updates(&self, settings: &NodeSettings) -> (res: Vec<(u8, PlantSettings)>)
        ensures
            res@.len() == (if self.n_channels <= MAX_PLANT_CHANNELS {
                self.n_channels as int
            } else {
                MAX_PLANT_CHANNELS as int
            }),
            forall|i: int|
                0 <= i < res@.len() ==> #[trigger] res@[i] == (i as u8, settings.plant_settings[i]),
    {
        let n: u8 = if self.n_channels as usize <= MAX_PLANT_CHANNELS {
            self.n_channels
        } else {
            MAX_PLANT_CHANNELS as u8
        };
        let mut res: Vec<(u8, PlantSettings)> = Vec::new();
        let mut i: u8 = 0;
        while i < n
            invariant
                i <= n <= MAX_PLANT_CHANNELS,
                n == (if self.n_channels <= MAX_PLANT_CHANNELS {
                    self.n_channels as int
                } else {
                    MAX_PLANT_CHANNELS as int
                }),
                res@.len() == i,
                forall|j: int|
                    0 <= j < i ==> #[trigger] res@[j] == (j as u8, settings.plant_settings[j]),
            decreases n - i,
        {
            res.push((i, settings.plant_settings[i as usize]));
            i = i + 1;
        }
        res
    }

    /// Update node settings, once the database holds them.
    pub fn set_settings<E>(&mut self, written: Result<(), E>, settings: &NodeSettings) -> (res: Result<(), E>)
        ensures
            res == written,
            written is Ok ==> *final(self) == old(self).with_settings(*settings),
            written is Err ==> *final(self) == *old(self),
    {
        if written.is_ok() {
            self.telemetry_report_freq = settings.telemetry_packet_creation_freq_s;
            self.light_m_freq = settings.m_freq.light_intensity_s;
            self.bmpe_m_freq = settings.m_freq.bmpe_s;
        }
        written
    }
}

/// The moment a reading was taken: `uptime` milliseconds after the node's boot.
pub fn telemetry_timestamp(last_boot: i64, uptime: i64) -> (res: i64)
    requires
        i64::MIN <= last_boot + uptime <= i64::MAX,
    ensures
        res == last_boot + uptime,
{
    last_boot + uptime
}

/// The filter of a telemetry query.
#[derive(Clone, Copy, Debug, PartialEq, Eq, Structural)]
pub struct TelemetryFilter {
    pub start: Option<i64>,
    pub end: Option<i64>,
    pub limit: Option<i64>,
}

/// The number of readings a telemetry query returns when no limit is given.
pub const DEFAULT_TELEMETRY_LIMIT: i64 = 100;

impl TelemetryFilter {
    /// The window a telemetry query covers at `now`: `(start, end, limit)`,
    /// from the epoch, up to now and 100 readings unless the filter says
    /// otherwise.
    pub fn window(&self, now: i64) -> (res: (i64, i64, i64))
        ensures
            res.0 == (match self.start { Some(s) => s, None => 0 }),
            res.1 == (match self.end { Some(e) => e, None => now }),
            res.2 == (match self.limit { Some(l) => l, None => DEFAULT_TELEMETRY_LIMIT }),
    {
        let start_ts = match self.start { Some(s) => s, None => 0 };
        let end_ts = match self.end { Some(e) => e, None => now };
        let limit = match self.limit { Some(l) => l, None => DEFAULT_TELEMETRY_LIMIT };
        (start_ts, end_ts, limit)
    }
}

/// A soil moisture reading of one channel, as the `channel_telemetry` table
/// stores it.
#[derive(Clone, Copy, Debug, PartialEq, Eq, Structural)]
pub struct ChannelReading {
    pub channel_id: u8,
    /// The node's uptime when the reading was taken, in milliseconds.
    pub uptime_stamp: i64,
    /// Soil moisture in percent (float bits).
    pub soil_moisture: u32,
}

/// The reading that channel `i` reports.
pub open spec fn spec_reading(i: int, plant: PlantTelemetry) -> ChannelReading {
    ChannelReading {
        channel_id: i as u8,
        uptime_stamp: plant.measurement_stamp as i64,
        soil_moisture: plant.soil_moisture,
    }
}

/// The readings of the first `n` channels that report one, in channel order.
pub open spec fn readings_upto(plants: Seq<Option<PlantTelemetry>>, n: int) -> Seq<ChannelReading>
    decreases n,
{
    if n <= 0 {
        Seq::empty()
    } else {
        let before = readings_upto(plants, n - 1);
        match plants[n - 1] {
            Some(p) => before.push(spec_reading(n - 1, p)),
            None => before,
        }
    }
}

/// The channel readings that a node telemetry packet carries, in channel order:
/// the candidates for the `channel_telemetry` table.
pub fn channel_readings(telemetry: &NodeTelemetry) -> (res: Vec<ChannelReading>)
    ensures
        res@ == readings_upto(telemetry.plant_telemetry@, MAX_PLANT_CHANNELS as int),
{
    let mut res: Vec<ChannelReading> = Vec::new();
    let mut i: usize = 0;
    while i < MAX_PLANT_CHANNELS
        invariant
            i <= MAX_PLANT_CHANNELS,
            res@ == readings_upto(telemetry.plant_telemetry@, i as int),
        decreases MAX_PLANT_CHANNELS - i,
    {
        match telemetry.plant_telemetry[i] {
            Some(plant) => {
                res.push(ChannelReading {
                    channel_id: i as u8,
                    uptime_stamp: plant.measurement_stamp as i64,
                    soil_moisture: plant.soil_moisture,
                });
            },
            None => {},
        }
        i = i + 1;
    }
    res
}

/// The readings of the first `n` channels: each comes from a channel below `n`
/// that reports one and carries that channel's stamp and moisture, the
/// channels come in increasing order (so none twice), and every channel below
/// `n` that reports a reading has one.
proof fn lemma_readings_upto(plants: Seq<Option<PlantTelemetry>>, n: int)
    requires
        0 <= n <= plants.len(),
        n <= MAX_PLANT_CHANNELS,
    ensures
        forall|j: int|
            0 <= j < readings_upto(plants, n).len() ==> {
                let r = #[trigger] readings_upto(plants, n)[j];
                &&& r.channel_id < n
                &&& plants[r.channel_id as int] matches Some(p) && r.uptime_stamp
                    == p.measurement_stamp as i64 && r.soil_moisture == p.soil_moisture
            },
        forall|j: int, k: int|
            0 <= j < k < readings_upto(plants, n).len() ==> #[trigger] readings_upto(plants, n)[j].channel_id
                < #[trigger] readings_upto(plants, n)[k].channel_id,
        forall|i: int|
            0 <= i < n && #[trigger] plants[i] is Some ==> exists|j: int|
                0 <= j < readings_upto(plants, n).len() && #[trigger] readings_upto(plants, n)[j].channel_id
                    == i,
    decreases n,
{
    if n > 0 {
        lemma_readings_upto(plants, n - 1);
        let before = readings_upto(plants, n - 1);
        match plants[n - 1] {
            Some(p) => {
                let r = spec_reading(n - 1, p);
                assert(r.channel_id == n - 1);
                let after = before.push(r);
                assert(after == readings_upto(plants, n));
                assert forall|i: int| 0 <= i < n && #[trigger] plants[i] is Some implies exists|j: int|
                    0 <= j < after.len() && #[trigger] after[j].channel_id == i by {
                    if i == n - 1 {
                        assert(after[before.len() as int].channel_id == i);
                    } else {
                        let j = choose|j: int| 0 <= j < before.len() && #[trigger] before[j].channel_id == i;
                        assert(after[j].channel_id == i);
                    }
                }
            },
            None => {},
        }
    }
}

/// The readings stored for a telemetry packet are exactly those of the
/// channels that report one, each once, in channel order: every stored
/// reading names a channel that reports a reading and carries its stamp and
/// moisture, and every channel that reports a reading (channel 0 included)
/// has one stored.
pub proof fn law_channel_readings_exact(telemetry: NodeTelemetry)
    ensures
        ({
            let res = readings_upto(telemetry.plant_telemetry@, MAX_PLANT_CHANNELS as int);
            &&& forall|j: int|
                0 <= j < res.len() ==> {
                    let r = #[trigger] res[j];
                    &&& r.channel_id < MAX_PLANT_CHANNELS
                    &&& telemetry.plant_telemetry[r.channel_id as int] matches Some(p) && r.uptime_stamp
                        == p.measurement_stamp as i64 && r.soil_moisture == p.soil_moisture
                }
            &&& forall|j: int, k: int|
                0 <= j < k < res.len() ==> #[trigger] res[j].channel_id < #[trigger] res[k].channel_id
            &&& forall|i: int|
                0 <= i < MAX_PLANT_CHANNELS && #[trigger] telemetry.plant_telemetry[i] is Some
                    ==> exists|j: int| 0 <= j < res.len() && #[trigger] res[j].channel_id == i
        }),
{
    lemma_readings_upto(telemetry.plant_telemetry@, MAX_PLANT_CHANNELS as int);
}

/// The settings a node is answered with: the node-wide frequencies of its
/// row; for each of its channels that has a row (the last one included), the
/// enabled flag, moisture frequency and watering time stored in that row;
/// and for every other channel the defaults (disabled, moisture every 600 s,
/// 5 s of watering).
pub proof fn law_node_settings_from_rows(
    entry: NodeEntry,
    channels: Seq<Option<ChannelEntry>>,
    settings: NodeSettings,
)
    requires
        entry.settings_are(channels, settings),
    ensures
        settings.telemetry_packet_creation_freq_s == entry.telemetry_report_freq,
        settings.m_freq.light_intensity_s == entry.light_m_freq,
        settings.m_freq.bmpe_s == entry.bmpe_m_freq,
        forall|i: int|
            0 <= i < channels.len() && i < MAX_PLANT_CHANNELS && #[trigger] channels[i] is Some
                ==> settings.plant_settings[i].enabled == channels[i]->Some_0.enabled
                && settings.plant_settings[i].moisture_m_freq_s == channels[i]->Some_0.moisture_m_freq
                && settings.plant_settings[i].watering_time_s == channels[i]->Some_0.watering_time,
        forall|i: int|
            0 <= i < MAX_PLANT_CHANNELS && !(i < channels.len() && channels[i] is Some) ==> {
                &&& !(#[trigger] settings.plant_settings[i]).enabled
                &&& settings.plant_settings[i].moisture_m_freq_s == 600
                &&& settings.plant_settings[i].watering_time_s == 5
            },
{
    assert forall|i: int| 0 <= i < channels.len() && i < MAX_PLANT_CHANNELS && #[trigger] channels[i] is Some
        implies settings.plant_settings[i] == channels[i]->Some_0.spec_settings() by {}
}

/// A configuration written to a node row is read back unchanged (apart from
/// the node id, which the row keeps): channel count, water tank capability
/// and telemetry capabilities.
pub proof fn law_config_round_trip(entry: NodeEntry, config: NodeConfig)
    ensures
        entry.with_config(config).n_channels == config.n_plant_channels,
        spec_tank_detection(
            entry.with_config(config).water_tank,
            entry.with_config(config).water_tank_level,
        ) == config.water_tank_detection,
        entry.with_config(config).spec_capabilities() == config.telemetry,
        entry.with_config(config).node_id == entry.node_id,
{
}

/// A node registered with a configuration and settings reads them back: the
/// same configuration (but for the id, which the row keeps) and the same
/// node-wide settings.
pub proof fn law_registered_node_round_trip(
    row: NewNode,
    config: NodeConfig,
    settings: NodeSettings,
    id: i64,
    verbose_name: Option<String>,
)
    requires
        row.records(config, settings),
    ensures
        row.stored(id, verbose_name).n_channels == config.n_plant_channels,
        spec_tank_detection(row.stored(id, verbose_name).water_tank, row.stored(id, verbose_name).water_tank_level)
            == config.water_tank_detection,
        row.stored(id, verbose_name).spec_capabilities() == config.telemetry,
        row.stored(id, verbose_name).telemetry_report_freq == settings.telemetry_packet_creation_freq_s,
        row.stored(id, verbose_name).light_m_freq == settings.m_freq.light_intensity_s,
        row.stored(id, verbose_name).bmpe_m_freq == settings.m_freq.bmpe_s,
{
}

/// The stored water tank flags are read back as the capability they store.
pub proof fn law_tank_flags_round_trip(detection: WaterTankDetection)
    ensures
        spec_tank_detection(spec_tank_flags(detection).0, spec_tank_flags(detection).1) == detection,
{
}

/// Node-wide settings written to a node row are read back unchanged.
pub proof fn law_settings_round_trip(entry: NodeEntry, settings: NodeSettings)
    ensures
        entry.with_settings(settings).telemetry_report_freq == settings.telemetry_packet_creation_freq_s,
        entry.with_settings(settings).light_m_freq == settings.m_freq.light_intensity_s,
        entry.with_settings(settings).bmpe_m_freq == settings.m_freq.bmpe_s,
{
}

/// Settings written to an existing channel (its enabled flag, then its
/// moisture frequency) read back with the watering time that the row keeps.
pub proof fn law_channel_update_round_trip(channel: ChannelEntry, settings: PlantSettings)
    ensures
        (ChannelEntry {
            enabled: settings.enabled,
            moisture_m_freq: settings.moisture_m_freq_s,
            ..channel
        }).spec_settings() == (PlantSettings { watering_time_s: channel.watering_time, ..settings }),
{
}

/// A channel row created with some settings reads them back unchanged.
pub proof fn law_channel_settings_round_trip(
    node_id: Seq<char>,
    idx: u8,
    settings: PlantSettings,
    row: NewChannel,
    id: i64,
    verbose_name: Option<String>,
)
    requires
        row.holds(node_id, idx, settings),
    ensures
        row.stored(id, verbose_name).spec_settings() == settings,
{
}

/// Reading a node's settings again, once a default row was pushed for each of
/// its channels that had none (`ChannelEntry::push_default`), gives the same
/// settings: the rows that existed are kept, and a default row reads as the
/// defaults that its missing row stood for.
pub proof fn law_settings_reread_after_default_rows(
    entry: NodeEntry,
    channels: Seq<Option<ChannelEntry>>,
    pushed: Seq<NewChannel>,
    ids: Seq<i64>,
    filled: Seq<Option<ChannelEntry>>,
    settings: NodeSettings,
)
    requires
        entry.settings_are(channels, settings),
        filled.len() == channels.len(),
        pushed.len() == channels.len(),
        ids.len() == channels.len(),
        forall|i: int| 0 <= i < channels.len() && #[trigger] channels[i] is Some ==> filled[i] == channels[i],
        forall|i: int|
            0 <= i < channels.len() && #[trigger] channels[i] is None ==> {
                &&& pushed[i].holds(entry.node_id@, i as u8, PlantSettings::spec_default())
                &&& filled[i] == Some(pushed[i].stored(ids[i], None))
            },
    ensures
        entry.settings_are(filled, settings),
{
    assert forall|i: int| 0 <= i < MAX_PLANT_CHANNELS implies #[trigger] settings.plant_settings[i] == (if i
        < filled.len() && filled[i] is Some {
        filled[i]->Some_0.spec_settings()
    } else {
        PlantSettings::spec_default()
    }) by {
        if i < channels.len() {
            if channels[i] is None {
                assert(pushed[i].stored(ids[i], None).spec_settings() == PlantSettings::spec_default());
            }
        }
    }
}

/// A node registered with default settings, whose channels have default rows
/// or none yet, reads back the default settings.
pub proof fn law_new_node_reads_default_settings(
    row: NewNode,
    config: NodeConfig,
    id: i64,
    channels: Seq<Option<ChannelEntry>>,
    settings: NodeSettings,
)
    requires
        row.records_values(config, 10, 10, 10),
        forall|i: int|
            0 <= i < channels.len() && #[trigger] channels[i] is Some ==> channels[i]->Some_0.spec_settings()
                == PlantSettings::spec_default(),
        row.stored(id, None).settings_are(channels, settings),
    ensures
        settings.is_default(),
{
}

} // verus!
