use flowers::api::{found, written, INTERNAL_SERVER_ERROR, NOT_FOUND, OK};
use flowers::entries::{
    boot_time, channel_readings, tank_flags, telemetry_timestamp, ChannelEntry, ChannelReading,
    NodeEntry, TelemetryFilter,
};
use flowers::node_config::{NodeConfig, NodeId, TelemetryCapabilities, WaterTankDetection};
use flowers::node_settings::{NodeSettings, PlantSettings};
use flowers::packets::{Packet, PacketPayload};
use flowers::router::{
    boot_response, dispatch, handle_boot, override_settings, routes, settings_answer, topic_level, BootAction,
    BootNotice, BootRejection, Route,
};
use flowers::telemetry::{NodeTelemetry, PlantTelemetry};

#[test]
fn route_table() {
    let r = routes();
    assert_eq!(r.len(), 2);
    assert_eq!(r[0].0, "node/+/telemetry");
    assert_eq!(r[0].1, Route::Telemetry);
    assert_eq!(r[1].0, "node/+/boot");
    assert_eq!(r[1].1, Route::Boot);
}

#[test]
fn dispatch_picks_first_matching_route() {
    let r = routes();
    assert_eq!(dispatch(&r, "node/pico-1/telemetry"), Some(Route::Telemetry));
    assert_eq!(dispatch(&r, "node/pico-1/boot"), Some(Route::Boot));
    assert_eq!(dispatch(&r, "server/boot"), None);
    assert_eq!(dispatch(&r, "override/pico-1"), None);
    assert_eq!(dispatch(&r, "node/pico-1/other"), None);
    let catch_all = vec![("#".to_string(), Route::Boot), ("node/+/telemetry".to_string(), Route::Telemetry)];
    assert_eq!(dispatch(&catch_all, "node/pico-1/telemetry"), Some(Route::Boot));
    assert_eq!(dispatch(&Vec::new(), "node/a/boot"), None);
}

#[test]
fn topic_levels_by_index() {
    assert_eq!(topic_level("node/pico-9/boot", 1).as_deref(), Some("pico-9"));
    assert_eq!(topic_level("node/pico-9/boot", 2).as_deref(), Some("boot"));
    assert_eq!(topic_level("node/pico-9/boot", 3), None);
    assert_eq!(topic_level("node", 0).as_deref(), Some("node"));
    assert_eq!(topic_level("node", 1), None);
}

fn config(id: &str, detection: WaterTankDetection) -> NodeConfig {
    NodeConfig::new(NodeId::parse(id).unwrap(), 2, detection, TelemetryCapabilities::new(true, false, true, true))
}

#[test]
fn boot_handler_reads_topic_and_packet() {
    let packet = Packet::new(1500, PacketPayload::NodeBoot(config("pico-3", WaterTankDetection::LevelDetection)));
    let notice = handle_boot("node/pico-3/boot", packet).unwrap();
    assert_eq!(notice.node_id, "pico-3");
    assert_eq!(notice.uptime_ms, 1500);
    assert_eq!(notice.config.n_plant_channels, 2);

    let telemetry = Packet::new(1, PacketPayload::Telemetry(NodeTelemetry::new()));
    assert_eq!(handle_boot("node/pico-3/boot", telemetry).err(), Some(BootRejection::NotNodeBoot));

    let packet = Packet::new(1, PacketPayload::NodeBoot(config("p", WaterTankDetection::NoTelemetry)));
    assert_eq!(handle_boot("node", packet).err(), Some(BootRejection::NoNodeId));
}

#[test]
fn override_message() {
    let mut settings = NodeSettings::default();
    settings.telemetry_packet_creation_freq_s = 30;
    let (topic, packet) = override_settings("pico-3", settings);
    assert_eq!(topic, "override/pico-3");
    assert_eq!(packet.header.uptime_ms, 0);
    match packet.payload {
        PacketPayload::SettingsOverride(s) => assert_eq!(s.telemetry_packet_creation_freq_s, 30),
        _ => panic!("wrong payload"),
    }
}

fn channel(enabled: bool, freq: u16, watering: u16) -> ChannelEntry {
    ChannelEntry {
        id: 1,
        node_id: "n".to_string(),
        channel_id: 0,
        verbose_name: None,
        enabled,
        moisture_m_freq: freq,
        watering_time: watering,
    }
}

#[test]
fn channel_settings_read_stored_watering_time() {
    let s = channel(true, 120, 9).get_settings();
    assert!(s.enabled);
    assert_eq!(s.moisture_m_freq_s, 120);
    assert_eq!(s.watering_time_s, 9);
}

#[test]
fn channel_settings_update_is_two_writes() {
    let mut s = PlantSettings::default();
    s.enabled = true;
    s.moisture_m_freq_s = 30;
    let mut c = channel(false, 120, 9);
    assert_eq!(c.set_settings(Err("db"), None, s), Err("db"));
    assert!(!c.enabled);
    assert_eq!(c.moisture_m_freq, 120);
    assert_eq!(c.set_settings(Ok(()), Some(Err("db")), s), Err("db"));
    assert!(c.enabled);
    assert_eq!(c.moisture_m_freq, 120);
    let mut c = channel(false, 120, 9);
    assert_eq!(c.set_settings::<&str>(Ok(()), Some(Ok(())), s), Ok(()));
    assert!(c.enabled);
    assert_eq!(c.moisture_m_freq, 30);
    assert_eq!(c.watering_time, 9);
}

#[test]
fn channel_rows() {
    let mut s = PlantSettings::default();
    s.enabled = true;
    s.watering_time_s = 7;
    let row = ChannelEntry::push("n", 3, s);
    assert_eq!(row.node_id, "n");
    assert_eq!(row.channel_id, 3);
    assert!(row.enabled);
    assert_eq!(row.moisture_m_freq, 600);
    assert_eq!(row.watering_time, 7);
    let d = ChannelEntry::push_default("n", 1);
    assert!(!d.enabled);
    assert_eq!(d.moisture_m_freq, 600);
    assert_eq!(d.watering_time, 5);
}

#[test]
fn channel_updates_need_a_successful_write() {
    let mut c = channel(false, 60, 5);
    assert!(c.enable(Ok::<(), ()>(())).is_ok());
    assert!(c.enabled);
    assert_eq!(c.disable(Err::<(), &str>("db down")), Err("db down"));
    assert!(c.enabled);
    assert!(c.disable(Ok::<(), ()>(())).is_ok());
    assert!(!c.enabled);
    assert!(c.set_moisture_m_freq(Ok::<(), ()>(()), 300).is_ok());
    assert_eq!(c.moisture_m_freq, 300);
    assert!(c.set_moisture_m_freq(Err::<(), ()>(()), 1).is_err());
    assert_eq!(c.moisture_m_freq, 300);
    assert!(c.set_verbose(Ok::<(), ()>(()), "basil".to_string()).is_ok());
    assert_eq!(c.verbose_name.as_deref(), Some("basil"));
    assert!(c.set_verbose(Err::<(), ()>(()), "mint".to_string()).is_err());
    assert_eq!(c.verbose_name.as_deref(), Some("basil"));
    assert!(c.set_enable(Ok::<(), ()>(()), true).is_ok());
    assert!(c.enabled);
}

fn node_entry() -> NodeEntry {
    NodeEntry {
        id: 1,
        node_id: "pico-3".to_string(),
        verbose_name: None,
        n_channels: 2,
        water_tank: true,
        water_tank_level: false,
        temperature: true,
        humidity: false,
        pressure: true,
        light: false,
        telemetry_report_freq: 15,
        light_m_freq: 20,
        bmpe_m_freq: 25,
        last_boot: 1_000_000,
        last_active: 2_000_000,
    }
}

#[test]
fn tank_flags_cases() {
    assert_eq!(tank_flags(WaterTankDetection::NoTelemetry), (false, false));
    assert_eq!(tank_flags(WaterTankDetection::EmptyDetection), (true, false));
    assert_eq!(tank_flags(WaterTankDetection::LevelDetection), (true, true));
}

#[test]
fn node_row_from_boot() {
    let cfg = config("pico-3", WaterTankDetection::EmptyDetection);
    let row = NodeEntry::push_default("pico-3", 5_000, 1_700_000_000_000, &cfg);
    assert_eq!(row.node_id, "pico-3");
    assert_eq!(row.n_channels, 2);
    assert!(row.water_tank && !row.water_tank_level);
    assert!(row.temperature && !row.humidity && row.pressure && row.light);
    assert_eq!(row.telemetry_report_freq, 10);
    assert_eq!(row.light_m_freq, 10);
    assert_eq!(row.bmpe_m_freq, 10);
    assert_eq!(row.last_boot, 1_699_999_995_000);
    assert_eq!(row.last_active, 1_700_000_000_000);
    let mut settings = NodeSettings::default();
    settings.telemetry_packet_creation_freq_s = 60;
    settings.m_freq.bmpe_s = 3;
    let row = NodeEntry::push("pico-3", 0, 7, &cfg, &settings);
    assert_eq!(row.telemetry_report_freq, 60);
    assert_eq!(row.bmpe_m_freq, 3);
    assert_eq!(row.last_boot, 7);
}

#[test]
fn boot_time_takes_uptime_as_signed() {
    assert_eq!(boot_time(10_000, 4_000), 6_000);
    assert_eq!(boot_time(10_000, u64::MAX), 10_001);
}

#[test]
fn node_config_from_row() {
    let e = node_entry();
    let c = e.get_config();
    assert_eq!(c.node_id.as_str(), "pico-3");
    assert_eq!(c.n_plant_channels, 2);
    assert_eq!(c.water_tank_detection, WaterTankDetection::EmptyDetection);
    assert_eq!(c.telemetry, TelemetryCapabilities::new(true, false, true, false));
}

#[test]
fn config_written_then_read_back() {
    for detection in [WaterTankDetection::NoTelemetry, WaterTankDetection::EmptyDetection, WaterTankDetection::LevelDetection] {
        let mut e = node_entry();
        let cfg = NodeConfig::new(NodeId::parse("ignored").unwrap(), 5, detection, TelemetryCapabilities::new(false, true, false, true));
        assert!(e.update_config(Ok::<(), ()>(()), &cfg).is_ok());
        let back = e.get_config();
        assert_eq!(back.node_id.as_str(), "pico-3");
        assert_eq!(back.n_plant_channels, 5);
        assert_eq!(back.water_tank_detection, detection);
        assert_eq!(back.telemetry, cfg.telemetry);
    }
    let mut e = node_entry();
    let cfg = config("x", WaterTankDetection::NoTelemetry);
    assert!(e.update_config(Err::<(), ()>(()), &cfg).is_err());
    assert_eq!(e.get_config().water_tank_detection, WaterTankDetection::EmptyDetection);
}

#[test]
fn node_settings_from_rows() {
    let e = node_entry();
    let channels = vec![Some(channel(true, 30, 8)), None];
    let s = e.get_settings(&channels);
    assert_eq!(s.telemetry_packet_creation_freq_s, 15);
    assert_eq!(s.m_freq.light_intensity_s, 20);
    assert_eq!(s.m_freq.bmpe_s, 25);
    assert!(s.plant_settings[0].enabled);
    assert_eq!(s.plant_settings[0].moisture_m_freq_s, 30);
    assert_eq!(s.plant_settings[0].watering_time_s, 8);
    assert_eq!(s.plant_settings[1], PlantSettings::default());
    assert_eq!(s.plant_settings[7], PlantSettings::default());
}

#[test]
fn node_settings_written_then_read_back() {
    let mut e = node_entry();
    let mut settings = NodeSettings::default();
    settings.telemetry_packet_creation_freq_s = 99;
    settings.m_freq.light_intensity_s = 98;
    settings.m_freq.bmpe_s = 97;
    assert!(e.set_settings(Ok::<(), ()>(()), &settings).is_ok());
    let back = e.get_settings(&vec![None, None]);
    assert_eq!(back.telemetry_packet_creation_freq_s, 99);
    assert_eq!(back.m_freq, settings.m_freq);
    assert!(e.set_settings(Err::<(), ()>(()), &NodeSettings::default()).is_err());
    assert_eq!(e.telemetry_report_freq, 99);
}

#[test]
fn node_activity_updates() {
    let mut e = node_entry();
    assert!(e.update_activity(Ok::<(), ()>(()), 5).is_ok());
    assert_eq!(e.last_active, 5);
    assert!(e.update_activity(Err::<(), ()>(()), 6).is_err());
    assert_eq!(e.last_active, 5);
    assert!(e.update_boot(Ok::<(), ()>(()), 42).is_ok());
    assert_eq!(e.last_boot, 42);
    assert!(e.set_verbose(Ok::<(), ()>(()), "kitchen".to_string()).is_ok());
    assert_eq!(e.verbose_name.as_deref(), Some("kitchen"));
}

#[test]
fn readings_in_channel_order() {
    let mut t = NodeTelemetry::new();
    t.plant_telemetry[1] = Some(PlantTelemetry::new(500, 1));
    t.plant_telemetry[4] = Some(PlantTelemetry::new(u64::MAX, 2));
    let r = channel_readings(&t);
    assert_eq!(
        r,
        vec![
            ChannelReading { channel_id: 1, uptime_stamp: 500, soil_moisture: 1 },
            ChannelReading { channel_id: 4, uptime_stamp: -1, soil_moisture: 2 },
        ]
    );
    assert!(channel_readings(&NodeTelemetry::new()).is_empty());
}

#[test]
fn telemetry_times() {
    assert_eq!(telemetry_timestamp(1_000, 250), 1_250);
    let f = TelemetryFilter { start: None, end: None, limit: None };
    assert_eq!(f.window(9_999), (0, 9_999, 100));
    let f = TelemetryFilter { start: Some(5), end: Some(6), limit: Some(7) };
    assert_eq!(f.window(9_999), (5, 6, 7));
}

#[test]
fn handler_statuses() {
    assert_eq!(found(Ok::<Option<u8>, ()>(Some(3))), Ok(3));
    assert_eq!(found(Ok::<Option<u8>, ()>(None)), Err(NOT_FOUND));
    assert_eq!(found(Err::<Option<u8>, ()>(())), Err(INTERNAL_SERVER_ERROR));
    assert_eq!(written(Ok::<(), ()>(())), Ok(OK));
    assert_eq!(written(Err::<(), ()>(())), Err(INTERNAL_SERVER_ERROR));
    assert_eq!((OK, NOT_FOUND, INTERNAL_SERVER_ERROR), (200, 404, 500));
}

#[test]
fn boot_of_unknown_node_registers_default_row() {
    let notice = BootNotice { node_id: "pico-3".to_string(), uptime_ms: 5_000, config: config("pico-3", WaterTankDetection::LevelDetection) };
    match boot_response(&notice, None, 1_700_000_000_000) {
        BootAction::Register(row) => {
            assert_eq!(row.node_id, "pico-3");
            assert_eq!(row.n_channels, 2);
            assert!(row.water_tank && row.water_tank_level);
            assert_eq!((row.telemetry_report_freq, row.light_m_freq, row.bmpe_m_freq), (10, 10, 10));
            assert_eq!(row.last_boot, 1_699_999_995_000);
            assert_eq!(row.last_active, 1_700_000_000_000);
        }
        BootAction::Answer => panic!("unknown node must be registered"),
    }
    let known = node_entry();
    assert!(matches!(boot_response(&notice, Some(&known), 0), BootAction::Answer));
}

#[test]
fn boot_answer_carries_stored_settings() {
    let entry = node_entry();
    let channels = vec![Some(channel(true, 120, 9)), None];
    let (topic, packet) = settings_answer(&entry, &channels);
    assert_eq!(topic, "override/pico-3");
    assert_eq!(packet.header.uptime_ms, 0);
    match packet.payload {
        PacketPayload::SettingsOverride(s) => {
            assert_eq!(s.telemetry_packet_creation_freq_s, 15);
            assert_eq!(s.m_freq.light_intensity_s, 20);
            assert_eq!(s.m_freq.bmpe_s, 25);
            assert!(s.plant_settings[0].enabled);
            assert_eq!(s.plant_settings[0].moisture_m_freq_s, 120);
            assert_eq!(s.plant_settings[0].watering_time_s, 9);
            assert!(!s.plant_settings[1].enabled);
            assert_eq!(s.plant_settings[1].watering_time_s, 5);
        }
        _ => panic!("wrong payload"),
    }
}

#[test]
fn settings_update_reaches_each_channel() {
    let entry = node_entry();
    let mut s = NodeSettings::default();
    s.plant_settings[0].enabled = true;
    s.plant_settings[1].moisture_m_freq_s = 42;
    s.plant_settings[2].enabled = true;
    let updates = entry.channel_updates(&s);
    assert_eq!(updates.len(), 2);
    assert_eq!(updates[0].0, 0);
    assert!(updates[0].1.enabled);
    assert_eq!(updates[1].0, 1);
    assert_eq!(updates[1].1.moisture_m_freq_s, 42);
}

#[test]
fn settings_reread_after_default_rows() {
    let e = node_entry();
    let first = e.get_settings(&vec![Some(channel(true, 30, 8)), None]);
    let row = ChannelEntry::push_default("pico-3", 1);
    let pushed = ChannelEntry {
        id: 2,
        node_id: row.node_id,
        channel_id: row.channel_id,
        verbose_name: None,
        enabled: row.enabled,
        moisture_m_freq: row.moisture_m_freq,
        watering_time: row.watering_time,
    };
    let second = e.get_settings(&vec![Some(channel(true, 30, 8)), Some(pushed)]);
    assert_eq!(first.telemetry_packet_creation_freq_s, second.telemetry_packet_creation_freq_s);
    assert_eq!(first.m_freq, second.m_freq);
    assert_eq!(first.plant_settings, second.plant_settings);
}
