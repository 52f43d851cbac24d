use flowers::mqtt_convention::{node_boot, node_telemetry, server_boot, settings_override, water};
use flowers::node_config::{NodeConfig, NodeId, TelemetryCapabilities, WaterTankDetection};
use flowers::node_settings::{MeasurementFrequencies, NodeSettings, PlantSettings, MAX_PLANT_CHANNELS};
use flowers::packets::{Packet, PacketHeader, PacketPayload};
use flowers::priority::PriorityPacketWrapper;
use flowers::telemetry::{NodeTelemetry, PlantTelemetry};
use flowers::topic::{chars_of, split_levels, topic_matches};

fn topic_of(f: fn(&mut String, &str), id: &str) -> String {
    let mut s = String::new();
    f(&mut s, id);
    s
}

#[test]
fn node_telemetry_topic() {
    assert_eq!(topic_of(node_telemetry, "pico-1"), "node/pico-1/telemetry");
}

#[test]
fn node_boot_topic() {
    assert_eq!(topic_of(node_boot, "pico-1"), "node/pico-1/boot");
}

#[test]
fn server_boot_topic() {
    let mut s = String::new();
    server_boot(&mut s);
    assert_eq!(s, "server/boot");
}

#[test]
fn settings_override_topic() {
    assert_eq!(topic_of(settings_override, "abc"), "override/abc");
}

#[test]
fn water_topic() {
    assert_eq!(topic_of(water, "abc"), "water/abc");
}

#[test]
fn topics_append_to_buffer() {
    let mut s = String::from("x:");
    node_telemetry(&mut s, "+");
    assert_eq!(s, "x:node/+/telemetry");
}

#[test]
fn split_levels_cases() {
    let levels = split_levels(&chars_of("node/a b/boot"));
    let got: Vec<String> = levels.iter().map(|l| l.iter().collect()).collect();
    assert_eq!(got, vec!["node", "a b", "boot"]);
    let levels = split_levels(&chars_of(""));
    assert_eq!(levels.len(), 1);
    assert!(levels[0].is_empty());
    let levels = split_levels(&chars_of("a/"));
    assert_eq!(levels.len(), 2);
    assert!(levels[1].is_empty());
}

#[test]
fn single_level_wildcard_matches_one_level() {
    assert!(topic_matches("node/+/telemetry", "node/pico-7/telemetry"));
    assert!(!topic_matches("node/+/telemetry", "node/pico-7/boot"));
    assert!(!topic_matches("node/+/telemetry", "node/a/b/telemetry"));
    assert!(!topic_matches("node/+", "node"));
}

#[test]
fn multi_level_wildcard_matches_rest() {
    assert!(topic_matches("#", "anything/at/all"));
    assert!(topic_matches("#", ""));
    assert!(topic_matches("node/#", "node/x/telemetry"));
    assert!(topic_matches("node/#", "node"));
    assert!(!topic_matches("node/#", "server/boot"));
}

#[test]
fn plain_filters_match_only_equal_topics() {
    assert!(topic_matches("server/boot", "server/boot"));
    assert!(!topic_matches("server/boot", "server/boots"));
    assert!(!topic_matches("server/boot", "server"));
    assert!(!topic_matches("server", "server/boot"));
    assert!(topic_matches("", ""));
    assert!(topic_matches("ü/é", "ü/é"));
}

#[test]
fn settings_defaults() {
    let p = PlantSettings::default();
    assert!(!p.enabled);
    assert_eq!(p.moisture_m_freq_s, 600);
    assert_eq!(p.watering_time_s, 5);
    let m = MeasurementFrequencies::default();
    assert_eq!(m.light_intensity_s, 10);
    assert_eq!(m.bmpe_s, 10);
    let s = NodeSettings::default();
    assert_eq!(s.telemetry_packet_creation_freq_s, 10);
    assert_eq!(s.plant_settings.len(), MAX_PLANT_CHANNELS);
    assert!(s.plant_settings.iter().all(|c| *c == p));
    assert_eq!(s.m_freq, m);
}

#[test]
fn node_id_capacity() {
    let id = NodeId::parse("pico-0123456789abcdef").unwrap();
    assert_eq!(id.as_str(), "pico-0123456789abcdef");
    assert!(NodeId::parse(&"x".repeat(32)).is_some());
    assert!(NodeId::parse(&"x".repeat(33)).is_none());
    // 16 two-byte characters fill the 32 bytes
    assert!(NodeId::parse(&"é".repeat(16)).is_some());
    assert!(NodeId::parse(&"é".repeat(17)).is_none());
    assert_eq!(id.duplicate().as_str(), id.as_str());
}

#[test]
fn node_config_new() {
    let caps = TelemetryCapabilities::new(true, false, true, true);
    assert!(caps.temperature && !caps.humidity && caps.pressure && caps.light);
    let cfg = NodeConfig::new(NodeId::parse("n1").unwrap(), 2, WaterTankDetection::LevelDetection, caps);
    assert_eq!(cfg.node_id.as_str(), "n1");
    assert_eq!(cfg.n_plant_channels, 2);
    assert_eq!(cfg.water_tank_detection, WaterTankDetection::LevelDetection);
    assert_eq!(cfg.telemetry, caps);
    let copy = cfg.duplicate();
    assert_eq!(copy.node_id.as_str(), "n1");
    assert_eq!(copy.telemetry, caps);
}

#[test]
fn telemetry_starts_empty() {
    let t = NodeTelemetry::new();
    assert!(t.water_tank_has_water.is_none());
    assert!(t.temperature.is_none());
    assert!(t.light_intensity.is_none());
    assert!(t.plant_telemetry.iter().all(|p| p.is_none()));
    let p = PlantTelemetry::new(1234, 42.5f32.to_bits());
    assert_eq!(p.measurement_stamp, 1234);
    assert_eq!(f32::from_bits(p.soil_moisture), 42.5);
}

#[test]
fn packet_new_sets_header() {
    let h = PacketHeader::new(77);
    assert_eq!(h.uptime_ms, 77);
    let p = Packet::new(99, PacketPayload::ServerBoot);
    assert_eq!(p.header.uptime_ms, 99);
    assert!(matches!(p.payload, PacketPayload::ServerBoot));
}

fn wrap(payload: PacketPayload) -> PriorityPacketWrapper {
    PriorityPacketWrapper(Packet::new(0, payload))
}

fn boot_payload() -> PacketPayload {
    PacketPayload::NodeBoot(NodeConfig::new(
        NodeId::parse("n").unwrap(),
        1,
        WaterTankDetection::NoTelemetry,
        TelemetryCapabilities::new(false, false, false, false),
    ))
}

#[test]
fn packet_priorities() {
    let boot = wrap(boot_payload());
    let tele = wrap(PacketPayload::Telemetry(NodeTelemetry::new()));
    let other = wrap(PacketPayload::ServerBoot);
    assert_eq!(boot.priority(), 2);
    assert_eq!(tele.priority(), 1);
    assert_eq!(other.priority(), 0);
    assert_eq!(wrap(PacketPayload::Water(1)).priority(), 0);
    assert_eq!(boot.cmp(&tele), std::cmp::Ordering::Greater);
    assert_eq!(tele.cmp(&other), std::cmp::Ordering::Greater);
    assert_eq!(other.cmp(&boot), std::cmp::Ordering::Less);
    assert!(boot > tele);
    assert!(tele > other);
    assert!(other == wrap(PacketPayload::Water(3)));
    assert!(boot != tele);
    assert_eq!(boot.partial_cmp(&boot), Some(std::cmp::Ordering::Equal));
}
