use flowers::network::{
    auto_reconnect, dispatch, moisture_schedule, mqtt_start, mqtt_task, next_cooldown,
    outgoing_kind, outgoing_topic, push_boot, OutgoingKind, TCP_RETRY_MS, status_after_send, topics, track, watering_duration, IncomingAction, LedMode,
    MqttAction, MqttEvent, MqttState, NetworkStatus, ReconnectAction, ReconnectEvent,
    ReconnectState,
};
use flowers::node_config::{NodeConfig, NodeId, TelemetryCapabilities, WaterTankDetection};
use flowers::node_settings::NodeSettings;
use flowers::packets::{Packet, PacketPayload};
use flowers::telemetry::NodeTelemetry;

#[test]
fn led_signals() {
    assert_eq!(track(NetworkStatus::Disconnected), LedMode::Blink);
    assert_eq!(track(NetworkStatus::HostNotFound), LedMode::On);
    assert_eq!(track(NetworkStatus::Connected), LedMode::Off);
}

#[test]
fn cooldown_doubles_up_to_thirty_seconds() {
    assert_eq!(next_cooldown(1000), 2000);
    assert_eq!(next_cooldown(8000), 16000);
    assert_eq!(next_cooldown(16000), 30000);
    assert_eq!(next_cooldown(30000), 30000);
}

#[test]
fn reconnect_sequence() {
    let s = ReconnectState::Watching;
    let (s, a) = auto_reconnect(s, ReconnectEvent::StatusChanged(NetworkStatus::Connected));
    assert_eq!((s, a), (ReconnectState::Watching, ReconnectAction::WaitForStatus));
    let (s, a) = auto_reconnect(s, ReconnectEvent::StatusChanged(NetworkStatus::HostNotFound));
    assert_eq!((s, a), (ReconnectState::Retrying { cooldown_ms: 1000 }, ReconnectAction::Reconnect));
    let mut state = s;
    let mut pauses = Vec::new();
    for _ in 0..7 {
        let (s, a) = auto_reconnect(state, ReconnectEvent::Attempted(false));
        if let ReconnectAction::Pause(ms) = a {
            pauses.push(ms);
        }
        let (s, a) = auto_reconnect(s, ReconnectEvent::CooldownElapsed);
        assert_eq!(a, ReconnectAction::Reconnect);
        state = s;
    }
    assert_eq!(pauses, vec![1000, 2000, 4000, 8000, 16000, 30000, 30000]);
    let (s, a) = auto_reconnect(state, ReconnectEvent::StatusChanged(NetworkStatus::HostNotFound));
    assert_eq!((s, a), (state, ReconnectAction::Reconnect));
    let (s, a) = auto_reconnect(s, ReconnectEvent::Attempted(true));
    assert_eq!((s, a), (ReconnectState::Watching, ReconnectAction::PublishConnected));
    let retrying = ReconnectState::Retrying { cooldown_ms: 4000 };
    let (s, a) = auto_reconnect(retrying, ReconnectEvent::StatusChanged(NetworkStatus::Disconnected));
    assert_eq!((s, a), (ReconnectState::Watching, ReconnectAction::WaitForStatus));
}

#[test]
fn status_after_sending() {
    assert_eq!(status_after_send(true, NetworkStatus::HostNotFound), Some(NetworkStatus::Connected));
    assert_eq!(status_after_send(true, NetworkStatus::Connected), None);
    assert_eq!(status_after_send(false, NetworkStatus::Connected), Some(NetworkStatus::HostNotFound));
}

fn config() -> NodeConfig {
    NodeConfig::new(
        NodeId::parse("pico-1").unwrap(),
        2,
        WaterTankDetection::LevelDetection,
        TelemetryCapabilities::new(true, false, true, true),
    )
}

#[test]
fn outgoing_topics_by_payload() {
    let t = PacketPayload::Telemetry(NodeTelemetry::new());
    assert_eq!(outgoing_topic(&t, "pico-1").as_deref(), Some("node/pico-1/telemetry"));
    let b = PacketPayload::NodeBoot(config());
    assert_eq!(outgoing_topic(&b, "pico-1").as_deref(), Some("node/pico-1/boot"));
    assert_eq!(outgoing_topic(&PacketPayload::ServerBoot, "pico-1"), None);
}

#[test]
fn subscription_topics() {
    assert_eq!(topics("pico-1"), vec!["server/boot", "override/pico-1", "water/pico-1"]);
}

#[test]
fn incoming_packets() {
    assert!(matches!(dispatch(Packet::new(0, PacketPayload::ServerBoot)), IncomingAction::PushBoot));
    let mut s = NodeSettings::default();
    s.telemetry_packet_creation_freq_s = 42;
    match dispatch(Packet::new(0, PacketPayload::SettingsOverride(s))) {
        IncomingAction::OverrideSettings(n) => assert_eq!(n.telemetry_packet_creation_freq_s, 42),
        _ => panic!("wrong action"),
    }
    assert!(matches!(dispatch(Packet::new(0, PacketPayload::Water(1))), IncomingAction::Water(1)));
    assert!(matches!(dispatch(Packet::new(0, PacketPayload::Water(8))), IncomingAction::InvalidChannel(8)));
    assert!(matches!(
        dispatch(Packet::new(0, PacketPayload::Telemetry(NodeTelemetry::new()))),
        IncomingAction::Unknown
    ));
}

#[test]
fn boot_packet() {
    let p = push_boot(1234, &config());
    assert_eq!(p.header.uptime_ms, 1234);
    match p.payload {
        PacketPayload::NodeBoot(c) => {
            assert_eq!(c.node_id.as_str(), "pico-1");
            assert_eq!(c.n_plant_channels, 2);
        }
        _ => panic!("wrong payload"),
    }
}

#[test]
fn mqtt_connection_cycle() {
    let id = "pico-1";
    let (s, a) = mqtt_start();
    assert_eq!((s, &a), (MqttState::Connecting, &MqttAction::QueueBoot));
    assert_eq!(a.announcement(), None);
    let (s, a) = mqtt_task(s, MqttEvent::BootQueued, id);
    assert_eq!((s, &a), (MqttState::Connecting, &MqttAction::Connect));
    assert_eq!(a.announcement(), Some(NetworkStatus::HostNotFound));
    assert_eq!(a.pause_ms(), 0);
    let (s, a) = mqtt_task(s, MqttEvent::TcpConnected(false), id);
    assert_eq!((s, &a), (MqttState::Connecting, &MqttAction::RetryLater));
    assert_eq!(a.announcement(), Some(NetworkStatus::HostNotFound));
    assert_eq!(a.pause_ms(), 2000);
    assert_eq!(TCP_RETRY_MS, 2000);
    let (s, a) = mqtt_task(s, MqttEvent::TcpConnected(true), id);
    assert_eq!((s, a), (MqttState::Handshaking, MqttAction::Handshake));
    let (s, a) = mqtt_task(s, MqttEvent::SessionConnected(true), id);
    assert_eq!((s, &a), (MqttState::Subscribing, &MqttAction::Subscribe));
    assert_eq!(a.announcement(), Some(NetworkStatus::Connected));
    let (s, a) = mqtt_task(s, MqttEvent::Subscribed(true), id);
    assert_eq!((s, a), (MqttState::Online, MqttAction::Serve));
    let (s, a) = mqtt_task(s, MqttEvent::Dequeued(OutgoingKind::Telemetry), id);
    assert_eq!((s, a), (MqttState::Online, MqttAction::Publish("node/pico-1/telemetry".to_string())));
    let (s, a) = mqtt_task(s, MqttEvent::Published(true), id);
    assert_eq!((s, a), (MqttState::Online, MqttAction::Serve));
    let (s, a) = mqtt_task(s, MqttEvent::Dequeued(OutgoingKind::NodeBoot), id);
    assert_eq!((s, a), (MqttState::Online, MqttAction::Publish("node/pico-1/boot".to_string())));
    let (s, a) = mqtt_task(s, MqttEvent::SerializeFailed, id);
    assert_eq!((s, a), (MqttState::Online, MqttAction::Serve));
    let (s, a) = mqtt_task(s, MqttEvent::PollFailed, id);
    assert_eq!((s, a), (MqttState::Connecting, MqttAction::Connect));
    assert_eq!(mqtt_task(MqttState::Handshaking, MqttEvent::SessionConnected(false), id), (MqttState::Connecting, MqttAction::Connect));
    assert_eq!(mqtt_task(MqttState::Subscribing, MqttEvent::Subscribed(false), id), (MqttState::Connecting, MqttAction::Connect));
    assert_eq!(mqtt_task(MqttState::Online, MqttEvent::Published(false), id), (MqttState::Connecting, MqttAction::Connect));
}

#[test]
fn outgoing_kinds() {
    assert_eq!(outgoing_kind(&PacketPayload::Telemetry(NodeTelemetry::new())), Some(OutgoingKind::Telemetry));
    assert_eq!(outgoing_kind(&PacketPayload::ServerBoot), None);
    assert_eq!(outgoing_kind(&PacketPayload::Water(1)), None);
}

#[test]
fn plant_channel_schedules() {
    let mut s = NodeSettings::default();
    assert_eq!(moisture_schedule(&s, 0), None);
    assert_eq!(watering_duration(&s, 0), None);
    s.plant_settings[0].enabled = true;
    s.plant_settings[0].watering_time_s = 12;
    assert_eq!(moisture_schedule(&s, 0), Some(600));
    assert_eq!(watering_duration(&s, 0), Some(12));
    assert_eq!(moisture_schedule(&s, 1), None);
}
