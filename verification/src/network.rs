//! The node's network decisions: what the status LED shows, when and how
//! often to reconnect to the server, which topic a packet goes to, and what
//! an incoming packet asks the node to do.

use vstd::prelude::*;

use crate::mqtt_convention::{
    node_boot, node_telemetry, server_boot, settings_override, spec_node_boot,
    spec_node_telemetry, spec_server_boot, spec_settings_override, spec_water, water,
};
use crate::node_config::NodeConfig;
use crate::node_settings::{MAX_PLANT_CHANNELS, NodeSettings};
use crate::packets::{Packet, PacketPayload};

verus! {

/// Enum with all possible network statuses.
#[derive(Clone, Copy, Debug, PartialEq, Eq, Structural)]
pub enum NetworkStatus {
    /// Completely disconnected from Wi-Fi (default state on boot).
    /// Indicated by the blinking LED.
    Disconnected,
    /// Connected to the network, but could not locate the backend host.
    /// Indicated by the shining LED.
    HostNotFound,
    /// Successfully connected to host.
    /// Indicated by turned off LED.
    Connected,
}

/// What the status LED does.
#[derive(Clone, Copy, Debug, PartialEq, Eq, Structural)]
pub enum LedMode {
    /// Blink: low and high for 500 ms each, until the status changes.
    Blink,
    /// Shine.
    On,
    /// Stay dark.
    Off,
}

/// The LED signal of each network status (the network tracking task).
pub fn track(status: NetworkStatus) -> (res: LedMode)
    ensures
        status == NetworkStatus::Disconnected ==> res == LedMode::Blink,
        status == NetworkStatus::HostNotFound ==> res == LedMode::On,
        status == NetworkStatus::Connected ==> res == LedMode::Off,
{
    match status {
        NetworkStatus::Disconnected => LedMode::Blink,
        NetworkStatus::HostNotFound => LedMode::On,
        NetworkStatus::Connected => LedMode::Off,
    }
}

/// The first pause between two reconnection attempts, in milliseconds.
pub const RECONNECT_COOLDOWN_START_MS: u64 = 1000;

/// The longest pause between two reconnection attempts, in milliseconds.
pub const RECONNECT_COOLDOWN_MAX_MS: u64 = 30000;

/// The pause that follows an elapsed pause: twice as long, capped.
pub open spec fn spec_next_cooldown(cooldown_ms: u64) -> u64 {
    if cooldown_ms * 2 < RECONNECT_COOLDOWN_MAX_MS {
        (cooldown_ms * 2) as u64
    } else {
        RECONNECT_COOLDOWN_MAX_MS
    }
}

/// The pause that follows an elapsed pause: twice as long, at most 30 s.
pub fn next_cooldown(cooldown_ms: u64) -> (res: u64)
    requires
        cooldown_ms <= u64::MAX / 2,
    ensures
        res == spec_next_cooldown(cooldown_ms),
{
    let doubled = cooldown_ms * 2;
    if doubled < RECONNECT_COOLDOWN_MAX_MS {
        doubled
    } else {
        RECONNECT_COOLDOWN_MAX_MS
    }
}

/// Where the reconnecting task stands.
#[derive(Clone, Copy, Debug, PartialEq, Eq, Structural)]
pub enum ReconnectState {
    /// Waiting for the network status to become `HostNotFound`.
    Watching,
    /// Trying to reach the server, pausing `cooldown_ms` after a failure.
    Retrying { cooldown_ms: u64 },
}

/// What happened to the reconnecting task.
#[derive(Clone, Copy, Debug, PartialEq, Eq, Structural)]
pub enum ReconnectEvent {
    /// The network status changed to the given one.
    StatusChanged(NetworkStatus),
    /// A reconnection attempt ended, successfully or not.
    Attempted(bool),
    /// The pause after a failed attempt elapsed.
    CooldownElapsed,
}

/// What the reconnecting task does next.
#[derive(Clone, Copy, Debug, PartialEq, Eq, Structural)]
pub enum ReconnectAction {
    /// Wait for the next status change.
    WaitForStatus,
    /// Try to reconnect to the server.
    Reconnect,
    /// Announce the `Connected` status, then wait for the next status change.
    PublishConnected,
    /// Wait for the given pause to elapse or for the status to change.
    Pause(u64),
}

/// The reconnecting task's cooldown stays between 1 s and 30 s.
pub open spec fn reconnect_state_valid(state: ReconnectState) -> bool {
    match state {
        ReconnectState::Watching => true,
        ReconnectState::Retrying { cooldown_ms } => RECONNECT_COOLDOWN_START_MS <= cooldown_ms
            <= RECONNECT_COOLDOWN_MAX_MS,
    }
}

/// The reconnecting task's transitions: it starts with a pause of 1 s,
/// doubles the pause each time one elapses (up to 30 s), retries at once if
/// `HostNotFound` is announced again, and gives up when another status is
/// announced or the server is reached.
pub open spec fn spec_reconnect_step(state: ReconnectState, event: ReconnectEvent) -> (
    ReconnectState,
    ReconnectAction,
) {
    match (state, event) {
        (ReconnectState::Watching, ReconnectEvent::StatusChanged(s)) => if s
            == NetworkStatus::HostNotFound {
            (
                ReconnectState::Retrying { cooldown_ms: RECONNECT_COOLDOWN_START_MS },
                ReconnectAction::Reconnect,
            )
        } else {
            (ReconnectState::Watching, ReconnectAction::WaitForStatus)
        },
        (ReconnectState::Watching, _) => (ReconnectState::Watching, ReconnectAction::WaitForStatus),
        (ReconnectState::Retrying { cooldown_ms }, ReconnectEvent::Attempted(ok)) => if ok {
            (ReconnectState::Watching, ReconnectAction::PublishConnected)
        } else {
            (state, ReconnectAction::Pause(cooldown_ms))
        },
        (ReconnectState::Retrying { cooldown_ms }, ReconnectEvent::CooldownElapsed) => (
            ReconnectState::Retrying { cooldown_ms: spec_next_cooldown(cooldown_ms) },
            ReconnectAction::Reconnect,
        ),
        (ReconnectState::Retrying { cooldown_ms }, ReconnectEvent::StatusChanged(s)) => if s
            == NetworkStatus::HostNotFound {
            (state, ReconnectAction::Reconnect)
        } else {
            (ReconnectState::Watching, ReconnectAction::WaitForStatus)
        },
    }
}

/// One step of the task that constantly tries reconnecting to the server
/// while the host is not found.
pub fn auto_reconnect(state: ReconnectState, event: ReconnectEvent) -> (res: (
    ReconnectState,
    ReconnectAction,
))
    requires
        reconnect_state_valid(state),
    ensures
        res == spec_reconnect_step(state, event),
{
    match state {
        ReconnectState::Watching => match event {
            ReconnectEvent::StatusChanged(NetworkStatus::HostNotFound) => (
                ReconnectState::Retrying { cooldown_ms: RECONNECT_COOLDOWN_START_MS },
                ReconnectAction::Reconnect,
            ),
            _ => (ReconnectState::Watching, ReconnectAction::WaitForStatus),
        },
        ReconnectState::Retrying { cooldown_ms } => match event {
            ReconnectEvent::Attempted(true) => (
                ReconnectState::Watching,
                ReconnectAction::PublishConnected,
            ),
            ReconnectEvent::Attempted(false) => (state, ReconnectAction::Pause(cooldown_ms)),
            ReconnectEvent::CooldownElapsed => (
                ReconnectState::Retrying { cooldown_ms: next_cooldown(cooldown_ms) },
                ReconnectAction::Reconnect,
            ),
            ReconnectEvent::StatusChanged(NetworkStatus::HostNotFound) => (
                state,
                ReconnectAction::Reconnect,
            ),
            ReconnectEvent::StatusChanged(_) => (
                ReconnectState::Watching,
                ReconnectAction::WaitForStatus,
            ),
        },
    }
}

/// The status to announce after trying to send a packet, if it changes:
/// `Connected` after a success (unless already announced), `HostNotFound`
/// after a failure.
pub fn status_after_send(sent: bool, current: NetworkStatus) -> (res: Option<NetworkStatus>)
    ensures
        sent && current != NetworkStatus::Connected ==> res == Some(NetworkStatus::Connected),
        sent && current == NetworkStatus::Connected ==> res == None::<NetworkStatus>,
        !sent ==> res == Some(NetworkStatus::HostNotFound),
{
    if sent {
        if current != NetworkStatus::Connected {
            Some(NetworkStatus::Connected)
        } else {
            None
        }
    } else {
        Some(NetworkStatus::HostNotFound)
    }
}

/// The topic on which the node publishes an outgoing packet: telemetry and
/// boot packets go to the node's topics; the node sends no other packet.
pub fn outgoing_topic(payload: &PacketPayload, client_id: &str) -> (res: Option<String>)
    ensures
        payload is Telemetry ==> (res matches Some(t) && t@ == spec_node_telemetry(client_id@)),
        payload is NodeBoot ==> (res matches Some(t) && t@ == spec_node_boot(client_id@)),
        !(payload is Telemetry) && !(payload is NodeBoot) ==> res is None,
{
    let mut topic = String::new();
    match payload {
        PacketPayload::Telemetry(_) => {
            node_telemetry(&mut topic, client_id);
            Some(topic)
        },
        PacketPayload::NodeBoot(_) => {
            node_boot(&mut topic, client_id);
            Some(topic)
        },
        _ => None,
    }
}

/// The topics the node subscribes to: the server's boot announcement, and
/// the settings overrides and watering orders addressed to the node.
pub fn topics(node_id: &str) -> (res: Vec<String>)
    ensures
        res@.len() == 3,
        res@[0]@ == spec_server_boot(),
        res@[1]@ == spec_settings_override(node_id@),
        res@[2]@ == spec_water(node_id@),
{
    let mut boot = String::new();
    server_boot(&mut boot);
    let mut over = String::new();
    settings_override(&mut over, node_id);
    let mut wat = String::new();
    water(&mut wat, node_id);
    let mut res: Vec<String> = Vec::new();
    res.push(boot);
    res.push(over);
    res.push(wat);
    res
}

/// What an incoming packet asks the node to do.
#[derive(Debug)]
pub enum IncomingAction {
    /// Announce the node's boot again (the server has booted).
    PushBoot,
    /// Adopt new settings.
    OverrideSettings(NodeSettings),
    /// Water the plant on the given channel.
    Water(usize),
    /// A watering order for a channel the node cannot have.
    InvalidChannel(u8),
    /// A packet the node does not handle.
    Unknown,
}

/// Match an incoming packet to its handler.
pub fn dispatch(packet: Packet) -> (res: IncomingAction)
    ensures
        packet.payload is ServerBoot ==> res is PushBoot,
        packet.payload matches PacketPayload::SettingsOverride(s) ==> res
            == IncomingAction::OverrideSettings(s),
        packet.payload matches PacketPayload::Water(c) ==> (if c < MAX_PLANT_CHANNELS {
            res == IncomingAction::Water(c as usize)
        } else {
            res == IncomingAction::InvalidChannel(c)
        }),
        packet.payload is Telemetry || packet.payload is NodeBoot ==> res is Unknown,
{
    match packet.payload {
        PacketPayload::ServerBoot => IncomingAction::PushBoot,
        PacketPayload::SettingsOverride(new) => IncomingAction::OverrideSettings(new),
        PacketPayload::Water(channel) => {
            if (channel as usize) < MAX_PLANT_CHANNELS {
                IncomingAction::Water(channel as usize)
            } else {
                IncomingAction::InvalidChannel(channel)
            }
        },
        _ => IncomingAction::Unknown,
    }
}

/// A node boot packet with the node's configuration, stamped with its uptime.
pub fn push_boot(uptime_ms: u64, config: &NodeConfig) -> (res: Packet)
    ensures
        res.header.uptime_ms == uptime_ms,
        res.payload matches PacketPayload::NodeBoot(c) && c.node_id@ == config.node_id@
            && c.n_plant_channels == config.n_plant_channels && c.water_tank_detection
            == config.water_tank_detection && c.telemetry == config.telemetry,
{
    Packet::new(uptime_ms, PacketPayload::NodeBoot(config.duplicate()))
}

/// Where the MQTT task stands with the server.
#[derive(Clone, Copy, Debug, PartialEq, Eq, Structural)]
pub enum MqttState {
    /// Opening the TCP connection to the broker.
    Connecting,
    /// Performing the MQTT handshake over an open connection.
    Handshaking,
    /// Subscribing to the node's topics.
    Subscribing,
    /// Polling for incoming packets and publishing queued ones.
    Online,
}

/// The kinds of packet that the node publishes.
#[derive(Clone, Copy, Debug, PartialEq, Eq, Structural)]
pub enum OutgoingKind {
    Telemetry,
    NodeBoot,
}

/// The kind of an outgoing packet: the node publishes only telemetry and
/// boot packets.
pub fn outgoing_kind(payload: &PacketPayload) -> (res: Option<OutgoingKind>)
    ensures
        payload is Telemetry ==> res == Some(OutgoingKind::Telemetry),
        payload is NodeBoot ==> res == Some(OutgoingKind::NodeBoot),
        !(payload is Telemetry) && !(payload is NodeBoot) ==> res is None,
{
    match payload {
        PacketPayload::Telemetry(_) => Some(OutgoingKind::Telemetry),
        PacketPayload::NodeBoot(_) => Some(OutgoingKind::NodeBoot),
        _ => None,
    }
}

/// The topic on which the node `client_id` publishes a packet of the kind.
pub open spec fn spec_kind_topic(kind: OutgoingKind, client_id: Seq<char>) -> Seq<char> {
    match kind {
        OutgoingKind::Telemetry => spec_node_telemetry(client_id),
        OutgoingKind::NodeBoot => spec_node_boot(client_id),
    }
}

/// What happened to the MQTT task.
#[derive(Clone, Copy, Debug, PartialEq, Eq, Structural)]
pub enum MqttEvent {
    /// The node's boot packet was queued.
    BootQueued,
    /// The TCP connection attempt ended, successfully or not.
    TcpConnected(bool),
    /// The MQTT handshake ended, successfully or not.
    SessionConnected(bool),
    /// The subscription ended, successfully or not.
    Subscribed(bool),
    /// Polling the connection failed.
    PollFailed,
    /// Polling found nothing, or an incoming packet was handled.
    Polled,
    /// A queued packet of the given kind was taken and serialized.
    Dequeued(OutgoingKind),
    /// A queued packet was taken but could not be serialized; it is dropped.
    SerializeFailed,
    /// Publishing a queued packet ended, successfully or not.
    Published(bool),
}

/// What the MQTT task does next.
#[derive(Debug, PartialEq, Eq)]
pub enum MqttAction {
    /// Queue the node's boot packet.
    QueueBoot,
    /// Open a TCP connection.
    Connect,
    /// Pause, then open a TCP connection.
    RetryLater,
    /// Perform the MQTT handshake.
    Handshake,
    /// Subscribe to the node's topics.
    Subscribe,
    /// Poll the connection and take queued packets.
    Serve,
    /// Publish the serialized packet, at most once, on the topic.
    Publish(String),
}

/// What the MQTT task does next, with the topic of a publication as its
/// characters.
pub enum MqttStep {
    QueueBoot,
    Connect,
    RetryLater,
    Handshake,
    Subscribe,
    Serve,
    Publish(Seq<char>),
}

impl View for MqttAction {
    type V = MqttStep;

    open spec fn view(&self) -> MqttStep {
        match self {
            MqttAction::QueueBoot => MqttStep::QueueBoot,
            MqttAction::Connect => MqttStep::Connect,
            MqttAction::RetryLater => MqttStep::RetryLater,
            MqttAction::Handshake => MqttStep::Handshake,
            MqttAction::Subscribe => MqttStep::Subscribe,
            MqttAction::Serve => MqttStep::Serve,
            MqttAction::Publish(topic) => MqttStep::Publish(topic@),
        }
    }
}

/// The pause before a new TCP connection attempt, in milliseconds.
pub const TCP_RETRY_MS: u64 = 2000;

/// The network status that the task announces before acting: `HostNotFound`
/// before every TCP connection attempt, `Connected` once the handshake
/// succeeded (before subscribing).
pub open spec fn spec_announcement(step: MqttStep) -> Option<NetworkStatus> {
    match step {
        MqttStep::Connect | MqttStep::RetryLater => Some(NetworkStatus::HostNotFound),
        MqttStep::Subscribe => Some(NetworkStatus::Connected),
        _ => None,
    }
}

/// The pause before the task acts, in milliseconds: 2 s before a TCP
/// connection attempt that follows a failed one.
pub open spec fn spec_pause_ms(step: MqttStep) -> u64 {
    match step {
        MqttStep::RetryLater => TCP_RETRY_MS,
        _ => 0,
    }
}

impl MqttAction {
    /// The network status to announce before acting (after the pause).
    pub fn announcement(&self) -> (res: Option<NetworkStatus>)
        ensures
            res == spec_announcement(self@),
    {
        match self {
            MqttAction::Connect | MqttAction::RetryLater => Some(NetworkStatus::HostNotFound),
            MqttAction::Subscribe => Some(NetworkStatus::Connected),
            _ => None,
        }
    }

    /// The pause before acting, in milliseconds.
    pub fn pause_ms(&self) -> (res: u64)
        ensures
            res == spec_pause_ms(self@),
    {
        match self {
            MqttAction::RetryLater => TCP_RETRY_MS,
            _ => 0,
        }
    }
}

/// The MQTT task's transitions for the node `client_id`: it connects once
/// its boot packet is queued, reconnects from scratch after any failure
/// (pausing only after a failed TCP connection), goes online once the
/// handshake and the subscription succeeded, publishes each packet it takes
/// on the node's topic for that kind of packet, and stays online when a
/// packet cannot be serialized.
pub open spec fn spec_mqtt_step(state: MqttState, event: MqttEvent, client_id: Seq<char>) -> (
    MqttState,
    MqttStep,
) {
    match (state, event) {
        (MqttState::Connecting, MqttEvent::BootQueued) => (MqttState::Connecting, MqttStep::Connect),
        (MqttState::Connecting, MqttEvent::TcpConnected(true)) => (
            MqttState::Handshaking,
            MqttStep::Handshake,
        ),
        (MqttState::Connecting, MqttEvent::TcpConnected(false)) => (
            MqttState::Connecting,
            MqttStep::RetryLater,
        ),
        (MqttState::Handshaking, MqttEvent::SessionConnected(true)) => (
            MqttState::Subscribing,
            MqttStep::Subscribe,
        ),
        (MqttState::Subscribing, MqttEvent::Subscribed(true)) => (MqttState::Online, MqttStep::Serve),
        (MqttState::Online, MqttEvent::Polled) => (MqttState::Online, MqttStep::Serve),
        (MqttState::Online, MqttEvent::Dequeued(kind)) => (
            MqttState::Online,
            MqttStep::Publish(spec_kind_topic(kind, client_id)),
        ),
        (MqttState::Online, MqttEvent::SerializeFailed) => (MqttState::Online, MqttStep::Serve),
        (MqttState::Online, MqttEvent::Published(true)) => (MqttState::Online, MqttStep::Serve),
        _ => (MqttState::Connecting, MqttStep::Connect),
    }
}

/// The MQTT task's first step: it queues the node's boot packet before
/// anything else, and then connects.
pub fn mqtt_start() -> (res: (MqttState, MqttAction))
    ensures
        res.0 == MqttState::Connecting,
        res.1@ == MqttStep::QueueBoot,
{
    (MqttState::Connecting, MqttAction::QueueBoot)
}

/// One step of the MQTT task of the node `client_id`.
pub fn mqtt_task(state: MqttState, event: MqttEvent, client_id: &str) -> (res: (MqttState, MqttAction))
    ensures
        res.0 == spec_mqtt_step(state, event, client_id@).0,
        res.1@ == spec_mqtt_step(state, event, client_id@).1,
{
    match (state, event) {
        (MqttState::Connecting, MqttEvent::BootQueued) => (MqttState::Connecting, MqttAction::Connect),
        (MqttState::Connecting, MqttEvent::TcpConnected(true)) => (
            MqttState::Handshaking,
            MqttAction::Handshake,
        ),
        (MqttState::Connecting, MqttEvent::TcpConnected(false)) => (
            MqttState::Connecting,
            MqttAction::RetryLater,
        ),
        (MqttState::Handshaking, MqttEvent::SessionConnected(true)) => (
            MqttState::Subscribing,
            MqttAction::Subscribe,
        ),
        (MqttState::Subscribing, MqttEvent::Subscribed(true)) => (
            MqttState::Online,
            MqttAction::Serve,
        ),
        (MqttState::Online, MqttEvent::Polled) => (MqttState::Online, MqttAction::Serve),
        (MqttState::Online, MqttEvent::Dequeued(kind)) => {
            let mut topic = String::new();
            match kind {
                OutgoingKind::Telemetry => node_telemetry(&mut topic, client_id),
                OutgoingKind::NodeBoot => node_boot(&mut topic, client_id),
            }
            (MqttState::Online, MqttAction::Publish(topic))
        },
        (MqttState::Online, MqttEvent::SerializeFailed) => (MqttState::Online, MqttAction::Serve),
        (MqttState::Online, MqttEvent::Published(true)) => (MqttState::Online, MqttAction::Serve),
        _ => (MqttState::Connecting, MqttAction::Connect),
    }
}

/// The node announces `Connected` only on a successful handshake, and every
/// failure sends it back to connecting.
pub proof fn law_mqtt_connected_only_after_handshake(
    state: MqttState,
    event: MqttEvent,
    client_id: Seq<char>,
)
    ensures
        spec_announcement(spec_mqtt_step(state, event, client_id).1) == Some(NetworkStatus::Connected)
            <==> (state == MqttState::Handshaking && event == MqttEvent::SessionConnected(true)),
        (event == MqttEvent::TcpConnected(false) || event == MqttEvent::SessionConnected(false)
            || event == MqttEvent::Subscribed(false) || event == MqttEvent::PollFailed || event
            == MqttEvent::Published(false)) ==> spec_mqtt_step(state, event, client_id).0
            == MqttState::Connecting,
{
}

/// Every TCP connection attempt is preceded by the `HostNotFound`
/// announcement, and only an attempt that follows a failed one waits, 2 s.
pub proof fn law_mqtt_connect_announces_host_not_found(
    state: MqttState,
    event: MqttEvent,
    client_id: Seq<char>,
)
    ensures
        ({
            let step = spec_mqtt_step(state, event, client_id).1;
            (step is Connect || step is RetryLater) ==> spec_announcement(step) == Some(
                NetworkStatus::HostNotFound,
            )
        }),
        spec_pause_ms(spec_mqtt_step(state, event, client_id).1) == (if state
            == MqttState::Connecting && event == MqttEvent::TcpConnected(false) {
            TCP_RETRY_MS
        } else {
            0
        }),
{
}

/// Online, a packet taken from the queue is published on the node's topic
/// for its kind (telemetry on `node/<id>/telemetry`, the boot packet on
/// `node/<id>/boot`), and a packet that cannot be serialized leaves the task
/// online; nothing else is published.
pub proof fn law_mqtt_publishes_on_node_topic(
    state: MqttState,
    event: MqttEvent,
    client_id: Seq<char>,
)
    ensures
        state == MqttState::Online && event == MqttEvent::Dequeued(OutgoingKind::Telemetry)
            ==> spec_mqtt_step(state, event, client_id) == (
            MqttState::Online,
            MqttStep::Publish(spec_node_telemetry(client_id)),
        ),
        state == MqttState::Online && event == MqttEvent::Dequeued(OutgoingKind::NodeBoot)
            ==> spec_mqtt_step(state, event, client_id) == (
            MqttState::Online,
            MqttStep::Publish(spec_node_boot(client_id)),
        ),
        state == MqttState::Online && event == MqttEvent::SerializeFailed ==> spec_mqtt_step(
            state,
            event,
            client_id,
        ) == (MqttState::Online, MqttStep::Serve),
        spec_mqtt_step(state, event, client_id).1 is Publish ==> state == MqttState::Online
            && event is Dequeued,
{
}

/// Online, the task stays online and keeps serving after a successful poll,
/// a successful publication or a packet it could not serialize, and goes on
/// to publish a packet it took; only a failed poll or a failed publication
/// (or an event that cannot come online) sends it back to connecting, with
/// the `HostNotFound` announcement.
pub proof fn law_mqtt_online_keeps_serving(event: MqttEvent, client_id: Seq<char>)
    ensures
        spec_mqtt_step(MqttState::Online, MqttEvent::Polled, client_id) == (
            MqttState::Online,
            MqttStep::Serve,
        ),
        spec_mqtt_step(MqttState::Online, MqttEvent::Published(true), client_id) == (
            MqttState::Online,
            MqttStep::Serve,
        ),
        spec_mqtt_step(MqttState::Online, MqttEvent::SerializeFailed, client_id) == (
            MqttState::Online,
            MqttStep::Serve,
        ),
        event is Dequeued ==> spec_mqtt_step(MqttState::Online, event, client_id).0
            == MqttState::Online && spec_mqtt_step(MqttState::Online, event, client_id).1 is Publish,
        spec_mqtt_step(MqttState::Online, event, client_id).0 != MqttState::Online <==> !(event
            is Polled || event is SerializeFailed || event is Dequeued || event
            == MqttEvent::Published(true)),
        spec_mqtt_step(MqttState::Online, event, client_id).0 != MqttState::Online ==> spec_announcement(
            spec_mqtt_step(MqttState::Online, event, client_id).1,
        ) == Some(NetworkStatus::HostNotFound),
{
}

/// While retrying, an announced status other than `HostNotFound` ends the
/// retries (the task goes back to watching), whatever the pause; a new
/// `HostNotFound` makes it retry at once, keeping its pause.
pub proof fn law_reconnect_other_status_ends_retries(cooldown_ms: u64, status: NetworkStatus)
    ensures
        status != NetworkStatus::HostNotFound ==> spec_reconnect_step(
            ReconnectState::Retrying { cooldown_ms },
            ReconnectEvent::StatusChanged(status),
        ) == (ReconnectState::Watching, ReconnectAction::WaitForStatus),
        status == NetworkStatus::HostNotFound ==> spec_reconnect_step(
            ReconnectState::Retrying { cooldown_ms },
            ReconnectEvent::StatusChanged(status),
        ) == (ReconnectState::Retrying { cooldown_ms }, ReconnectAction::Reconnect),
{
}

/// The pause of the reconnecting task never leaves [1 s, 30 s], whatever
/// happens.
pub proof fn law_reconnect_cooldown_bounded(state: ReconnectState, event: ReconnectEvent)
    requires
        reconnect_state_valid(state),
    ensures
        reconnect_state_valid(spec_reconnect_step(state, event).0),
        spec_reconnect_step(state, event).1 matches ReconnectAction::Pause(ms) ==> RECONNECT_COOLDOWN_START_MS
            <= ms <= RECONNECT_COOLDOWN_MAX_MS,
{
}

/// A successful reconnection always announces `Connected`.
pub proof fn law_reconnect_success_announced(state: ReconnectState)
    requires
        state is Retrying,
    ensures
        spec_reconnect_step(state, ReconnectEvent::Attempted(true)) == (
            ReconnectState::Watching,
            ReconnectAction::PublishConnected,
        ),
{
}

/// What a plant channel does under the given settings: `None` while the
/// channel is disabled (it waits for new settings), or the seconds to wait
/// between soil moisture measurements.
pub fn moisture_schedule(settings: &NodeSettings, idx: usize) -> (res: Option<u16>)
    requires
        idx < MAX_PLANT_CHANNELS,
    ensures
        !settings.plant_settings[idx as int].enabled ==> res is None,
        settings.plant_settings[idx as int].enabled ==> res == Some(
            settings.plant_settings[idx as int].moisture_m_freq_s,
        ),
{
    let channel = settings.plant_settings[idx];
    if !channel.enabled {
        None
    } else {
        Some(channel.moisture_m_freq_s)
    }
}

/// How long a plant channel waters on a watering order under the given
/// settings: `None` while the channel is disabled (it ignores orders until
/// new settings come), otherwise the watering time in seconds.
pub fn watering_duration(settings: &NodeSettings, idx: usize) -> (res: Option<u16>)
    requires
        idx < MAX_PLANT_CHANNELS,
    ensures
        !settings.plant_settings[idx as int].enabled ==> res is None,
        settings.plant_settings[idx as int].enabled ==> res == Some(
            settings.plant_settings[idx as int].watering_time_s,
        ),
{
    let channel = settings.plant_settings[idx];
    if !channel.enabled {
        None
    } else {
        Some(channel.watering_time_s)
    }
}

} // verus!
