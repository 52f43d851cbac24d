//! Routing of incoming MQTT messages on the server: the subscriptions, which
//! one a topic goes to, and what the node boot handler reads and answers.

use vstd::prelude::*;

use crate::mqtt_convention::{
    node_boot, node_telemetry, settings_override, spec_node_boot, spec_node_telemetry,
    spec_server_boot, spec_settings_override, spec_water, water,
};
use crate::entries::{ChannelEntry, NewNode, NodeEntry, spec_boot_time};
use crate::node_config::NodeConfig;
use crate::node_settings::MAX_PLANT_CHANNELS;
use crate::node_settings::NodeSettings;
use crate::packets::{Packet, PacketPayload};
use crate::topic::{
    chars_of, lemma_levels2, lemma_levels3, lemma_match_same_length, level_views, levels_match,
    law_plain_filter_matches_only_itself, levels_of, multi_wildcard, no_multi_wildcard, no_wildcards,
    single_wildcard, spec_topic_matches, split_levels, topic_matches,
};

verus! {

/// The handlers that incoming messages are routed to.
#[derive(Clone, Copy, Debug, PartialEq, Eq, Structural)]
pub enum Route {
    /// Node telemetry.
    Telemetry,
    /// Node boot.
    Boot,
}

/// A route table as (filter characters, handler) pairs.
pub open spec fn route_views(rs: Seq<(String, Route)>) -> Seq<(Seq<char>, Route)> {
    Seq::new(rs.len(), |i: int| (rs[i].0@, rs[i].1))
}

/// All active subscriptions: the telemetry and the boot topics of every node.
pub open spec fn spec_routes() -> Seq<(Seq<char>, Route)> {
    seq![
        (spec_node_telemetry(single_wildcard()), Route::Telemetry),
        (spec_node_boot(single_wildcard()), Route::Boot),
    ]
}

/// The handler of the first route whose filter matches `topic`.
pub open spec fn first_route(rs: Seq<(Seq<char>, Route)>, topic: Seq<char>) -> Option<Route>
    decreases rs.len(),
{
    if rs.len() == 0 {
        None
    } else if spec_topic_matches(rs[0].0, topic) {
        Some(rs[0].1)
    } else {
        first_route(rs.drop_first(), topic)
    }
}

/// All active subscriptions: (filter, handler) pairs.
pub fn routes() -> (res: Vec<(String, Route)>)
    ensures
        route_views(res@) == spec_routes(),
{
    let plus = "+";
    proof {
        reveal_strlit("+");
    }
    // Node telemetry
    let mut telemetry_filter = String::new();
    node_telemetry(&mut telemetry_filter, plus);
    // Node boot
    let mut node_boot_filter = String::new();
    node_boot(&mut node_boot_filter, plus);
    assert(plus@ =~= single_wildcard());
    assert(telemetry_filter@ =~= spec_node_telemetry(single_wildcard()));
    assert(node_boot_filter@ =~= spec_node_boot(single_wildcard()));
    let mut res: Vec<(String, Route)> = Vec::new();
    res.push((telemetry_filter, Route::Telemetry));
    res.push((node_boot_filter, Route::Boot));
    assert(route_views(res@) =~= spec_routes());
    res
}

/// Find the first route whose filter matches `topic`, and return its handler.
pub fn dispatch(routes: &Vec<(String, Route)>, topic: &str) -> (res: Option<Route>)
    ensures
        res == first_route(route_views(routes@), topic@),
{
    let mut i: usize = 0;
    let ghost all = route_views(routes@);
    assert(all.skip(0) =~= all);
    while i < routes.len()
        invariant
            all == route_views(routes@),
            i <= routes.len(),
            first_route(all, topic@) == first_route(all.skip(i as int), topic@),
        decreases routes.len() - i,
    {
        let ghost rest = all.skip(i as int);
        assert(rest[0] == (routes@[i as int].0@, routes@[i as int].1));
        assert(rest.drop_first() =~= all.skip(i + 1));
        if topic_matches(routes[i].0.as_str(), topic) {
            return Some(routes[i].1);
        }
        i = i + 1;
    }
    assert(all.skip(i as int).len() == 0);
    None
}

/// Calls std's `String::push`, which its documentation describes as
/// appending the given char to the end of the string: the contract claims
/// that the characters afterwards are the old ones followed by `c`.
#[verifier::external_body]
fn push_char(s: &mut String, c: char)
    ensures
        final(s)@ == old(s)@.push(c),
{
    s.push(c);
}

/// A string holding the given characters.
fn string_of(chars: &Vec<char>) -> (res: String)
    ensures
        res@ == chars@,
{
    let mut res = String::new();
    let mut i: usize = 0;
    while i < chars.len()
        invariant
            i <= chars.len(),
            res@ == chars@.take(i as int),
        decreases chars.len() - i,
    {
        push_char(&mut res, chars[i]);
        i = i + 1;
        assert(res@ =~= chars@.take(i as int));
    }
    assert(chars@.take(chars.len() as int) =~= chars@);
    res
}

/// The `n`-th level of a topic (counting from 0), if it has that many.
pub fn topic_level(topic: &str, n: usize) -> (res: Option<String>)
    ensures
        res is Some <==> n < levels_of(topic@).len(),
        res matches Some(level) ==> level@ == levels_of(topic@)[n as int],
{
    let chars = chars_of(topic);
    let levels = split_levels(&chars);
    if n < levels.len() {
        assert(level_views(levels@)[n as int] == levels@[n as int]@);
        Some(string_of(&levels[n]))
    } else {
        None
    }
}

/// Why a message on a node boot topic is not handled.
#[derive(Clone, Copy, Debug, PartialEq, Eq, Structural)]
pub enum BootRejection {
    /// The packet is not a NodeBoot packet.
    NotNodeBoot,
    /// The topic has no node id level.
    NoNodeId,
}

/// What the node boot handler acts on: the node id taken from the topic, the
/// node's uptime and its configuration.
#[derive(Debug)]
pub struct BootNotice {
    pub node_id: String,
    pub uptime_ms: u64,
    pub config: NodeConfig,
}

/// Node boot handler, up to the database: accept only a NodeBoot packet and
/// take the node id from the second level of the topic (`node/<id>/boot`).
pub fn handle_boot(topic: &str, packet: Packet) -> (res: Result<BootNotice, BootRejection>)
    ensures
        !(packet.payload is NodeBoot) ==> res == Err::<BootNotice, BootRejection>(BootRejection::NotNodeBoot),
        packet.payload is NodeBoot ==> {
            &&& res is Err <==> levels_of(topic@).len() < 2
            &&& res is Err ==> res == Err::<BootNotice, BootRejection>(BootRejection::NoNodeId)
        },
        res matches Ok(notice) ==> {
            &&& notice.node_id@ == levels_of(topic@)[1]
            &&& notice.uptime_ms == packet.header.uptime_ms
            &&& packet.payload == PacketPayload::NodeBoot(notice.config)
        },
{
    let uptime_ms = packet.header.uptime_ms;
    let config = match packet.payload {
        PacketPayload::NodeBoot(config) => config,
        _ => return Err(BootRejection::NotNodeBoot),
    };
    match topic_level(topic, 1) {
        Some(node_id) => Ok(BootNotice { node_id, uptime_ms, config }),
        None => Err(BootRejection::NoNodeId),
    }
}

/// What the server does about a node that announced its boot.
#[derive(Debug)]
pub enum BootAction {
    /// The node is known: answer it with the settings its rows store.
    Answer,
    /// The node is unknown: register it with this row (default settings),
    /// then answer it with the settings its rows store.
    Register(NewNode),
}

/// Node boot handler, from the database lookup on: a known node is answered
/// as it is; an unknown node is first registered with a row recording its
/// configuration and the default settings, booted `uptime_ms` before `now`.
/// Either way the node is then answered by `settings_answer`.
pub fn boot_response(notice: &BootNotice, known: Option<&NodeEntry>, now: i64) -> (res: BootAction)
    requires
        known is None ==> i64::MIN <= spec_boot_time(now, notice.uptime_ms) <= i64::MAX,
    ensures
        known is Some ==> res is Answer,
        known is None ==> (res matches BootAction::Register(row) && {
            &&& row.node_id@ == notice.node_id@
            &&& row.records_values(notice.config, 10, 10, 10)
            &&& row.last_boot == spec_boot_time(now, notice.uptime_ms)
            &&& row.last_active == now
        }),
{
    match known {
        Some(_) => BootAction::Answer,
        None => BootAction::Register(
            NodeEntry::push_default(notice.node_id.as_str(), notice.uptime_ms, now, &notice.config),
        ),
    }
}

/// The answer to a node's boot: the settings that its row and its channel
/// rows store (`None` for a channel without a row), on the node's settings
/// override topic, in a packet with a zero uptime.
pub fn settings_answer(entry: &NodeEntry, channels: &Vec<Option<ChannelEntry>>) -> (res: (String, Packet))
    requires
        channels@.len() == entry.n_channels,
        forall|i: int| MAX_PLANT_CHANNELS <= i < channels@.len() ==> #[trigger] channels@[i] is None,
    ensures
        res.0@ == spec_settings_override(entry.node_id@),
        res.1.header.uptime_ms == 0,
        res.1.payload matches PacketPayload::SettingsOverride(s) && entry.settings_are(channels@, s),
{
    let settings = entry.get_settings(channels);
    override_settings(entry.node_id.as_str(), settings)
}

/// The settings override message for a node: its topic, and a packet holding
/// the settings with a zero uptime.
pub fn override_settings(node_id: &str, settings: NodeSettings) -> (res: (String, Packet))
    ensures
        res.0@ == spec_settings_override(node_id@),
        res.1.header.uptime_ms == 0,
        res.1.payload == PacketPayload::SettingsOverride(settings),
{
    let mut t = String::new();
    settings_override(&mut t, node_id);
    let p = Packet::new(0, PacketPayload::SettingsOverride(settings));
    (t, p)
}

/// The watering order for a node's channel: its topic, and a packet naming
/// the channel with a zero uptime.
pub fn water_plant(node_id: &str, channel_id: u8) -> (res: (String, Packet))
    ensures
        res.0@ == spec_water(node_id@),
        res.1.header.uptime_ms == 0,
        res.1.payload == PacketPayload::Water(channel_id),
{
    let mut t = String::new();
    water(&mut t, node_id);
    let p = Packet::new(0, PacketPayload::Water(channel_id));
    (t, p)
}

/// The characters of `node`.
pub open spec fn node_word() -> Seq<char> {
    seq!['n', 'o', 'd', 'e']
}

/// The characters of `telemetry`.
pub open spec fn telemetry_word() -> Seq<char> {
    seq!['t', 'e', 'l', 'e', 'm', 'e', 't', 'r', 'y']
}

/// The characters of `boot`.
pub open spec fn boot_word() -> Seq<char> {
    seq!['b', 'o', 'o', 't']
}

/// The characters of `override`.
pub open spec fn override_word() -> Seq<char> {
    seq!['o', 'v', 'e', 'r', 'r', 'i', 'd', 'e']
}

/// The characters of `water`.
pub open spec fn water_word() -> Seq<char> {
    seq!['w', 'a', 't', 'e', 'r']
}

/// The characters of `server`.
pub open spec fn server_word() -> Seq<char> {
    seq!['s', 'e', 'r', 'v', 'e', 'r']
}

proof fn lemma_no_slash_words()
    ensures
        !node_word().contains('/'),
        !telemetry_word().contains('/'),
        !boot_word().contains('/'),
        !single_wildcard().contains('/'),
        !override_word().contains('/'),
        !water_word().contains('/'),
        !server_word().contains('/'),
{
    assert(!node_word().contains('/')) by {
        if node_word().contains('/') {
            let k = choose|k: int| 0 <= k < node_word().len() && node_word()[k] == '/';
        }
    }
    assert(!telemetry_word().contains('/')) by {
        if telemetry_word().contains('/') {
            let k = choose|k: int| 0 <= k < telemetry_word().len() && telemetry_word()[k] == '/';
        }
    }
    assert(!boot_word().contains('/')) by {
        if boot_word().contains('/') {
            let k = choose|k: int| 0 <= k < boot_word().len() && boot_word()[k] == '/';
        }
    }
    assert(!single_wildcard().contains('/')) by {
        if single_wildcard().contains('/') {
            let k = choose|k: int| 0 <= k < single_wildcard().len() && single_wildcard()[k] == '/';
        }
    }
    assert(!override_word().contains('/')) by {
        if override_word().contains('/') {
            let k = choose|k: int| 0 <= k < override_word().len() && override_word()[k] == '/';
        }
    }
    assert(!water_word().contains('/')) by {
        if water_word().contains('/') {
            let k = choose|k: int| 0 <= k < water_word().len() && water_word()[k] == '/';
        }
    }
    assert(!server_word().contains('/')) by {
        if server_word().contains('/') {
            let k = choose|k: int| 0 <= k < server_word().len() && server_word()[k] == '/';
        }
    }
}

/// The levels of a node telemetry topic: `node`, the id, `telemetry`.
pub proof fn lemma_node_telemetry_levels(node_id: Seq<char>)
    requires
        !node_id.contains('/'),
    ensures
        levels_of(spec_node_telemetry(node_id)) == seq![node_word(), node_id, telemetry_word()],
{
    lemma_no_slash_words();
    assert(spec_node_telemetry(node_id) =~= node_word() + seq!['/'] + node_id + seq!['/']
        + telemetry_word());
    lemma_levels3(node_word(), node_id, telemetry_word());
}

/// The levels of a node boot topic: `node`, the id, `boot`.
pub proof fn lemma_node_boot_levels(node_id: Seq<char>)
    requires
        !node_id.contains('/'),
    ensures
        levels_of(spec_node_boot(node_id)) == seq![node_word(), node_id, boot_word()],
{
    lemma_no_slash_words();
    assert(spec_node_boot(node_id) =~= node_word() + seq!['/'] + node_id + seq!['/']
        + boot_word());
    lemma_levels3(node_word(), node_id, boot_word());
}

/// Telemetry that a node publishes on its telemetry topic reaches the
/// telemetry handler, whatever the node's id (as long as it holds no `/`).
pub proof fn law_telemetry_topic_routes_to_telemetry(node_id: Seq<char>)
    requires
        !node_id.contains('/'),
    ensures
        first_route(spec_routes(), spec_node_telemetry(node_id)) == Some(Route::Telemetry),
{
    lemma_no_slash_words();
    lemma_node_telemetry_levels(node_id);
    lemma_node_telemetry_levels(single_wildcard());
    let f = seq![node_word(), single_wildcard(), telemetry_word()];
    let t = seq![node_word(), node_id, telemetry_word()];
    assert(f.drop_first() =~= seq![single_wildcard(), telemetry_word()]);
    assert(t.drop_first() =~= seq![node_id, telemetry_word()]);
    assert(f.drop_first().drop_first() =~= seq![telemetry_word()]);
    assert(t.drop_first().drop_first() =~= seq![telemetry_word()]);
    assert(f.drop_first().drop_first().drop_first() =~= Seq::<Seq<char>>::empty());
    assert(t.drop_first().drop_first().drop_first() =~= Seq::<Seq<char>>::empty());
    assert(node_word() != multi_wildcard());
    assert(single_wildcard() != multi_wildcard()) by {
        assert(single_wildcard()[0] != multi_wildcard()[0]);
    }
    assert(telemetry_word() != multi_wildcard());
    assert(levels_match(f.drop_first().drop_first().drop_first(), t.drop_first().drop_first().drop_first()));
    assert(levels_match(f.drop_first().drop_first(), t.drop_first().drop_first()));
    assert(levels_match(f.drop_first(), t.drop_first()));
    assert(levels_match(f, t));
}

/// A node's boot announcement reaches the boot handler, whatever the node's
/// id (as long as it holds no `/`).
pub proof fn law_boot_topic_routes_to_boot(node_id: Seq<char>)
    requires
        !node_id.contains('/'),
    ensures
        first_route(spec_routes(), spec_node_boot(node_id)) == Some(Route::Boot),
{
    lemma_no_slash_words();
    lemma_node_boot_levels(node_id);
    lemma_node_boot_levels(single_wildcard());
    lemma_node_telemetry_levels(single_wildcard());
    let t = seq![node_word(), node_id, boot_word()];
    // the telemetry filter stops at its last level
    let ft = seq![node_word(), single_wildcard(), telemetry_word()];
    assert(ft.drop_first() =~= seq![single_wildcard(), telemetry_word()]);
    assert(t.drop_first() =~= seq![node_id, boot_word()]);
    assert(ft.drop_first().drop_first() =~= seq![telemetry_word()]);
    assert(t.drop_first().drop_first() =~= seq![boot_word()]);
    assert(telemetry_word() != boot_word()) by {
        assert(telemetry_word().len() != boot_word().len());
    }
    assert(node_word() != multi_wildcard());
    assert(single_wildcard() != multi_wildcard()) by {
        assert(single_wildcard()[0] != multi_wildcard()[0]);
    }
    assert(telemetry_word() != multi_wildcard());
    assert(boot_word() != multi_wildcard());
    assert(!levels_match(ft.drop_first().drop_first(), t.drop_first().drop_first()));
    assert(!levels_match(ft.drop_first(), t.drop_first()));
    assert(!levels_match(ft, t));
    // the boot filter matches
    let fb = seq![node_word(), single_wildcard(), boot_word()];
    assert(fb.drop_first() =~= seq![single_wildcard(), boot_word()]);
    assert(fb.drop_first().drop_first() =~= seq![boot_word()]);
    assert(fb.drop_first().drop_first().drop_first() =~= Seq::<Seq<char>>::empty());
    assert(t.drop_first().drop_first().drop_first() =~= Seq::<Seq<char>>::empty());
    assert(levels_match(fb.drop_first().drop_first().drop_first(), t.drop_first().drop_first().drop_first()));
    assert(levels_match(fb.drop_first().drop_first(), t.drop_first().drop_first()));
    assert(levels_match(fb.drop_first(), t.drop_first()));
    assert(levels_match(fb, t));
    let rs = spec_routes();
    assert(rs.drop_first() =~= seq![(spec_node_boot(single_wildcard()), Route::Boot)]);
    assert(first_route(rs.drop_first(), spec_node_boot(node_id)) == Some(Route::Boot));
}

/// The boot handler reads back the id of the node that announced its boot.
pub proof fn law_boot_topic_names_node(node_id: Seq<char>)
    requires
        !node_id.contains('/'),
    ensures
        levels_of(spec_node_boot(node_id)).len() >= 2,
        levels_of(spec_node_boot(node_id))[1] == node_id,
{
    lemma_node_boot_levels(node_id);
}

/// No route of the server's table matches a topic of two levels.
proof fn lemma_two_levels_not_routed(topic: Seq<char>)
    requires
        levels_of(topic).len() == 2,
    ensures
        first_route(spec_routes(), topic) == None::<Route>,
{
    lemma_no_slash_words();
    lemma_node_telemetry_levels(single_wildcard());
    lemma_node_boot_levels(single_wildcard());
    let ft = seq![node_word(), single_wildcard(), telemetry_word()];
    let fb = seq![node_word(), single_wildcard(), boot_word()];
    assert(single_wildcard() != multi_wildcard()) by {
        assert(single_wildcard()[0] != multi_wildcard()[0]);
    }
    assert(no_multi_wildcard(ft));
    assert(no_multi_wildcard(fb));
    if levels_match(ft, levels_of(topic)) {
        lemma_match_same_length(ft, levels_of(topic));
    }
    if levels_match(fb, levels_of(topic)) {
        lemma_match_same_length(fb, levels_of(topic));
    }
    assert(!spec_topic_matches(spec_node_telemetry(single_wildcard()), topic));
    assert(!spec_topic_matches(spec_node_boot(single_wildcard()), topic));
    let rs = spec_routes();
    let rest = rs.drop_first();
    assert(rest =~= seq![(spec_node_boot(single_wildcard()), Route::Boot)]);
    assert(rest.drop_first() =~= Seq::<(Seq<char>, Route)>::empty());
    assert(first_route(rest.drop_first(), topic) == None::<Route>);
    assert(first_route(rest, topic) == None::<Route>);
}

/// The server's own publications (its boot announcement, settings overrides
/// and watering orders) are not routed back to any of its handlers.
pub proof fn law_server_publications_not_routed(node_id: Seq<char>)
    requires
        !node_id.contains('/'),
    ensures
        first_route(spec_routes(), spec_server_boot()) == None::<Route>,
        first_route(spec_routes(), spec_settings_override(node_id)) == None::<Route>,
        first_route(spec_routes(), spec_water(node_id)) == None::<Route>,
{
    lemma_no_slash_words();
    assert(spec_server_boot() =~= server_word() + seq!['/'] + boot_word());
    lemma_levels2(server_word(), boot_word());
    lemma_two_levels_not_routed(spec_server_boot());
    assert(spec_settings_override(node_id) =~= override_word() + seq!['/'] + node_id);
    lemma_levels2(override_word(), node_id);
    lemma_two_levels_not_routed(spec_settings_override(node_id));
    assert(spec_water(node_id) =~= water_word() + seq!['/'] + node_id);
    lemma_levels2(water_word(), node_id);
    lemma_two_levels_not_routed(spec_water(node_id));
}

/// The server answers a node's boot on the settings override topic of the
/// node id it read from the boot topic, and that topic is matched by the
/// node's own subscription (`override/<id>`); so are its watering orders by
/// `water/<id>`. The node id holds no `/` and is not a wildcard.
pub proof fn law_server_orders_reach_node(node_id: Seq<char>)
    requires
        !node_id.contains('/'),
        node_id != single_wildcard(),
        node_id != multi_wildcard(),
    ensures
        spec_topic_matches(
            spec_settings_override(node_id),
            spec_settings_override(levels_of(spec_node_boot(node_id))[1]),
        ),
        spec_topic_matches(spec_water(node_id), spec_water(node_id)),
{
    law_boot_topic_names_node(node_id);
    lemma_no_slash_words();
    assert(spec_settings_override(node_id) =~= override_word() + seq!['/'] + node_id);
    lemma_levels2(override_word(), node_id);
    let lo = seq![override_word(), node_id];
    assert(no_wildcards(lo)) by {
        assert(override_word() != single_wildcard());
        assert(override_word() != multi_wildcard());
        assert(lo[0] == override_word());
        assert(lo[1] == node_id);
    }
    law_plain_filter_matches_only_itself(lo, lo);
    assert(spec_water(node_id) =~= water_word() + seq!['/'] + node_id);
    lemma_levels2(water_word(), node_id);
    let lw = seq![water_word(), node_id];
    assert(no_wildcards(lw)) by {
        assert(water_word() != single_wildcard());
        assert(water_word() != multi_wildcard());
        assert(lw[0] == water_word());
        assert(lw[1] == node_id);
    }
    law_plain_filter_matches_only_itself(lw, lw);
}

} // verus!
