//! MQTT communication topics.
//!
//! Each builder appends its topic to the end of the given buffer.

use vstd::prelude::*;

verus! {

/// The characters of `node/`.
pub open spec fn node_prefix() -> Seq<char> {
    seq!['n', 'o', 'd', 'e', '/']
}

/// The characters of `/telemetry`.
pub open spec fn telemetry_suffix() -> Seq<char> {
    seq!['/', 't', 'e', 'l', 'e', 'm', 'e', 't', 'r', 'y']
}

/// The characters of `/boot`.
pub open spec fn boot_suffix() -> Seq<char> {
    seq!['/', 'b', 'o', 'o', 't']
}

/// The topic on which a node publishes its telemetry: `node/<id>/telemetry`.
pub open spec fn spec_node_telemetry(node_id: Seq<char>) -> Seq<char> {
    node_prefix() + node_id + telemetry_suffix()
}

/// The topic on which a node announces its boot: `node/<id>/boot`.
pub open spec fn spec_node_boot(node_id: Seq<char>) -> Seq<char> {
    node_prefix() + node_id + boot_suffix()
}

/// The topic on which the server announces its boot: `server/boot`.
pub open spec fn spec_server_boot() -> Seq<char> {
    seq!['s', 'e', 'r', 'v', 'e', 'r', '/', 'b', 'o', 'o', 't']
}

/// The topic on which the server overrides node settings: `override/<id>`.
pub open spec fn spec_settings_override(node_id: Seq<char>) -> Seq<char> {
    seq!['o', 'v', 'e', 'r', 'r', 'i', 'd', 'e', '/'] + node_id
}

/// The topic on which the server orders watering: `water/<id>`.
pub open spec fn spec_water(node_id: Seq<char>) -> Seq<char> {
    seq!['w', 'a', 't', 'e', 'r', '/'] + node_id
}

/// Telemetry published by node, containing node ID.
pub fn node_telemetry(buf: &mut String, node_id: &str)
    ensures
        final(buf)@ == old(buf)@ + spec_node_telemetry(node_id@),
{
    let prefix = "node/";
    let suffix = "/telemetry";
    proof {
        reveal_strlit("node/");
        reveal_strlit("/telemetry");
    }
    buf.append(prefix);
    buf.append(node_id);
    buf.append(suffix);
}

/// Sent on node boot and after server boot.
/// Contains NodeConfig.
pub fn node_boot(buf: &mut String, node_id: &str)
    ensures
        final(buf)@ == old(buf)@ + spec_node_boot(node_id@),
{
    let prefix = "node/";
    let suffix = "/boot";
    proof {
        reveal_strlit("node/");
        reveal_strlit("/boot");
    }
    buf.append(prefix);
    buf.append(node_id);
    buf.append(suffix);
}

/// Published by server immediately after its boot.
/// The node responds with its config (NodeBoot).
pub fn server_boot(buf: &mut String)
    ensures
        final(buf)@ == old(buf)@ + spec_server_boot(),
{
    let topic = "server/boot";
    proof {
        reveal_strlit("server/boot");
    }
    buf.append(topic);
}

/// Override node settings.
/// Published by server.
pub fn settings_override(buf: &mut String, node_id: &str)
    ensures
        final(buf)@ == old(buf)@ + spec_settings_override(node_id@),
{
    let prefix = "override/";
    proof {
        reveal_strlit("override/");
    }
    buf.append(prefix);
    buf.append(node_id);
}

/// Water the plant on the channel.
/// Published by server.
pub fn water(buf: &mut String, node_id: &str)
    ensures
        final(buf)@ == old(buf)@ + spec_water(node_id@),
{
    let prefix = "water/";
    proof {
        reveal_strlit("water/");
    }
    buf.append(prefix);
    buf.append(node_id);
}

} // verus!
