//! The priority of packets waiting to be sent: boot packets first, then
//! telemetry, then everything else.

use vstd::prelude::*;

use core::cmp::Ordering;
use vstd::std_specs::cmp::PartialEqSpecImpl;
use vstd::std_specs::cmp::PartialOrdSpecImpl;

use crate::packets::{Packet, PacketPayload};

verus! {

/// The wrapper struct for the packet so it can be sorted based on priority.
#[derive(Debug)]
pub struct PriorityPacketWrapper(pub Packet);

/// The priority of a packet payload: boot packets have priority over
/// telemetry packets, which have priority over the rest.
pub open spec fn payload_priority(payload: PacketPayload) -> u8 {
    match payload {
        PacketPayload::NodeBoot(_) => 2,
        PacketPayload::Telemetry(_) => 1,
        _ => 0,
    }
}

/// How two priorities compare.
pub open spec fn priority_order(a: u8, b: u8) -> Ordering {
    if a < b {
        Ordering::Less
    } else if a == b {
        Ordering::Equal
    } else {
        Ordering::Greater
    }
}

impl PriorityPacketWrapper {
    /// The priority of the wrapped packet.
    pub open spec fn prio(self) -> u8 {
        payload_priority(self.0.payload)
    }

    /// The priority of the wrapped packet.
    pub fn priority(&self) -> (res: u8)
        ensures
            res == self.prio(),
    {
        match &self.0.payload {
            // Boot packets have priority over telemetry packets
            PacketPayload::NodeBoot(_) => 2,
            PacketPayload::Telemetry(_) => 1,
            _ => 0,
        }
    }

    /// Order two packets by priority alone.
    pub fn cmp(&self, other: &Self) -> (res: Ordering)
        ensures
            res == priority_order(self.prio(), other.prio()),
    {
        let a = self.priority();
        let b = other.priority();
        if a < b {
            Ordering::Less
        } else if a == b {
            Ordering::Equal
        } else {
            Ordering::Greater
        }
    }
}

impl PartialEq for PriorityPacketWrapper {
    fn eq(&self, other: &Self) -> (res: bool) {
        self.priority() == other.priority()
    }
}

impl PartialEqSpecImpl for PriorityPacketWrapper {
    open spec fn obeys_eq_spec() -> bool {
        true
    }

    open spec fn eq_spec(&self, other: &Self) -> bool {
        self.prio() == other.prio()
    }
}

impl Eq for PriorityPacketWrapper {

}

impl PartialOrd for PriorityPacketWrapper {
    fn partial_cmp(&self, other: &Self) -> (res: Option<Ordering>) {
        Some(self.cmp(other))
    }
}

impl PartialOrdSpecImpl for PriorityPacketWrapper {
    open spec fn obeys_partial_cmp_spec() -> bool {
        true
    }

    open spec fn partial_cmp_spec(&self, other: &Self) -> Option<Ordering> {
        Some(priority_order(self.prio(), other.prio()))
    }
}

/// Packets compare equal exactly when they have the same priority, and the
/// order is antisymmetric and transitive: a total preorder by priority.
pub proof fn law_priority_total_order(a: u8, b: u8, c: u8)
    ensures
        (priority_order(a, b) == Ordering::Equal) <==> (a == b),
        (priority_order(a, b) == Ordering::Less) <==> (priority_order(b, a) == Ordering::Greater),
        priority_order(a, b) == Ordering::Less && priority_order(b, c) == Ordering::Less
            ==> priority_order(a, c) == Ordering::Less,
        priority_order(a, a) == Ordering::Equal,
{
}

/// A boot packet is sent before a telemetry packet, and a telemetry packet
/// before any other packet.
pub proof fn law_boot_before_telemetry_before_rest(boot: Packet, telemetry: Packet, other: Packet)
    requires
        boot.payload is NodeBoot,
        telemetry.payload is Telemetry,
        !(other.payload is NodeBoot),
        !(other.payload is Telemetry),
    ensures
        priority_order(PriorityPacketWrapper(boot).prio(), PriorityPacketWrapper(telemetry).prio())
            == Ordering::Greater,
        priority_order(PriorityPacketWrapper(telemetry).prio(), PriorityPacketWrapper(other).prio())
            == Ordering::Greater,
        priority_order(PriorityPacketWrapper(boot).prio(), PriorityPacketWrapper(other).prio())
            == Ordering::Greater,
{
}

} // verus!
