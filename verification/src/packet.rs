//! The wire-level packet model: source routes, payload variants, and the
//! pure routing decisions made over them.

use vstd::prelude::*;

verus! {

/// Identifier of a participant in the network.
pub type NodeId = u8;

/// The source route a packet carries: the full ordered list of hops and a
/// zero-based cursor naming the hop that most recently handled the packet.
#[derive(Clone, Debug)]
pub struct SourceRoutingHeader {
    pub hops: Vec<NodeId>,
    pub hop_index: usize,
}

/// One piece of a fragmented application message. `data` is a fixed-size
/// buffer of which the first `length` bytes are meaningful.
#[derive(Clone, Debug)]
pub struct Fragment {
    pub fragment_index: u64,
    pub total_n_fragments: u64,
    pub length: u8,
    pub data: [u8; 128],
}

/// Positive acknowledgment of one fragment.
#[derive(Clone, Copy, Debug, PartialEq, Eq, Structural)]
pub struct Ack {
    pub fragment_index: u64,
}

/// The reason a forward failed; exactly one accompanies each negative
/// acknowledgment.
#[derive(Clone, Copy, Debug, PartialEq, Eq, Structural)]
pub enum NackType {
    /// The expected next hop is not a known neighbor.
    ErrorInRouting(NodeId),
    /// This node is not a valid forwarding point for the packet's current
    /// route position.
    UnexpectedRecipient(NodeId),
    /// Generic transport-level drop.
    Dropped,
}

/// Negative acknowledgment of one fragment.
#[derive(Clone, Copy, Debug, PartialEq, Eq, Structural)]
pub struct Nack {
    pub fragment_index: u64,
    pub nack_type: NackType,
}

/// The payload variants a packet can carry. The data plane only ever
/// distinguishes a data fragment (to extract a fragment index when building
/// a negative acknowledgment) from every other variant; control packets are
/// carried through opaquely.
#[derive(Clone, Debug)]
pub enum PacketType {
    MsgFragment(Fragment),
    Ack(Ack),
    Nack(Nack),
    /// Network-discovery control traffic; opaque to the data plane.
    Control,
}

/// The envelope every unit of traffic travels in: a source route, a session
/// identifier correlating all packets of one exchange, and a payload.
#[derive(Clone, Debug)]
pub struct Packet {
    pub pack_type: PacketType,
    pub routing_header: SourceRoutingHeader,
    pub session_id: u64,
}

/// The fragment index a negative acknowledgment for this packet carries:
/// the packet's own index if it is a data fragment, 0 for every other
/// variant.
pub open spec fn spec_fragment_index(p: Packet) -> u64 {
    match p.pack_type {
        PacketType::MsgFragment(f) => f.fragment_index,
        _ => 0,
    }
}

/// The next hop of `p` once its cursor has been advanced by one: the route
/// element just past the cursor, or `None` when the advanced cursor points
/// past the end of the route, i.e. this node is the packet's destination.
pub open spec fn spec_next_hop(p: Packet) -> Option<NodeId> {
    if p.routing_header.hop_index + 1 < p.routing_header.hops@.len() {
        Some(p.routing_header.hops@[p.routing_header.hop_index + 1])
    } else {
        None
    }
}

/// `p` with its route cursor advanced by one and everything else unchanged.
pub fn advanced(p: Packet) -> (r: Packet)
    requires
        p.routing_header.hop_index < usize::MAX,
    ensures
        r.routing_header.hop_index == p.routing_header.hop_index + 1,
        r.routing_header.hops == p.routing_header.hops,
        r.session_id == p.session_id,
        r.pack_type == p.pack_type,
{
    let mut p = p;
    p.routing_header.hop_index = p.routing_header.hop_index + 1;
    p
}

/// The fragment index a negative acknowledgment for `p` carries.
pub fn fragment_index_of(p: &Packet) -> (r: u64)
    ensures
        r == spec_fragment_index(*p),
{
    match &p.pack_type {
        PacketType::MsgFragment(f) => f.fragment_index,
        _ => 0,
    }
}

/// Builds the negative-acknowledgment packet reporting `nack_type` for
/// `packet`: it carries the fragment index of `packet` (0 unless `packet`
/// is a data fragment), keeps the session identifier, and has an empty
/// route that a higher layer must fill in before it can itself be routed.
pub fn build_nack(packet: &Packet, nack_type: NackType) -> (r: Packet)
    ensures
        r.pack_type == PacketType::Nack(Nack {
            fragment_index: spec_fragment_index(*packet),
            nack_type: nack_type,
        }),
        r.routing_header.hops@ == Seq::<NodeId>::empty(),
        r.routing_header.hop_index == 0,
        r.session_id == packet.session_id,
{
    let nack = Nack { fragment_index: fragment_index_of(packet), nack_type };
    Packet {
        pack_type: PacketType::Nack(nack),
        routing_header: SourceRoutingHeader { hop_index: 0, hops: Vec::new() },
        session_id: packet.session_id,
    }
}

} // verus!
