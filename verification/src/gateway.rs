//! The routing gateway: owns this node's neighbor table and forwards
//! in-transit packets to the next hop named by their source route, delivers
//! packets addressed to this node to the local receiving logic, and
//! synthesizes negative acknowledgments when a route is broken.

use vstd::prelude::*;
use std::collections::HashMap;
use crate::packet::{NackType, NodeId, Packet, build_nack, advanced, spec_next_hop};

verus! {

broadcast use vstd::std_specs::hash::group_hash_axioms;

#[verifier::external_type_specification]
#[verifier::external_body]
#[verifier::reject_recursive_types(T)]
pub struct ExSender<T>(crossbeam_channel::Sender<T>);

/// The outcome of a failed non-blocking send on an outside channel.
#[derive(Clone, Copy, Debug, PartialEq, Eq, Structural)]
pub enum SendFailure {
    /// The channel's buffer was full.
    Full,
    /// Every receiving end of the channel is gone.
    Disconnected,
}

/// Relies on crossbeam_channel::Sender::try_send: a non-blocking send that
/// enqueues the message exactly when it returns Ok, and otherwise fails
/// with Full on a full channel or Disconnected when no receiver is left.
/// Which outcome occurs depends on the channel's state, so nothing is
/// promised of the result.
#[verifier::external_body]
fn try_send_packet(ch: &crossbeam_channel::Sender<Packet>, p: Packet) -> (r: Result<
    (),
    SendFailure,
>) {
    match ch.try_send(p) {
        Ok(()) => Ok(()),
        Err(crossbeam_channel::TrySendError::Full(_)) => Err(SendFailure::Full),
        Err(crossbeam_channel::TrySendError::Disconnected(_)) => Err(SendFailure::Disconnected),
    }
}

/// How a forward call failed.
#[derive(Clone, Copy, Debug, PartialEq, Eq, Structural)]
pub enum ForwardError {
    /// The route is broken at this node; the same reason was also sent
    /// toward the local receiving logic as a negative acknowledgment.
    Nack(NackType),
    /// The local receiving logic could not accept a packet owed to it.
    /// The node's internal wiring is assumed always present, so this is a
    /// fatal condition the caller must abort on, not ordinary loss.
    ReceiverUnavailable,
}

/// Every result `forward` may return for `p` on gateway `g`. The route
/// decision (deliver locally, send to a known neighbor, or fail) is a pure
/// function of the packet and the neighbor table; only where a send toward
/// the local receiving logic is owed can the channel's state turn the
/// outcome into `ReceiverUnavailable`.
pub open spec fn forward_result_spec(g: Gateway, p: Packet, r: Result<(), ForwardError>) -> bool {
    match spec_next_hop(p) {
        Some(n) => if g.neighbors@.dom().contains(n) {
            // Next hop known: the packet goes out (or is silently dropped
            // by a full neighbor channel); the caller always sees success.
            r == Ok::<(), ForwardError>(())
        } else {
            // Route broken: the caller is always told, unless even the
            // local receiving logic is gone.
            r == Err::<(), ForwardError>(ForwardError::Nack(NackType::ErrorInRouting(n))) || r
                == Err::<(), ForwardError>(ForwardError::ReceiverUnavailable)
        },
        // This node is the destination: local delivery, fatal if refused.
        None => r == Ok::<(), ForwardError>(()) || r == Err::<(), ForwardError>(
            ForwardError::ReceiverUnavailable,
        ),
    }
}

/// Owns this node's identifier, its neighbor table (neighbor identifier to
/// outbound channel), and the channel toward the node's own receiving
/// logic.
#[derive(Debug)]
pub struct Gateway {
    pub node_id: NodeId,
    pub neighbors: HashMap<NodeId, crossbeam_channel::Sender<Packet>>,
    pub receiver_channel: crossbeam_channel::Sender<Packet>,
}

impl Gateway {
    pub fn new(
        node_id: NodeId,
        neighbors: HashMap<NodeId, crossbeam_channel::Sender<Packet>>,
        receiver_channel: crossbeam_channel::Sender<Packet>,
    ) -> (r: Gateway)
        ensures
            r.node_id == node_id,
            r.neighbors@ == neighbors@,
            r.receiver_channel == receiver_channel,
    {
        Gateway { node_id, neighbors, receiver_channel }
    }

    /// Advances the packet's route cursor by one and resolves the hop the
    /// new cursor names. No such hop: the packet has arrived, deliver it
    /// locally. A known neighbor: send it on (a full or disconnected
    /// neighbor channel drops it silently; recovery is the retransmission
    /// layer's concern). An unknown hop: report `ErrorInRouting` both to
    /// the caller and, as a negative-acknowledgment packet, to the local
    /// receiving logic.
    pub fn forward(&self, packet: Packet) -> (r: Result<(), ForwardError>)
        requires
            packet.routing_header.hop_index < usize::MAX,
        ensures
            forward_result_spec(*self, packet, r),
    {
        let packet = advanced(packet);
        let hop_index = packet.routing_header.hop_index;
        if hop_index < packet.routing_header.hops.len() {
            let next_node: NodeId = packet.routing_header.hops[hop_index];
            match self.neighbors.get(&next_node) {
                Some(next_node_channel) => {
                    // A failed send here is silent loss, by design.
                    let _ = try_send_packet(next_node_channel, packet);
                    Ok(())
                },
                None => {
                    let nack_type = NackType::ErrorInRouting(next_node);
                    match self.send_nack_packet_to_receiver(&packet, nack_type) {
                        Ok(()) => Err(ForwardError::Nack(nack_type)),
                        Err(_) => Err(ForwardError::ReceiverUnavailable),
                    }
                },
            }
        } else {
            // The advanced cursor points past the end of the route: this
            // node is the destination.
            match try_send_packet(&self.receiver_channel, packet) {
                Ok(()) => Ok(()),
                Err(_) => Err(ForwardError::ReceiverUnavailable),
            }
        }
    }

    /// Builds the negative acknowledgment describing `nack_type` for
    /// `packet` and sends it, non-blocking, toward the local receiving
    /// logic. Whether the send is accepted depends on that channel's
    /// state; what the sent packet holds is pinned by `build_nack`.
    pub fn send_nack_packet_to_receiver(&self, packet: &Packet, nack_type: NackType) -> (r: Result<
        (),
        SendFailure,
    >) {
        let nack_packet = build_nack(packet, nack_type);
        try_send_packet(&self.receiver_channel, nack_packet)
    }

    /// Inserts (or, for an already-known identifier, replaces) the
    /// outbound channel of neighbor `node_id`. Replacing never changes the
    /// neighbor count.
    pub fn add_neighbor(
        &mut self,
        node_id: NodeId,
        channel: crossbeam_channel::Sender<Packet>,
    )
        ensures
            final(self).node_id == old(self).node_id,
            final(self).receiver_channel == old(self).receiver_channel,
            final(self).neighbors@ == old(self).neighbors@.insert(node_id, channel),
            final(self).neighbors@.dom().len() == if old(self).neighbors@.dom().contains(node_id) {
                old(self).neighbors@.dom().len()
            } else {
                old(self).neighbors@.dom().len() + 1
            },
    {
        proof {
            assert(old(self).neighbors@.dom().finite());
        }
        self.neighbors.insert(node_id, channel);
    }

    /// Removes neighbor `node_id`; removing an identifier that is not
    /// present leaves the table exactly as it was.
    pub fn remove_neighbor(&mut self, node_id: &NodeId)
        ensures
            final(self).node_id == old(self).node_id,
            final(self).receiver_channel == old(self).receiver_channel,
            final(self).neighbors@ == old(self).neighbors@.remove(*node_id),
            !old(self).neighbors@.dom().contains(*node_id) ==> final(self).neighbors@ == old(
                self,
            ).neighbors@,
            final(self).neighbors@.dom().len() == if old(self).neighbors@.dom().contains(*node_id) {
                old(self).neighbors@.dom().len() - 1
            } else {
                old(self).neighbors@.dom().len() as int
            },
    {
        proof {
            assert(old(self).neighbors@.dom().finite());
        }
        self.neighbors.remove(node_id);
        proof {
            if !old(self).neighbors@.dom().contains(*node_id) {
                assert(old(self).neighbors@.remove(*node_id) =~= old(self).neighbors@);
            }
        }
    }
}

} // verus!
