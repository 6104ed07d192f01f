//! Data plane of a node in a source-routed packet network.
//!
//! Every packet carries its full route as an ordered list of node
//! identifiers together with a cursor into that list. The gateway forwards
//! in-transit packets to the next hop, delivers packets addressed to this
//! node to the local receiving logic, and synthesizes negative
//! acknowledgments when a route is broken. The transmission handler drives
//! outbound fragments under a sliding window, one retry task per in-flight
//! fragment.

pub mod packet;
pub mod gateway;
pub mod transmission_handler;
