//! Single-decree Paxos: the messages, the per-node state machine, the
//! length-prefixed framing and retry rules of the transport, and the
//! dispatch of an inbound message to its transition.

pub mod command;
pub mod network;
pub mod paxos_message;
pub mod paxos_node;
pub mod server;
