//! The wire protocol layer of a Kademlia distributed hash table: the message
//! model, its mapping to and from the wire schema, the decisions of the
//! per-substream request loop and of the outbound sender, and the events
//! handed to the DHT engine.

pub mod codec;
pub mod event;
pub mod handler;
pub mod message;
pub mod peer;
pub mod proto;
pub mod record;
