//! Events handed to the DHT engine.
use vstd::prelude::*;

use crate::message::{KadError, KadRequestMsg, KadResponseMsg};
use crate::peer::{KadPeer, PeerId};
use crate::record::{Key, Record};

verus! {

/// The sending half of a single-use channel of futures.
#[verifier::external_type_specification]
#[verifier::external_body]
#[verifier::reject_recursive_types(T)]
pub struct ExOneshotSender<T>(futures::channel::oneshot::Sender<T>);

/// The sending half of an unbounded queue of futures.
#[verifier::external_type_specification]
#[verifier::external_body]
#[verifier::reject_recursive_types(T)]
pub struct ExUnboundedSender<T>(futures::channel::mpsc::UnboundedSender<T>);

/// Relies on `Clone` for `futures::channel::mpsc::UnboundedSender`: another
/// handle on the same queue. Nothing is stated of it.
pub assume_specification<T>[ <futures::channel::mpsc::UnboundedSender<T> as Clone>::clone ](
    s: &futures::channel::mpsc::UnboundedSender<T>,
) -> futures::channel::mpsc::UnboundedSender<T>;

/// What the engine answers to an inbound request: a response, nothing (a
/// fire-and-forget request such as `AddProvider`), or an error.
pub type KadReply = Result<Option<KadResponseMsg>, KadError>;

/// Single-use channel on which the engine answers an inbound request.
pub type ReplySender = futures::channel::oneshot::Sender<KadReply>;

/// Event produced by the Kademlia handler.
#[derive(Debug)]
pub enum ProtocolEvent<TUserData> {
    /// A connection to the peer was opened.
    PeerConnected(PeerId),
    /// A connection to the peer was closed.
    PeerDisconnected(PeerId),
    /// A peer became known; `true` when it was observed during a query.
    KadPeerFound(PeerId, bool),
    /// A peer stopped being reachable during a query.
    KadPeerStopped(PeerId),
    /// The configured protocol was negotiated on a substream for the first time.
    ProtocolConfirmed { endpoint: u32 },
    /// A request from a remote peer, awaiting an answer on `reply`.
    KadRequest {
        /// The decoded request.
        request: KadRequestMsg,
        /// The remote peer that sent it.
        source: PeerId,
        /// Where the engine answers.
        reply: ReplySender,
    },
    /// Answer to an outbound `FindNode`.
    FindNodeRes { closer_peers: Vec<KadPeer>, user_data: TUserData },
    /// Answer to an outbound `GetProviders`.
    GetProvidersRes {
        closer_peers: Vec<KadPeer>,
        provider_peers: Vec<KadPeer>,
        user_data: TUserData,
    },
    /// An outbound query failed.
    QueryError { error: KadError, user_data: TUserData },
    /// Answer to an outbound `GetValue`.
    GetRecordRes { record: Option<Record>, closer_peers: Vec<KadPeer>, user_data: TUserData },
    /// Answer to an outbound `PutValue`.
    PutRecordRes { key: Key, value: Vec<u8>, user_data: TUserData },
}

/// The error reported for a `Pong` that answers an outbound query.
pub const UNEXPECTED_PONG: &'static str = "We never send out pings";

/// Turns the response to one of our requests into the event for the engine,
/// carrying the caller's `user_data`. We never send pings, so a `Pong` is a
/// query error.
pub fn process_kad_response<TUserData>(event: KadResponseMsg, user_data: TUserData) -> (r:
    ProtocolEvent<TUserData>)
    ensures
        match event {
            KadResponseMsg::Pong => r matches ProtocolEvent::QueryError {
                error: KadError::UnexpectedMessage(m),
                user_data: u,
            } && m == UNEXPECTED_PONG && u == user_data,
            KadResponseMsg::FindNode { closer_peers } => r == (ProtocolEvent::FindNodeRes {
                closer_peers,
                user_data,
            }),
            KadResponseMsg::GetProviders { closer_peers, provider_peers } => r == (
            ProtocolEvent::GetProvidersRes { closer_peers, provider_peers, user_data }),
            KadResponseMsg::GetValue { record, closer_peers } => r == (
            ProtocolEvent::GetRecordRes { record, closer_peers, user_data }),
            KadResponseMsg::PutValue { key, value } => r == (ProtocolEvent::PutRecordRes {
                key,
                value,
                user_data,
            }),
        },
{
    match event {
        KadResponseMsg::Pong => ProtocolEvent::QueryError {
            error: KadError::UnexpectedMessage(UNEXPECTED_PONG),
            user_data,
        },
        KadResponseMsg::FindNode { closer_peers } => ProtocolEvent::FindNodeRes {
            closer_peers,
            user_data,
        },
        KadResponseMsg::GetProviders { closer_peers, provider_peers } =>
            ProtocolEvent::GetProvidersRes { closer_peers, provider_peers, user_data },
        KadResponseMsg::GetValue { record, closer_peers } => ProtocolEvent::GetRecordRes {
            record,
            closer_peers,
            user_data,
        },
        KadResponseMsg::PutValue { key, value } => ProtocolEvent::PutRecordRes {
            key,
            value,
            user_data,
        },
    }
}

} // verus!
