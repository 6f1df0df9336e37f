//! Kademlia requests and responses, and the errors of this layer.
use vstd::prelude::*;

use crate::peer::{KadPeer, PeerView, peers_view, peers_wf};
use crate::record::{Key, Record, RecordView};

verus! {

/// Why a wire message does not decode into a request or response.
#[derive(Clone, Copy, Debug, PartialEq, Eq, Structural)]
pub enum DecodeError {
    /// The message type code is not one of the known kinds.
    UnknownMessageType(i32),
    /// A peer identifier does not parse.
    InvalidPeerId,
    /// A multi-address does not parse.
    InvalidMultiaddr,
    /// A connection type code is not one of the known kinds.
    UnknownConnectionType(i32),
    /// An `AddProvider` request carries no provider entry that parses.
    NoValidProvider,
    /// A record's publisher field is not empty and does not parse.
    InvalidPublisher,
    /// A `PutValue` response carries no record.
    MissingRecord,
    /// An `AddProvider` message arrived as a response.
    UnexpectedAddProvider,
}

/// Errors of the Kademlia protocol layer.
#[derive(Clone, Debug, PartialEq, Eq)]
pub enum KadError {
    /// The bytes of a frame are not a wire message.
    Decode,
    /// A wire message does not decode into a request or response.
    InvalidData(DecodeError),
    /// A message of the wrong kind arrived.
    UnexpectedMessage(&'static str),
    /// A frame is larger than allowed.
    MaxPacketSize,
    /// Reading or writing the substream failed.
    Io,
    /// The event queue or a reply channel is closed.
    Closed,
}

/// What a request denotes.
pub enum RequestView {
    Ping,
    FindNode { key: Seq<u8> },
    GetProviders { key: Seq<u8> },
    AddProvider { key: Seq<u8>, provider: PeerView },
    GetValue { key: Seq<u8> },
    PutValue { record: RecordView },
}

/// Request that we can send to a peer or that we received from a peer.
#[derive(Clone, Debug, PartialEq, Eq)]
pub enum KadRequestMsg {
    /// Ping request.
    Ping,
    /// Request for the nodes whose identifiers are closest to `key`.
    FindNode { key: Key },
    /// Same as `FindNode`, but also asks for the providers of `key`.
    GetProviders { key: Key },
    /// Announces a provider for `key`.
    AddProvider { key: Key, provider: KadPeer },
    /// Asks for the record stored under `key`.
    GetValue { key: Key },
    /// Asks the peer to store a record.
    PutValue { record: Record },
}

impl View for KadRequestMsg {
    type V = RequestView;

    open spec fn view(&self) -> RequestView {
        match self {
            KadRequestMsg::Ping => RequestView::Ping,
            KadRequestMsg::FindNode { key } => RequestView::FindNode { key: key@ },
            KadRequestMsg::GetProviders { key } => RequestView::GetProviders { key: key@ },
            KadRequestMsg::AddProvider { key, provider } => RequestView::AddProvider {
                key: key@,
                provider: provider@,
            },
            KadRequestMsg::GetValue { key } => RequestView::GetValue { key: key@ },
            KadRequestMsg::PutValue { record } => RequestView::PutValue { record: record@ },
        }
    }
}

impl KadRequestMsg {
    /// Every peer and record that the request carries is well formed.
    pub open spec fn wf(&self) -> bool {
        match self {
            KadRequestMsg::AddProvider { provider, .. } => provider.wf(),
            KadRequestMsg::PutValue { record } => record.wf(),
            _ => true,
        }
    }
}

/// What a response denotes.
pub enum ResponseView {
    Pong,
    FindNode { closer_peers: Seq<PeerView> },
    GetProviders { closer_peers: Seq<PeerView>, provider_peers: Seq<PeerView> },
    GetValue { record: Option<RecordView>, closer_peers: Seq<PeerView> },
    PutValue { key: Seq<u8>, value: Seq<u8> },
}

/// Response that we can send to a peer or that we received from a peer.
#[derive(Clone, Debug, PartialEq, Eq)]
pub enum KadResponseMsg {
    /// Ping response.
    Pong,
    /// Response to a `FindNode`.
    FindNode { closer_peers: Vec<KadPeer> },
    /// Response to a `GetProviders`.
    GetProviders { closer_peers: Vec<KadPeer>, provider_peers: Vec<KadPeer> },
    /// Response to a `GetValue`.
    GetValue { record: Option<Record>, closer_peers: Vec<KadPeer> },
    /// Response to a `PutValue`.
    PutValue { key: Key, value: Vec<u8> },
}

/// What an optional record denotes.
pub open spec fn opt_record_view(r: Option<Record>) -> Option<RecordView> {
    match r {
        Some(r) => Some(r@),
        None => None,
    }
}

impl View for KadResponseMsg {
    type V = ResponseView;

    open spec fn view(&self) -> ResponseView {
        match self {
            KadResponseMsg::Pong => ResponseView::Pong,
            KadResponseMsg::FindNode { closer_peers } => ResponseView::FindNode {
                closer_peers: peers_view(closer_peers@),
            },
            KadResponseMsg::GetProviders { closer_peers, provider_peers } =>
                ResponseView::GetProviders {
                    closer_peers: peers_view(closer_peers@),
                    provider_peers: peers_view(provider_peers@),
                },
            KadResponseMsg::GetValue { record, closer_peers } => ResponseView::GetValue {
                record: opt_record_view(*record),
                closer_peers: peers_view(closer_peers@),
            },
            KadResponseMsg::PutValue { key, value } => ResponseView::PutValue {
                key: key@,
                value: value@,
            },
        }
    }
}

impl KadResponseMsg {
    /// Every peer and record that the response carries is well formed.
    pub open spec fn wf(&self) -> bool {
        match self {
            KadResponseMsg::FindNode { closer_peers } => peers_wf(closer_peers@),
            KadResponseMsg::GetProviders { closer_peers, provider_peers } =>
                peers_wf(closer_peers@) && peers_wf(provider_peers@),
            KadResponseMsg::GetValue { record, closer_peers } =>
                peers_wf(closer_peers@) && match record {
                    Some(r) => r.wf(),
                    None => true,
                },
            _ => true,
        }
    }
}

} // verus!
