//! The wire schema: the fields of a Kademlia message as they are serialized.
use vstd::prelude::*;

verus! {

/// Cluster level written on every request.
pub const REQUEST_CLUSTER_LEVEL: i32 = 10;

/// Cluster level written on every response but `Pong`.
pub const RESPONSE_CLUSTER_LEVEL: i32 = 9;

/// The kind of a wire message.
#[derive(Clone, Copy, Debug, PartialEq, Eq, Hash, Structural)]
pub enum MessageType {
    Ping,
    PutValue,
    GetValue,
    AddProvider,
    GetProviders,
    FindNode,
}

/// The wire code of a message type.
pub open spec fn message_type_code(t: MessageType) -> i32 {
    match t {
        MessageType::PutValue => 1,
        MessageType::GetValue => 2,
        MessageType::AddProvider => 3,
        MessageType::GetProviders => 4,
        MessageType::FindNode => 5,
        MessageType::Ping => 0,
    }
}

/// The message type of a wire code, if the code is known.
pub open spec fn message_type_of_code(code: i32) -> Option<MessageType> {
    if code == 0 {
        Some(MessageType::Ping)
    } else if code == 1 {
        Some(MessageType::PutValue)
    } else if code == 2 {
        Some(MessageType::GetValue)
    } else if code == 3 {
        Some(MessageType::AddProvider)
    } else if code == 4 {
        Some(MessageType::GetProviders)
    } else if code == 5 {
        Some(MessageType::FindNode)
    } else {
        None
    }
}

impl MessageType {
    /// The message type of a wire code; `None` for an unknown code.
    pub fn from_i32(code: i32) -> (r: Option<MessageType>)
        ensures
            r == message_type_of_code(code),
    {
        match code {
            1 => Some(MessageType::PutValue),
            2 => Some(MessageType::GetValue),
            3 => Some(MessageType::AddProvider),
            4 => Some(MessageType::GetProviders),
            5 => Some(MessageType::FindNode),
            0 => Some(MessageType::Ping),
            _ => None,
        }
    }

    /// The wire code of this message type.
    pub fn to_i32(self) -> (r: i32)
        ensures
            r == message_type_code(self),
            message_type_of_code(r) == Some(self),
    {
        match self {
            MessageType::PutValue => 1,
            MessageType::GetValue => 2,
            MessageType::AddProvider => 3,
            MessageType::GetProviders => 4,
            MessageType::FindNode => 5,
            MessageType::Ping => 0,
        }
    }
}

/// The byte strings of a list of byte strings.
pub open spec fn bytes_list_view(v: Seq<Vec<u8>>) -> Seq<Seq<u8>> {
    v.map_values(|b: Vec<u8>| b@)
}

/// A peer entry as it stands on the wire.
pub struct ProtoPeerView {
    pub id: Seq<u8>,
    pub addrs: Seq<Seq<u8>>,
    pub connection: i32,
}

/// A peer entry of a wire message.
#[derive(Clone, Debug, PartialEq, Eq, Default)]
pub struct ProtoPeer {
    /// Byte form of the peer identifier.
    pub id: Vec<u8>,
    /// Byte forms of the peer's addresses.
    pub addrs: Vec<Vec<u8>>,
    /// Connection type code.
    pub connection: i32,
}

impl View for ProtoPeer {
    type V = ProtoPeerView;

    open spec fn view(&self) -> ProtoPeerView {
        ProtoPeerView { id: self.id@, addrs: bytes_list_view(self.addrs@), connection: self.connection }
    }
}

/// The entries of a list of wire peers.
pub open spec fn proto_peers_view(v: Seq<ProtoPeer>) -> Seq<ProtoPeerView> {
    v.map_values(|p: ProtoPeer| p@)
}

/// A record as it stands on the wire.
pub struct ProtoRecordView {
    pub key: Seq<u8>,
    pub value: Seq<u8>,
    pub publisher: Seq<u8>,
    pub ttl: u32,
    pub time_received: Seq<char>,
}

/// The record with every field at its default.
pub open spec fn default_proto_record() -> ProtoRecordView {
    ProtoRecordView { key: seq![], value: seq![], publisher: seq![], ttl: 0, time_received: seq![] }
}

/// A record of a wire message.
#[derive(Clone, Debug, PartialEq, Eq, Default)]
pub struct ProtoRecord {
    pub key: Vec<u8>,
    pub value: Vec<u8>,
    /// Byte form of the publisher's identifier; empty when there is none.
    pub publisher: Vec<u8>,
    /// Seconds the record lives; 0 means it does not expire.
    pub ttl: u32,
    pub time_received: String,
}

impl View for ProtoRecord {
    type V = ProtoRecordView;

    open spec fn view(&self) -> ProtoRecordView {
        ProtoRecordView {
            key: self.key@,
            value: self.value@,
            publisher: self.publisher@,
            ttl: self.ttl,
            time_received: self.time_received@,
        }
    }
}

/// A Kademlia message as it stands on the wire.
pub struct ProtoMessageView {
    pub msg_type: i32,
    pub cluster_level_raw: i32,
    pub key: Seq<u8>,
    pub record: Option<ProtoRecordView>,
    pub closer_peers: Seq<ProtoPeerView>,
    pub provider_peers: Seq<ProtoPeerView>,
}

/// A Kademlia message of the wire schema.
#[derive(Clone, Debug, PartialEq, Eq, Default)]
pub struct ProtoMessage {
    /// Message type code.
    pub msg_type: i32,
    /// Historical field kept for compatibility.
    pub cluster_level_raw: i32,
    pub key: Vec<u8>,
    pub record: Option<ProtoRecord>,
    pub closer_peers: Vec<ProtoPeer>,
    pub provider_peers: Vec<ProtoPeer>,
}

impl View for ProtoMessage {
    type V = ProtoMessageView;

    open spec fn view(&self) -> ProtoMessageView {
        ProtoMessageView {
            msg_type: self.msg_type,
            cluster_level_raw: self.cluster_level_raw,
            key: self.key@,
            record: match self.record {
                Some(r) => Some(r@),
                None => None,
            },
            closer_peers: proto_peers_view(self.closer_peers@),
            provider_peers: proto_peers_view(self.provider_peers@),
        }
    }
}

} // verus!
