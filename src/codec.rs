//! Conversions between the message model and the wire schema.
//!
//! Encoding is total. Decoding is strict where a request must name a peer
//! (the provider of `AddProvider`) or carry a record (the `PutValue`
//! response), and tolerant on the peer lists of responses, where entries that
//! do not parse are dropped.
use vstd::prelude::*;

use crate::message::{
    DecodeError, KadRequestMsg, KadResponseMsg, RequestView, ResponseView,
};
use crate::peer::{
    KadConnectionType, KadPeer, Multiaddr, PeerId, PeerView, addrs_view, connection_code,
    connection_of_code, is_valid_multiaddr, is_valid_peer_id, peers_view, peers_wf,
};
use crate::proto::{
    MessageType, ProtoMessage, ProtoMessageView, ProtoPeer, ProtoPeerView, ProtoRecord,
    ProtoRecordView, REQUEST_CLUSTER_LEVEL, RESPONSE_CLUSTER_LEVEL, bytes_list_view,
    default_proto_record, message_type_code, message_type_of_code, proto_peers_view,
};
use crate::record::{Key, Record, RecordView};

verus! {

// ---------------------------------------------------------------------------
// Peers

/// The wire entry of a peer.
pub open spec fn peer_to_proto_view(p: PeerView) -> ProtoPeerView {
    ProtoPeerView { id: p.id, addrs: p.addrs, connection: connection_code(p.connection) }
}

/// The wire entries of a list of peers, in order.
pub open spec fn peers_to_proto_view(ps: Seq<PeerView>) -> Seq<ProtoPeerView> {
    ps.map_values(|p: PeerView| peer_to_proto_view(p))
}

/// What a wire peer entry decodes to: its identifier is checked first, then
/// its addresses in order, then its connection code.
pub open spec fn decode_peer(w: ProtoPeerView) -> Result<PeerView, DecodeError> {
    if !is_valid_peer_id(w.id) {
        Err(DecodeError::InvalidPeerId)
    } else if exists|i: int| 0 <= i < w.addrs.len() && !is_valid_multiaddr(#[trigger] w.addrs[i]) {
        Err(DecodeError::InvalidMultiaddr)
    } else {
        match connection_of_code(w.connection) {
            Some(c) => Ok(PeerView { id: w.id, addrs: w.addrs, connection: c }),
            None => Err(DecodeError::UnknownConnectionType(w.connection)),
        }
    }
}

/// Tolerant list decoding: the entries that decode, in order; the others are
/// dropped.
pub open spec fn decode_peers_tolerant(ws: Seq<ProtoPeerView>) -> Seq<PeerView>
    decreases ws.len(),
{
    if ws.len() == 0 {
        seq![]
    } else {
        let prev = decode_peers_tolerant(ws.drop_last());
        match decode_peer(ws.last()) {
            Ok(p) => prev.push(p),
            Err(_) => prev,
        }
    }
}

/// The first entry of the list that decodes, if any.
pub open spec fn first_valid_peer(ws: Seq<ProtoPeerView>) -> Option<PeerView>
    decreases ws.len(),
{
    if ws.len() == 0 {
        None
    } else {
        match decode_peer(ws[0]) {
            Ok(p) => Some(p),
            Err(_) => first_valid_peer(ws.drop_first()),
        }
    }
}

impl KadPeer {
    /// Builds a peer descriptor from its wire entry.
    pub fn try_from_proto(peer: &ProtoPeer) -> (r: Result<KadPeer, DecodeError>)
        ensures
            match decode_peer(peer@) {
                Ok(v) => r matches Ok(p) && p@ == v && p.wf(),
                Err(e) => r == Err::<KadPeer, DecodeError>(e),
            },
    {
        let node_id = match PeerId::from_bytes(peer.id.clone()) {
            Ok(id) => id,
            Err(_) => {
                return Err(DecodeError::InvalidPeerId);
            },
        };
        let mut addrs: Vec<Multiaddr> = Vec::new();
        let mut i: usize = 0;
        while i < peer.addrs.len()
            invariant
                i <= peer.addrs.len(),
                addrs@.len() == i,
                node_id@ == peer.id@,
                node_id.wf(),
                forall|j: int| 0 <= j < i ==> (#[trigger] addrs@[j])@ == peer.addrs@[j]@,
                forall|j: int| 0 <= j < i ==> is_valid_multiaddr(#[trigger] peer.addrs@[j]@),
            decreases peer.addrs.len() - i,
        {
            match Multiaddr::from_bytes(peer.addrs[i].clone()) {
                Ok(a) => {
                    addrs.push(a);
                },
                Err(_) => {
                    assert(!is_valid_multiaddr(peer@.addrs[i as int]));
                    return Err(DecodeError::InvalidMultiaddr);
                },
            }
            i = i + 1;
        }
        assert(addrs_view(addrs@) =~= peer@.addrs);
        assert(forall|j: int|
            0 <= j < peer@.addrs.len() ==> is_valid_multiaddr(#[trigger] peer@.addrs[j]));
        match KadConnectionType::from_i32(peer.connection) {
            Some(c) => Ok(KadPeer { node_id, multiaddrs: addrs, connection_ty: c }),
            None => Err(DecodeError::UnknownConnectionType(peer.connection)),
        }
    }

    /// The wire entry of this peer descriptor.
    pub fn to_proto(&self) -> (r: ProtoPeer)
        ensures
            r@ == peer_to_proto_view(self@),
    {
        let mut addrs: Vec<Vec<u8>> = Vec::new();
        let mut i: usize = 0;
        while i < self.multiaddrs.len()
            invariant
                i <= self.multiaddrs.len(),
                addrs@.len() == i,
                forall|j: int| 0 <= j < i ==> (#[trigger] addrs@[j])@ == self.multiaddrs@[j]@,
            decreases self.multiaddrs.len() - i,
        {
            addrs.push(self.multiaddrs[i].to_vec());
            i = i + 1;
        }
        assert(bytes_list_view(addrs@) =~= addrs_view(self.multiaddrs@));
        ProtoPeer { id: self.node_id.to_bytes(), addrs, connection: self.connection_ty.to_i32() }
    }
}

/// The wire entries of a list of peers, in order.
pub fn peers_to_proto(peers: &Vec<KadPeer>) -> (r: Vec<ProtoPeer>)
    ensures
        proto_peers_view(r@) == peers_to_proto_view(peers_view(peers@)),
{
    let mut out: Vec<ProtoPeer> = Vec::new();
    let mut i: usize = 0;
    while i < peers.len()
        invariant
            i <= peers.len(),
            out@.len() == i,
            forall|j: int| 0 <= j < i ==> (#[trigger] out@[j])@ == peer_to_proto_view(peers@[j]@),
        decreases peers.len() - i,
    {
        out.push(peers[i].to_proto());
        i = i + 1;
    }
    assert(proto_peers_view(out@) =~= peers_to_proto_view(peers_view(peers@)));
    out
}

/// Decodes a peer list tolerantly: entries that do not parse are dropped and
/// the others keep their order.
pub fn peers_from_proto_tolerant(entries: &Vec<ProtoPeer>) -> (r: Vec<KadPeer>)
    ensures
        peers_view(r@) == decode_peers_tolerant(proto_peers_view(entries@)),
        peers_wf(r@),
{
    let ghost ws = proto_peers_view(entries@);
    let mut out: Vec<KadPeer> = Vec::new();
    let mut i: usize = 0;
    while i < entries.len()
        invariant
            i <= entries.len(),
            ws == proto_peers_view(entries@),
            peers_view(out@) == decode_peers_tolerant(ws.take(i as int)),
            peers_wf(out@),
        decreases entries.len() - i,
    {
        assert(ws.take(i + 1).drop_last() =~= ws.take(i as int));
        assert(ws.take(i + 1).last() == entries@[i as int]@);
        match KadPeer::try_from_proto(&entries[i]) {
            Ok(p) => {
                let ghost prev = out@;
                out.push(p);
                assert(peers_view(out@) =~= peers_view(prev).push(p@));
            },
            Err(_) => {},
        }
        i = i + 1;
    }
    assert(ws.take(entries.len() as int) =~= ws);
    out
}

/// The first entry of the list that parses, if any.
pub fn first_valid_provider(entries: &Vec<ProtoPeer>) -> (r: Option<KadPeer>)
    ensures
        match first_valid_peer(proto_peers_view(entries@)) {
            Some(v) => r matches Some(p) && p@ == v && p.wf(),
            None => r is None,
        },
{
    let ghost ws = proto_peers_view(entries@);
    assert(ws.skip(0) =~= ws);
    let mut i: usize = 0;
    while i < entries.len()
        invariant
            i <= entries.len(),
            ws == proto_peers_view(entries@),
            first_valid_peer(ws) == first_valid_peer(ws.skip(i as int)),
        decreases entries.len() - i,
    {
        assert(ws.skip(i as int).drop_first() =~= ws.skip(i + 1));
        assert(ws.skip(i as int)[0] == entries@[i as int]@);
        match KadPeer::try_from_proto(&entries[i]) {
            Ok(p) => {
                return Some(p);
            },
            Err(_) => {},
        }
        i = i + 1;
    }
    assert(ws.skip(i as int).len() == 0);
    None
}

// ---------------------------------------------------------------------------
// Records

/// Milliseconds in a second.
pub const MILLIS_PER_SEC: u64 = 1000;

/// The `ttl` field for an expiry, `now` being the current instant: 0 for no
/// expiry; otherwise the whole seconds left, at least 1 (0 would read as "no
/// expiry") and at most `u32::MAX`.
pub open spec fn ttl_of(expires: Option<u64>, now: u64) -> u32 {
    match expires {
        None => 0,
        Some(t) => if t > now {
            let secs = (t - now) / (MILLIS_PER_SEC as int);
            if secs == 0 {
                1
            } else if secs > u32::MAX {
                u32::MAX
            } else {
                secs as u32
            }
        } else {
            1
        },
    }
}

/// The expiry that a `ttl` field gives, `now` being the current instant:
/// none for 0, else `now` plus that many seconds, capped at the clock's end.
pub open spec fn expires_of(ttl: u32, now: u64) -> Option<u64> {
    if ttl == 0 {
        None
    } else {
        let t = now + ttl * (MILLIS_PER_SEC as int);
        Some(if t > u64::MAX { u64::MAX } else { t as u64 })
    }
}

/// The wire form of a record; an absent publisher is written empty.
pub open spec fn record_to_proto_view(r: RecordView, now: u64) -> ProtoRecordView {
    ProtoRecordView {
        key: r.key,
        value: r.value,
        publisher: match r.publisher {
            Some(p) => p,
            None => seq![],
        },
        ttl: ttl_of(r.expires, now),
        time_received: seq![],
    }
}

/// What a wire record decodes to: an empty publisher field means none, any
/// other must parse.
pub open spec fn decode_record(w: ProtoRecordView, now: u64) -> Result<RecordView, DecodeError> {
    if w.publisher.len() > 0 && !is_valid_peer_id(w.publisher) {
        Err(DecodeError::InvalidPublisher)
    } else {
        Ok(
            RecordView {
                key: w.key,
                value: w.value,
                publisher: if w.publisher.len() > 0 {
                    Some(w.publisher)
                } else {
                    None
                },
                expires: expires_of(w.ttl, now),
            },
        )
    }
}

/// The `ttl` field for an expiry; see `ttl_of`.
pub fn ttl_from_expiry(expires: Option<u64>, now: u64) -> (r: u32)
    ensures
        r == ttl_of(expires, now),
{
    match expires {
        None => 0,
        Some(t) => if t > now {
            let secs: u64 = (t - now) / MILLIS_PER_SEC;
            if secs == 0 {
                1
            } else if secs > u32::MAX as u64 {
                u32::MAX
            } else {
                secs as u32
            }
        } else {
            1
        },
    }
}

/// The expiry that a `ttl` field gives; see `expires_of`.
pub fn expiry_from_ttl(ttl: u32, now: u64) -> (r: Option<u64>)
    ensures
        r == expires_of(ttl, now),
{
    if ttl == 0 {
        None
    } else {
        let d: u64 = ttl as u64 * MILLIS_PER_SEC;
        if now > u64::MAX - d {
            Some(u64::MAX)
        } else {
            Some(now + d)
        }
    }
}

/// Builds a record from its wire form, `now` being the current instant.
pub fn record_from_proto(record: &ProtoRecord, now: u64) -> (r: Result<Record, DecodeError>)
    ensures
        match decode_record(record@, now) {
            Ok(v) => r matches Ok(rec) && rec@ == v && rec.wf(),
            Err(e) => r == Err::<Record, DecodeError>(e),
        },
{
    let publisher = if record.publisher.len() > 0 {
        match PeerId::from_bytes(record.publisher.clone()) {
            Ok(p) => Some(p),
            Err(_) => {
                return Err(DecodeError::InvalidPublisher);
            },
        }
    } else {
        None
    };
    Ok(
        Record {
            key: Key::new(record.key.clone()),
            value: record.value.clone(),
            publisher,
            expires: expiry_from_ttl(record.ttl, now),
        },
    )
}

/// The wire form of a record, `now` being the current instant.
pub fn record_to_proto(record: &Record, now: u64) -> (r: ProtoRecord)
    ensures
        r@ == record_to_proto_view(record@, now),
{
    let publisher = match &record.publisher {
        Some(p) => p.to_bytes(),
        None => Vec::new(),
    };
    let r = ProtoRecord {
        key: record.key.to_vec(),
        value: record.value.clone(),
        publisher,
        ttl: ttl_from_expiry(record.expires, now),
        time_received: String::new(),
    };
    assert(r@.time_received =~= Seq::<char>::empty());
    r
}

// ---------------------------------------------------------------------------
// Messages

/// A wire message with the given fields.
pub open spec fn message_view(
    t: MessageType,
    cluster_level_raw: i32,
    key: Seq<u8>,
    record: Option<ProtoRecordView>,
    closer_peers: Seq<ProtoPeerView>,
    provider_peers: Seq<ProtoPeerView>,
) -> ProtoMessageView {
    ProtoMessageView {
        msg_type: message_type_code(t),
        cluster_level_raw,
        key,
        record,
        closer_peers,
        provider_peers,
    }
}

/// The wire form of a request. Every request carries cluster level 10;
/// `AddProvider` lists its provider among the provider peers; `PutValue`
/// carries its record and no key.
pub open spec fn request_to_proto(r: RequestView, now: u64) -> ProtoMessageView {
    let lvl = REQUEST_CLUSTER_LEVEL;
    match r {
        RequestView::Ping => message_view(MessageType::Ping, lvl, seq![], None, seq![], seq![]),
        RequestView::FindNode { key } => message_view(
            MessageType::FindNode,
            lvl,
            key,
            None,
            seq![],
            seq![],
        ),
        RequestView::GetProviders { key } => message_view(
            MessageType::GetProviders,
            lvl,
            key,
            None,
            seq![],
            seq![],
        ),
        RequestView::AddProvider { key, provider } => message_view(
            MessageType::AddProvider,
            lvl,
            key,
            None,
            seq![],
            seq![peer_to_proto_view(provider)],
        ),
        RequestView::GetValue { key } => message_view(
            MessageType::GetValue,
            lvl,
            key,
            None,
            seq![],
            seq![],
        ),
        RequestView::PutValue { record } => message_view(
            MessageType::PutValue,
            lvl,
            seq![],
            Some(record_to_proto_view(record, now)),
            seq![],
            seq![],
        ),
    }
}

/// The wire form of an optional record.
pub open spec fn opt_record_to_proto_view(r: Option<RecordView>, now: u64) -> Option<
    ProtoRecordView,
> {
    match r {
        Some(r) => Some(record_to_proto_view(r, now)),
        None => None,
    }
}

/// The wire form of a response. `Pong` is an empty `Ping` message; every
/// other response carries cluster level 9; `PutValue` carries its key both
/// at the top and in a record with the value.
pub open spec fn response_to_proto(r: ResponseView, now: u64) -> ProtoMessageView {
    let lvl = RESPONSE_CLUSTER_LEVEL;
    match r {
        ResponseView::Pong => message_view(MessageType::Ping, 0, seq![], None, seq![], seq![]),
        ResponseView::FindNode { closer_peers } => message_view(
            MessageType::FindNode,
            lvl,
            seq![],
            None,
            peers_to_proto_view(closer_peers),
            seq![],
        ),
        ResponseView::GetProviders { closer_peers, provider_peers } => message_view(
            MessageType::GetProviders,
            lvl,
            seq![],
            None,
            peers_to_proto_view(closer_peers),
            peers_to_proto_view(provider_peers),
        ),
        ResponseView::GetValue { record, closer_peers } => message_view(
            MessageType::GetValue,
            lvl,
            seq![],
            opt_record_to_proto_view(record, now),
            peers_to_proto_view(closer_peers),
            seq![],
        ),
        ResponseView::PutValue { key, value } => message_view(
            MessageType::PutValue,
            lvl,
            key,
            Some(ProtoRecordView { key, value, ..default_proto_record() }),
            seq![],
            seq![],
        ),
    }
}

/// What a wire message decodes to as a request.
pub open spec fn decode_request(m: ProtoMessageView, now: u64) -> Result<RequestView, DecodeError> {
    match message_type_of_code(m.msg_type) {
        None => Err(DecodeError::UnknownMessageType(m.msg_type)),
        Some(MessageType::Ping) => Ok(RequestView::Ping),
        Some(MessageType::PutValue) => {
            let w = match m.record {
                Some(w) => w,
                None => default_proto_record(),
            };
            match decode_record(w, now) {
                Ok(record) => Ok(RequestView::PutValue { record }),
                Err(e) => Err(e),
            }
        },
        Some(MessageType::GetValue) => Ok(RequestView::GetValue { key: m.key }),
        Some(MessageType::FindNode) => Ok(RequestView::FindNode { key: m.key }),
        Some(MessageType::GetProviders) => Ok(RequestView::GetProviders { key: m.key }),
        Some(MessageType::AddProvider) => match first_valid_peer(m.provider_peers) {
            Some(provider) => Ok(RequestView::AddProvider { key: m.key, provider }),
            None => Err(DecodeError::NoValidProvider),
        },
    }
}

/// What a wire message decodes to as a response.
pub open spec fn decode_response(m: ProtoMessageView, now: u64) -> Result<ResponseView, DecodeError> {
    match message_type_of_code(m.msg_type) {
        None => Err(DecodeError::UnknownMessageType(m.msg_type)),
        Some(MessageType::Ping) => Ok(ResponseView::Pong),
        Some(MessageType::GetValue) => {
            let closer_peers = decode_peers_tolerant(m.closer_peers);
            match m.record {
                None => Ok(ResponseView::GetValue { record: None, closer_peers }),
                Some(w) => match decode_record(w, now) {
                    Ok(r) => Ok(ResponseView::GetValue { record: Some(r), closer_peers }),
                    Err(e) => Err(e),
                },
            }
        },
        Some(MessageType::FindNode) => Ok(
            ResponseView::FindNode { closer_peers: decode_peers_tolerant(m.closer_peers) },
        ),
        Some(MessageType::GetProviders) => Ok(
            ResponseView::GetProviders {
                closer_peers: decode_peers_tolerant(m.closer_peers),
                provider_peers: decode_peers_tolerant(m.provider_peers),
            },
        ),
        Some(MessageType::PutValue) => match m.record {
            Some(w) => Ok(ResponseView::PutValue { key: m.key, value: w.value }),
            None => Err(DecodeError::MissingRecord),
        },
        Some(MessageType::AddProvider) => Err(DecodeError::UnexpectedAddProvider),
    }
}

/// A wire message of the given type and cluster level with every other field
/// empty.
fn empty_message(t: MessageType, cluster_level_raw: i32) -> (r: ProtoMessage)
    ensures
        r@ == message_view(t, cluster_level_raw, seq![], None, seq![], seq![]),
{
    let r = ProtoMessage {
        msg_type: t.to_i32(),
        cluster_level_raw,
        key: Vec::new(),
        record: None,
        closer_peers: Vec::new(),
        provider_peers: Vec::new(),
    };
    assert(r@.key =~= seq![]);
    assert(r@.closer_peers =~= seq![]);
    assert(r@.provider_peers =~= seq![]);
    r
}

/// Converts a request into the wire message that is sent for it, `now`
/// being the current instant.
pub fn req_msg_to_proto(msg: &KadRequestMsg, now: u64) -> (r: ProtoMessage)
    ensures
        r@ == request_to_proto(msg@, now),
        r.cluster_level_raw == REQUEST_CLUSTER_LEVEL,
{
    let lvl = REQUEST_CLUSTER_LEVEL;
    match msg {
        KadRequestMsg::Ping => empty_message(MessageType::Ping, lvl),
        KadRequestMsg::FindNode { key } => {
            let mut m = empty_message(MessageType::FindNode, lvl);
            m.key = key.to_vec();
            m
        },
        KadRequestMsg::GetProviders { key } => {
            let mut m = empty_message(MessageType::GetProviders, lvl);
            m.key = key.to_vec();
            m
        },
        KadRequestMsg::AddProvider { key, provider } => {
            let mut m = empty_message(MessageType::AddProvider, lvl);
            m.key = key.to_vec();
            m.provider_peers = vec![provider.to_proto()];
            assert(m@.provider_peers =~= seq![peer_to_proto_view(provider@)]);
            m
        },
        KadRequestMsg::GetValue { key } => {
            let mut m = empty_message(MessageType::GetValue, lvl);
            m.key = key.to_vec();
            m
        },
        KadRequestMsg::PutValue { record } => {
            let mut m = empty_message(MessageType::PutValue, lvl);
            m.record = Some(record_to_proto(record, now));
            m
        },
    }
}

/// Converts a response into the wire message that is sent for it, `now`
/// being the current instant.
pub fn resp_msg_to_proto(msg: &KadResponseMsg, now: u64) -> (r: ProtoMessage)
    ensures
        r@ == response_to_proto(msg@, now),
        !(msg is Pong) ==> r.cluster_level_raw == RESPONSE_CLUSTER_LEVEL,
{
    let lvl = RESPONSE_CLUSTER_LEVEL;
    match msg {
        KadResponseMsg::Pong => empty_message(MessageType::Ping, 0),
        KadResponseMsg::FindNode { closer_peers } => {
            let mut m = empty_message(MessageType::FindNode, lvl);
            m.closer_peers = peers_to_proto(closer_peers);
            m
        },
        KadResponseMsg::GetProviders { closer_peers, provider_peers } => {
            let mut m = empty_message(MessageType::GetProviders, lvl);
            m.closer_peers = peers_to_proto(closer_peers);
            m.provider_peers = peers_to_proto(provider_peers);
            m
        },
        KadResponseMsg::GetValue { record, closer_peers } => {
            let mut m = empty_message(MessageType::GetValue, lvl);
            m.closer_peers = peers_to_proto(closer_peers);
            m.record = match record {
                Some(rec) => Some(record_to_proto(rec, now)),
                None => None,
            };
            m
        },
        KadResponseMsg::PutValue { key, value } => {
            let mut m = empty_message(MessageType::PutValue, lvl);
            m.key = key.to_vec();
            let rec = ProtoRecord {
                key: key.to_vec(),
                value: value.clone(),
                publisher: Vec::new(),
                ttl: 0,
                time_received: String::new(),
            };
            assert(rec@.publisher =~= seq![]);
            assert(rec@.time_received =~= seq![]);
            m.record = Some(rec);
            m
        },
    }
}

/// Converts a received wire message into the request it carries, `now`
/// being the current instant.
pub fn proto_to_req_msg(message: &ProtoMessage, now: u64) -> (r: Result<KadRequestMsg, DecodeError>)
    ensures
        match decode_request(message@, now) {
            Ok(v) => r matches Ok(req) && req@ == v && req.wf(),
            Err(e) => r == Err::<KadRequestMsg, DecodeError>(e),
        },
{
    let msg_type = match MessageType::from_i32(message.msg_type) {
        Some(t) => t,
        None => {
            return Err(DecodeError::UnknownMessageType(message.msg_type));
        },
    };
    match msg_type {
        MessageType::Ping => Ok(KadRequestMsg::Ping),
        MessageType::PutValue => {
            let record = match &message.record {
                Some(w) => record_from_proto(w, now),
                None => {
                    let w = ProtoRecord {
                        key: Vec::new(),
                        value: Vec::new(),
                        publisher: Vec::new(),
                        ttl: 0,
                        time_received: String::new(),
                    };
                    assert(w@ =~= default_proto_record());
                    record_from_proto(&w, now)
                },
            };
            match record {
                Ok(record) => Ok(KadRequestMsg::PutValue { record }),
                Err(e) => Err(e),
            }
        },
        MessageType::GetValue => Ok(KadRequestMsg::GetValue { key: Key::new(message.key.clone()) }),
        MessageType::FindNode => Ok(KadRequestMsg::FindNode { key: Key::new(message.key.clone()) }),
        MessageType::GetProviders => Ok(
            KadRequestMsg::GetProviders { key: Key::new(message.key.clone()) },
        ),
        MessageType::AddProvider => match first_valid_provider(&message.provider_peers) {
            Some(provider) => Ok(
                KadRequestMsg::AddProvider { key: Key::new(message.key.clone()), provider },
            ),
            None => Err(DecodeError::NoValidProvider),
        },
    }
}

/// Converts a received wire message into the response it carries, `now`
/// being the current instant.
pub fn proto_to_resp_msg(message: &ProtoMessage, now: u64) -> (r: Result<KadResponseMsg, DecodeError>)
    ensures
        match decode_response(message@, now) {
            Ok(v) => r matches Ok(resp) && resp@ == v && resp.wf(),
            Err(e) => r == Err::<KadResponseMsg, DecodeError>(e),
        },
{
    let msg_type = match MessageType::from_i32(message.msg_type) {
        Some(t) => t,
        None => {
            return Err(DecodeError::UnknownMessageType(message.msg_type));
        },
    };
    match msg_type {
        MessageType::Ping => Ok(KadResponseMsg::Pong),
        MessageType::GetValue => {
            let record = match &message.record {
                Some(w) => match record_from_proto(w, now) {
                    Ok(rec) => Some(rec),
                    Err(e) => {
                        return Err(e);
                    },
                },
                None => None,
            };
            let closer_peers = peers_from_proto_tolerant(&message.closer_peers);
            Ok(KadResponseMsg::GetValue { record, closer_peers })
        },
        MessageType::FindNode => {
            let closer_peers = peers_from_proto_tolerant(&message.closer_peers);
            Ok(KadResponseMsg::FindNode { closer_peers })
        },
        MessageType::GetProviders => {
            let closer_peers = peers_from_proto_tolerant(&message.closer_peers);
            let provider_peers = peers_from_proto_tolerant(&message.provider_peers);
            Ok(KadResponseMsg::GetProviders { closer_peers, provider_peers })
        },
        MessageType::PutValue => match &message.record {
            Some(rec) => Ok(
                KadResponseMsg::PutValue {
                    key: Key::new(message.key.clone()),
                    value: rec.value.clone(),
                },
            ),
            None => Err(DecodeError::MissingRecord),
        },
        MessageType::AddProvider => Err(DecodeError::UnexpectedAddProvider),
    }
}

// ---------------------------------------------------------------------------
// Round trips

/// An expiry that the whole-second `ttl` field carries exactly: none, or a
/// whole number of seconds after `now` that fits the field.
pub open spec fn expiry_fits_ttl(expires: Option<u64>, now: u64) -> bool {
    match expires {
        None => true,
        Some(t) => t > now && (t - now) % (MILLIS_PER_SEC as int) == 0 && (t - now) / (
        MILLIS_PER_SEC as int) <= u32::MAX,
    }
}

/// A record denotation whose publisher, if any, is a non-empty identifier
/// that parses.
pub open spec fn record_view_valid(r: RecordView) -> bool {
    match r.publisher {
        Some(p) => is_valid_peer_id(p) && p.len() > 0,
        None => true,
    }
}

/// A valid peer decodes back from its wire entry.
pub proof fn lemma_peer_round_trip(p: PeerView)
    requires
        crate::peer::peer_view_valid(p),
    ensures
        decode_peer(peer_to_proto_view(p)) == Ok::<PeerView, DecodeError>(p),
{
    connection_code_round_trip(p.connection);
}

proof fn connection_code_round_trip(c: KadConnectionType)
    ensures
        connection_of_code(connection_code(c)) == Some(c),
{
}

/// A list of valid peers decodes back, tolerantly, from its wire entries:
/// nothing is dropped and the order is kept.
pub proof fn lemma_peers_round_trip(ps: Seq<PeerView>)
    requires
        forall|i: int| 0 <= i < ps.len() ==> crate::peer::peer_view_valid(#[trigger] ps[i]),
    ensures
        decode_peers_tolerant(peers_to_proto_view(ps)) == ps,
    decreases ps.len(),
{
    if ps.len() > 0 {
        let ws = peers_to_proto_view(ps);
        assert(ws.drop_last() =~= peers_to_proto_view(ps.drop_last()));
        lemma_peers_round_trip(ps.drop_last());
        lemma_peer_round_trip(ps.last());
        assert(ps.drop_last().push(ps.last()) =~= ps);
    } else {
        assert(ps =~= seq![]);
    }
}

/// A record decodes back from its wire form, given the same `now`, when its
/// publisher is valid and its expiry fits the `ttl` field.
pub proof fn lemma_record_round_trip(r: RecordView, now: u64)
    requires
        record_view_valid(r),
        expiry_fits_ttl(r.expires, now),
    ensures
        decode_record(record_to_proto_view(r, now), now) == Ok::<RecordView, DecodeError>(r),
{
    match r.expires {
        Some(t) => {
            let secs = (t - now) / (MILLIS_PER_SEC as int);
            assert(secs * (MILLIS_PER_SEC as int) == t - now);
            assert(secs > 0);
        },
        None => {},
    }
}

/// Decoding an encoded request gives the request back, for every request
/// whose peers and records are valid and whose record expiry fits the `ttl`
/// field, encoding and decoding reading the same clock.
pub proof fn lemma_request_round_trip(r: KadRequestMsg, now: u64)
    requires
        r.wf(),
        r matches KadRequestMsg::PutValue { record } ==> expiry_fits_ttl(record.expires, now),
    ensures
        decode_request(request_to_proto(r@, now), now) == Ok::<RequestView, DecodeError>(r@),
{
    match r {
        KadRequestMsg::AddProvider { key, provider } => {
            let ws = seq![peer_to_proto_view(provider@)];
            lemma_peer_round_trip(provider@);
            assert(ws[0] == peer_to_proto_view(provider@));
        },
        KadRequestMsg::PutValue { record } => {
            lemma_record_round_trip(record@, now);
        },
        _ => {},
    }
}

/// Decoding an encoded response gives the response back, for every response
/// whose peers and records are valid and whose record expiry fits the `ttl`
/// field, encoding and decoding reading the same clock.
pub proof fn lemma_response_round_trip(r: KadResponseMsg, now: u64)
    requires
        r.wf(),
        r matches KadResponseMsg::GetValue { record: Some(rec), .. } ==> expiry_fits_ttl(
            rec.expires,
            now,
        ),
    ensures
        decode_response(response_to_proto(r@, now), now) == Ok::<ResponseView, DecodeError>(r@),
{
    match r {
        KadResponseMsg::FindNode { closer_peers } => {
            lemma_peers_wf_valid(closer_peers@);
            lemma_peers_round_trip(peers_view(closer_peers@));
        },
        KadResponseMsg::GetProviders { closer_peers, provider_peers } => {
            lemma_peers_wf_valid(closer_peers@);
            lemma_peers_wf_valid(provider_peers@);
            lemma_peers_round_trip(peers_view(closer_peers@));
            lemma_peers_round_trip(peers_view(provider_peers@));
        },
        KadResponseMsg::GetValue { record, closer_peers } => {
            lemma_peers_wf_valid(closer_peers@);
            lemma_peers_round_trip(peers_view(closer_peers@));
            match record {
                Some(rec) => lemma_record_round_trip(rec@, now),
                None => {},
            }
        },
        _ => {},
    }
}

proof fn lemma_peers_wf_valid(ps: Seq<KadPeer>)
    requires
        peers_wf(ps),
    ensures
        forall|i: int|
            0 <= i < peers_view(ps).len() ==> crate::peer::peer_view_valid(#[trigger] peers_view(ps)[i]),
{
    assert forall|i: int| 0 <= i < peers_view(ps).len() implies crate::peer::peer_view_valid(
        #[trigger] peers_view(ps)[i],
    ) by {
        assert(ps[i].wf());
    }
}

// ---------------------------------------------------------------------------
// Laws of the encoding

/// The cluster level: every encoded request carries 10, every encoded
/// response but `Pong` carries 9.
pub proof fn lemma_cluster_levels(req: RequestView, resp: ResponseView, now: u64)
    ensures
        request_to_proto(req, now).cluster_level_raw == REQUEST_CLUSTER_LEVEL,
        !(resp is Pong) ==> response_to_proto(resp, now).cluster_level_raw
            == RESPONSE_CLUSTER_LEVEL,
{
}

/// The `ttl` mapping: a `ttl` of 0 reads as no expiry and no expiry writes
/// 0; an expiry a whole number of seconds ahead writes that number; an
/// expiry already reached writes 1, never 0.
pub proof fn lemma_ttl_mapping(now: u64, t: u64, secs: u32)
    ensures
        expires_of(0, now) == None::<u64>,
        ttl_of(None, now) == 0,
        t <= now ==> ttl_of(Some(t), now) == 1,
        secs >= 1 && t == now + secs * (MILLIS_PER_SEC as int) ==> ttl_of(Some(t), now) == secs,
        ttl_of(Some(t), now) != 0,
{
    if secs >= 1 && t == now + secs * (MILLIS_PER_SEC as int) {
        assert((t - now) / (MILLIS_PER_SEC as int) == secs);
    }
}

/// The first entry that decodes is absent exactly when no entry decodes.
pub proof fn lemma_first_valid_peer_none(ws: Seq<ProtoPeerView>)
    ensures
        first_valid_peer(ws) is None <==> forall|i: int|
            0 <= i < ws.len() ==> (#[trigger] decode_peer(ws[i])) is Err,
    decreases ws.len(),
{
    if ws.len() > 0 {
        lemma_first_valid_peer_none(ws.drop_first());
        if first_valid_peer(ws) is None {
            assert forall|i: int| 0 <= i < ws.len() implies (#[trigger] decode_peer(ws[i])) is Err by {
                if i > 0 {
                    assert(ws.drop_first()[i - 1] == ws[i]);
                }
            }
        }
        if forall|i: int| 0 <= i < ws.len() ==> (#[trigger] decode_peer(ws[i])) is Err {
            assert forall|i: int| 0 <= i < ws.drop_first().len() implies (#[trigger] decode_peer(
                ws.drop_first()[i],
            )) is Err by {
                assert(ws.drop_first()[i] == ws[i + 1]);
            }
        }
    }
}

/// Strict decoding: an `AddProvider` request none of whose provider entries
/// parses, a `PutValue` response without a record, and a message whose type
/// code is unknown all fail.
pub proof fn lemma_strict_decoding(m: ProtoMessageView, now: u64)
    ensures
        m.msg_type == message_type_code(MessageType::AddProvider) && (forall|i: int|
            0 <= i < m.provider_peers.len() ==> (#[trigger] decode_peer(m.provider_peers[i])) is Err)
            ==> decode_request(m, now) == Err::<RequestView, DecodeError>(
            DecodeError::NoValidProvider,
        ),
        m.msg_type == message_type_code(MessageType::PutValue) && m.record is None
            ==> decode_response(m, now) == Err::<ResponseView, DecodeError>(
            DecodeError::MissingRecord,
        ),
        message_type_of_code(m.msg_type) is None ==> decode_request(m, now) == Err::<
            RequestView,
            DecodeError,
        >(DecodeError::UnknownMessageType(m.msg_type)) && decode_response(m, now) == Err::<
            ResponseView,
            DecodeError,
        >(DecodeError::UnknownMessageType(m.msg_type)),
{
    lemma_first_valid_peer_none(m.provider_peers);
}

/// A peer whose identifier and addresses parse.
pub open spec fn parsed_peer(p: PeerView) -> bool {
    &&& is_valid_peer_id(p.id)
    &&& forall|k: int| 0 <= k < p.addrs.len() ==> is_valid_multiaddr(#[trigger] p.addrs[k])
}

/// Tolerant decoding keeps only entries that are valid peers, never more
/// entries than there were, and all of them when every entry parses.
pub proof fn lemma_tolerant_decoding(ws: Seq<ProtoPeerView>)
    ensures
        decode_peers_tolerant(ws).len() <= ws.len(),
        forall|j: int|
            0 <= j < decode_peers_tolerant(ws).len() ==> parsed_peer(
                #[trigger] decode_peers_tolerant(ws)[j],
            ),
        (forall|i: int| 0 <= i < ws.len() ==> (#[trigger] decode_peer(ws[i])) is Ok)
            ==> decode_peers_tolerant(ws).len() == ws.len(),
    decreases ws.len(),
{
    if ws.len() > 0 {
        lemma_tolerant_decoding(ws.drop_last());
        if forall|i: int| 0 <= i < ws.len() ==> (#[trigger] decode_peer(ws[i])) is Ok {
            assert forall|i: int| 0 <= i < ws.drop_last().len() implies (#[trigger] decode_peer(
                ws.drop_last()[i],
            )) is Ok by {
                assert(ws.drop_last()[i] == ws[i]);
            }
            assert(decode_peer(ws[ws.len() - 1]) is Ok);
        }
        let prev = decode_peers_tolerant(ws.drop_last());
        let cur = decode_peers_tolerant(ws);
        assert forall|j: int| 0 <= j < cur.len() implies parsed_peer(#[trigger] cur[j]) by {
            if j < prev.len() {
                assert(cur[j] == prev[j]);
            }
        }
    }
}

} // verus!
