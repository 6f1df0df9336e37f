//! Peer identifiers, multi-addresses and the peer descriptor carried by
//! Kademlia messages.
use vstd::prelude::*;

verus! {

/// Whether libp2prs-core accepts `b` as the byte form of a peer identifier.
pub uninterp spec fn is_valid_peer_id(b: Seq<u8>) -> bool;

/// Whether libp2prs-core accepts `b` as the byte form of a multi-address.
pub uninterp spec fn is_valid_multiaddr(b: Seq<u8>) -> bool;

/// Relies on `libp2prs_core::PeerId::from_bytes`: whether it parses `b`,
/// which depends on the bytes alone. Empty input fails, since the multihash
/// reader finds no code to read.
#[verifier::external_body]
fn peer_id_parses(b: &[u8]) -> (r: bool)
    ensures
        r == is_valid_peer_id(b@),
        b@.len() == 0 ==> !r,
{
    libp2prs_core::PeerId::from_bytes(b).is_ok()
}

/// Relies on `libp2prs_core::Multiaddr::try_from(Vec<u8>)`: whether it parses
/// `b`, which depends on the bytes alone.
#[verifier::external_body]
fn multiaddr_parses(b: &Vec<u8>) -> (r: bool)
    ensures
        r == is_valid_multiaddr(b@),
{
    <libp2prs_core::Multiaddr as std::convert::TryFrom<Vec<u8>>>::try_from(b.clone()).is_ok()
}

/// Identifier of a peer, held as its byte form.
#[derive(Clone, Debug, PartialEq, Eq, Hash)]
pub struct PeerId {
    bytes: Vec<u8>,
}

impl View for PeerId {
    type V = Seq<u8>;

    closed spec fn view(&self) -> Seq<u8> {
        self.bytes@
    }
}

impl PeerId {
    /// A peer identifier is well formed when its bytes parse (and so are
    /// not empty).
    pub open spec fn wf(&self) -> bool {
        is_valid_peer_id(self@) && self@.len() > 0
    }

    /// Parses the byte form of a peer identifier; the bytes come back when
    /// they do not parse.
    pub fn from_bytes(bytes: Vec<u8>) -> (r: Result<PeerId, Vec<u8>>)
        ensures
            is_valid_peer_id(bytes@) ==> (r matches Ok(p) && p@ == bytes@ && p.wf()),
            !is_valid_peer_id(bytes@) ==> (r matches Err(b) && b@ == bytes@),
    {
        if peer_id_parses(bytes.as_slice()) {
            Ok(PeerId { bytes })
        } else {
            Err(bytes)
        }
    }

    /// The byte form of the identifier.
    pub fn to_bytes(&self) -> (r: Vec<u8>)
        ensures
            r@ == self@,
    {
        self.bytes.clone()
    }

    /// The byte form of the identifier, consuming it.
    pub fn into_bytes(self) -> (r: Vec<u8>)
        ensures
            r@ == self@,
    {
        self.bytes
    }

    /// The byte form of the identifier, borrowed.
    pub fn as_bytes(&self) -> (r: &[u8])
        ensures
            r@ == self@,
    {
        self.bytes.as_slice()
    }
}

/// A multi-address, held as its byte form.
#[derive(Clone, Debug, PartialEq, Eq, Hash)]
pub struct Multiaddr {
    bytes: Vec<u8>,
}

impl View for Multiaddr {
    type V = Seq<u8>;

    closed spec fn view(&self) -> Seq<u8> {
        self.bytes@
    }
}

impl Multiaddr {
    /// A multi-address is well formed when its bytes parse.
    pub open spec fn wf(&self) -> bool {
        is_valid_multiaddr(self@)
    }

    /// Parses the byte form of a multi-address; the bytes come back when they
    /// do not parse.
    pub fn from_bytes(bytes: Vec<u8>) -> (r: Result<Multiaddr, Vec<u8>>)
        ensures
            is_valid_multiaddr(bytes@) ==> (r matches Ok(a) && a@ == bytes@),
            !is_valid_multiaddr(bytes@) ==> (r matches Err(b) && b@ == bytes@),
    {
        if multiaddr_parses(&bytes) {
            Ok(Multiaddr { bytes })
        } else {
            Err(bytes)
        }
    }

    /// The byte form of the address.
    pub fn to_vec(&self) -> (r: Vec<u8>)
        ensures
            r@ == self@,
    {
        self.bytes.clone()
    }
}

/// Status of our connection to a node reported by the Kademlia protocol.
#[derive(Clone, Copy, Debug, PartialEq, Eq, Hash, Structural)]
pub enum KadConnectionType {
    /// Sender hasn't tried to connect to peer.
    NotConnected,
    /// Sender is currently connected to peer.
    Connected,
    /// Sender was recently connected to peer.
    CanConnect,
    /// Sender tried to connect to peer but failed.
    CannotConnect,
}

/// The wire code of a connection type.
pub open spec fn connection_code(c: KadConnectionType) -> i32 {
    match c {
        KadConnectionType::NotConnected => 0,
        KadConnectionType::Connected => 1,
        KadConnectionType::CanConnect => 2,
        KadConnectionType::CannotConnect => 3,
    }
}

/// The connection type of a wire code, if the code is known.
pub open spec fn connection_of_code(code: i32) -> Option<KadConnectionType> {
    if code == 0 {
        Some(KadConnectionType::NotConnected)
    } else if code == 1 {
        Some(KadConnectionType::Connected)
    } else if code == 2 {
        Some(KadConnectionType::CanConnect)
    } else if code == 3 {
        Some(KadConnectionType::CannotConnect)
    } else {
        None
    }
}

impl KadConnectionType {
    /// The connection type of a wire code; `None` for an unknown code.
    pub fn from_i32(code: i32) -> (r: Option<KadConnectionType>)
        ensures
            r == connection_of_code(code),
    {
        match code {
            0 => Some(KadConnectionType::NotConnected),
            1 => Some(KadConnectionType::Connected),
            2 => Some(KadConnectionType::CanConnect),
            3 => Some(KadConnectionType::CannotConnect),
            _ => None,
        }
    }

    /// The wire code of this connection type.
    pub fn to_i32(self) -> (r: i32)
        ensures
            r == connection_code(self),
            connection_of_code(r) == Some(self),
    {
        match self {
            KadConnectionType::NotConnected => 0,
            KadConnectionType::Connected => 1,
            KadConnectionType::CanConnect => 2,
            KadConnectionType::CannotConnect => 3,
        }
    }
}

/// What a peer descriptor denotes: identifier bytes, address bytes in order,
/// and connection status.
pub struct PeerView {
    pub id: Seq<u8>,
    pub addrs: Seq<Seq<u8>>,
    pub connection: KadConnectionType,
}

/// Information about a peer, as known by the sender.
#[derive(Clone, Debug, PartialEq, Eq)]
pub struct KadPeer {
    /// Identifier of the peer.
    pub node_id: PeerId,
    /// The multi-addresses that the sender thinks can be used to reach the peer.
    pub multiaddrs: Vec<Multiaddr>,
    /// How the sender is connected to that remote.
    pub connection_ty: KadConnectionType,
}

/// The byte forms of a sequence of addresses.
pub open spec fn addrs_view(addrs: Seq<Multiaddr>) -> Seq<Seq<u8>> {
    addrs.map_values(|a: Multiaddr| a@)
}

impl View for KadPeer {
    type V = PeerView;

    open spec fn view(&self) -> PeerView {
        PeerView {
            id: self.node_id@,
            addrs: addrs_view(self.multiaddrs@),
            connection: self.connection_ty,
        }
    }
}

/// A peer descriptor denotes a valid peer when its identifier and every
/// address parse.
pub open spec fn peer_view_valid(p: PeerView) -> bool {
    &&& is_valid_peer_id(p.id)
    &&& p.id.len() > 0
    &&& forall|i: int| 0 <= i < p.addrs.len() ==> is_valid_multiaddr(#[trigger] p.addrs[i])
}

impl KadPeer {
    /// Every identifier and address of the descriptor parses.
    pub open spec fn wf(&self) -> bool {
        peer_view_valid(self@)
    }
}

/// The denotations of a sequence of peer descriptors.
pub open spec fn peers_view(peers: Seq<KadPeer>) -> Seq<PeerView> {
    peers.map_values(|p: KadPeer| p@)
}

/// Every descriptor of the sequence is well formed.
pub open spec fn peers_wf(peers: Seq<KadPeer>) -> bool {
    forall|i: int| 0 <= i < peers.len() ==> (#[trigger] peers[i]).wf()
}

} // verus!
