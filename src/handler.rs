//! Protocol configuration, the inbound handler's decisions on a substream,
//! and the outbound sender's checks on the response it reads.
//!
//! The inbound loop reads a frame, hands the decoded request to the engine,
//! awaits the engine's answer and writes it back. What it does at each step
//! is decided here from what the previous step produced; performing the step
//! (reading, sending on the event queue, writing) is left to the caller.
use vstd::prelude::*;
use vstd::string::StringSliceAdditionalSpecFns;

use crate::codec::{decode_request, proto_to_req_msg, resp_msg_to_proto, response_to_proto};
use crate::event::{KadReply, ProtocolEvent};
use crate::message::{KadError, KadRequestMsg, KadResponseMsg};
use crate::peer::KadPeer;
use crate::proto::ProtoMessage;
use crate::record::Record;

verus! {

/// Name of a protocol as negotiated on the wire.
pub type ProtocolId = &'static str;

/// The protocol name used for negotiating with multistream-select.
pub const DEFAULT_PROTO_NAME: &'static str = "/ipfs/kad/1.0.0";

/// The default maximum size for a varint length-delimited packet.
pub const DEFAULT_MAX_PACKET_SIZE: usize = 16384;

/// Largest response frame that the outbound sender reads.
pub const OUTBOUND_MAX_PACKET_SIZE: usize = 4096;

/// Seconds of silence after which an idle substream may be closed.
pub const DEFAULT_IDLE_TIMEOUT_SECS: u64 = 10;

/// Configuration for a Kademlia protocol handler.
#[derive(Clone, Debug)]
pub struct KademliaProtocolConfig {
    protocol_name: ProtocolId,
    max_packet_size: usize,
}

impl KademliaProtocolConfig {
    /// The protocol name.
    pub closed spec fn spec_protocol_name(&self) -> ProtocolId {
        self.protocol_name
    }

    /// The largest frame accepted.
    pub closed spec fn spec_max_packet_size(&self) -> usize {
        self.max_packet_size
    }

    /// Returns the configured protocol name.
    pub fn protocol_name(&self) -> (r: ProtocolId)
        ensures
            r == self.spec_protocol_name(),
    {
        self.protocol_name
    }

    /// Modifies the protocol name used on the wire. Can be used to create
    /// incompatibilities between networks on purpose.
    pub fn set_protocol_name(&mut self, name: ProtocolId)
        ensures
            final(self).spec_protocol_name() == name,
            final(self).spec_max_packet_size() == old(self).spec_max_packet_size(),
    {
        self.protocol_name = name;
    }

    /// Returns the largest frame accepted.
    pub fn max_packet_size(&self) -> (r: usize)
        ensures
            r == self.spec_max_packet_size(),
    {
        self.max_packet_size
    }

    /// Modifies the maximum allowed size of a single Kademlia packet.
    pub fn set_max_packet_size(&mut self, size: usize)
        ensures
            final(self).spec_max_packet_size() == size,
            final(self).spec_protocol_name() == old(self).spec_protocol_name(),
    {
        self.max_packet_size = size;
    }
}

impl Default for KademliaProtocolConfig {
    /// The default protocol name, `/ipfs/kad/1.0.0`, and frames of up to
    /// 16 KiB.
    fn default() -> (r: Self)
        ensures
            r.spec_protocol_name() == DEFAULT_PROTO_NAME,
            r.spec_max_packet_size() == DEFAULT_MAX_PACKET_SIZE,
    {
        KademliaProtocolConfig {
            protocol_name: DEFAULT_PROTO_NAME,
            max_packet_size: DEFAULT_MAX_PACKET_SIZE,
        }
    }
}

/// Queue on which the handler posts its events.
pub type EventSender = futures::channel::mpsc::UnboundedSender<ProtocolEvent<u32>>;

/// The Protocol Handler of Kademlia DHT.
#[derive(Debug, Clone)]
pub struct KadProtocolHandler {
    config: KademliaProtocolConfig,
    allow_listening: bool,
    idle_timeout_secs: u64,
    message_tx: EventSender,
}

/// What the caller of the inbound loop does next.
#[derive(Debug)]
pub enum InboundAction {
    /// Read one length-delimited frame of at most `max_len` bytes.
    ReadFrame { max_len: usize },
    /// Post the request to the engine and await its answer.
    Deliver(KadRequestMsg),
    /// Write this message as one frame.
    Write(ProtoMessage),
    /// Close the substream with this outcome.
    Finish(Result<(), KadError>),
}

/// What reading a frame produced.
#[derive(Debug)]
pub enum FrameRead {
    /// A frame whose bytes form this wire message.
    Message(ProtoMessage),
    /// A frame whose bytes are not a wire message.
    Undecodable,
    /// A frame longer than the limit announced.
    TooLarge,
    /// The stream ended between frames.
    EndOfStream,
    /// No frame arrived within the idle timeout.
    IdleTimeout,
    /// Reading failed.
    Failed,
}

/// What posting a request to the engine produced.
#[derive(Debug)]
pub enum ReplyOutcome {
    /// The event queue is closed: the engine is gone.
    QueueClosed,
    /// The engine dropped the reply channel without answering.
    Dropped,
    /// The engine's answer.
    Replied(KadReply),
}

impl KadProtocolHandler {
    /// The configuration in force.
    pub closed spec fn spec_config(&self) -> KademliaProtocolConfig {
        self.config
    }

    /// Whether inbound requests are accepted.
    pub closed spec fn spec_allow_listening(&self) -> bool {
        self.allow_listening
    }

    /// Seconds of silence after which an idle substream may be closed.
    pub closed spec fn spec_idle_timeout_secs(&self) -> u64 {
        self.idle_timeout_secs
    }

    /// The queue on which events are posted.
    pub closed spec fn spec_message_tx(&self) -> EventSender {
        self.message_tx
    }

    /// The largest inbound frame accepted.
    pub open spec fn spec_max_packet_size(&self) -> usize {
        self.spec_config().spec_max_packet_size()
    }

    /// Make a new handler: it does not listen until told to, and closes a
    /// substream after ten idle seconds.
    pub fn new(config: KademliaProtocolConfig, message_tx: EventSender) -> (r: Self)
        ensures
            r.spec_config() == config,
            !r.spec_allow_listening(),
            r.spec_idle_timeout_secs() == DEFAULT_IDLE_TIMEOUT_SECS,
            r.spec_message_tx() == message_tx,
    {
        KadProtocolHandler {
            config,
            allow_listening: false,
            idle_timeout_secs: DEFAULT_IDLE_TIMEOUT_SECS,
            message_tx,
        }
    }

    /// Returns the configured protocol name, as bytes.
    pub fn protocol_name(&self) -> (r: &[u8])
        ensures
            r@ == self.spec_config().spec_protocol_name().spec_bytes(),
    {
        self.config.protocol_name().as_bytes()
    }

    /// Modifies the maximum allowed size of a single Kademlia packet.
    pub fn set_max_packet_size(&mut self, size: usize)
        ensures
            final(self).spec_max_packet_size() == size,
            final(self).spec_config().spec_protocol_name() == old(
                self,
            ).spec_config().spec_protocol_name(),
            final(self).spec_allow_listening() == old(self).spec_allow_listening(),
            final(self).spec_idle_timeout_secs() == old(self).spec_idle_timeout_secs(),
            final(self).spec_message_tx() == old(self).spec_message_tx(),
    {
        self.config.set_max_packet_size(size);
    }

    /// The configuration in force.
    pub fn config(&self) -> (r: &KademliaProtocolConfig)
        ensures
            *r == self.spec_config(),
    {
        &self.config
    }

    /// Seconds of silence after which an idle substream may be closed.
    pub fn idle_timeout_secs(&self) -> (r: u64)
        ensures
            r == self.spec_idle_timeout_secs(),
    {
        self.idle_timeout_secs
    }

    /// The queue on which events are posted.
    pub fn message_tx(&self) -> (r: &EventSender)
        ensures
            *r == self.spec_message_tx(),
    {
        &self.message_tx
    }

    /// The first step on a new substream: read a frame within the limit.
    pub fn first_action(&self) -> (r: InboundAction)
        ensures
            r == (InboundAction::ReadFrame { max_len: self.spec_max_packet_size() }),
    {
        InboundAction::ReadFrame { max_len: self.config.max_packet_size() }
    }

    /// The step after a frame was read, `now` being the current instant: a
    /// request that decodes goes to the engine; the end of the stream or an
    /// idle timeout closes the substream cleanly; anything else closes it
    /// with an error.
    pub fn on_frame(&self, read: FrameRead, now: u64) -> (r: InboundAction)
        ensures
            match read {
                FrameRead::Message(m) => match decode_request(m@, now) {
                    Ok(v) => r matches InboundAction::Deliver(req) && req@ == v && req.wf(),
                    Err(e) => r == InboundAction::Finish(Err(KadError::InvalidData(e))),
                },
                FrameRead::Undecodable => r == InboundAction::Finish(Err(KadError::Decode)),
                FrameRead::TooLarge => r == InboundAction::Finish(Err(KadError::MaxPacketSize)),
                FrameRead::EndOfStream => r == InboundAction::Finish(Ok(())),
                FrameRead::IdleTimeout => r == InboundAction::Finish(Ok(())),
                FrameRead::Failed => r == InboundAction::Finish(Err(KadError::Io)),
            },
    {
        match read {
            FrameRead::Message(m) => match proto_to_req_msg(&m, now) {
                Ok(req) => InboundAction::Deliver(req),
                Err(e) => InboundAction::Finish(Err(KadError::InvalidData(e))),
            },
            FrameRead::Undecodable => InboundAction::Finish(Err(KadError::Decode)),
            FrameRead::TooLarge => InboundAction::Finish(Err(KadError::MaxPacketSize)),
            FrameRead::EndOfStream => InboundAction::Finish(Ok(())),
            FrameRead::IdleTimeout => InboundAction::Finish(Ok(())),
            FrameRead::Failed => InboundAction::Finish(Err(KadError::Io)),
        }
    }

    /// The step after the engine was asked, `now` being the current instant:
    /// a response is written back; no response means reading the next frame;
    /// an error, a closed queue or a dropped channel closes the substream.
    pub fn on_reply(&self, outcome: ReplyOutcome, now: u64) -> (r: InboundAction)
        ensures
            match outcome {
                ReplyOutcome::QueueClosed => r == InboundAction::Finish(Err(KadError::Closed)),
                ReplyOutcome::Dropped => r == InboundAction::Finish(Err(KadError::Closed)),
                ReplyOutcome::Replied(Err(e)) => r == InboundAction::Finish(Err(e)),
                ReplyOutcome::Replied(Ok(None)) => r == (InboundAction::ReadFrame {
                    max_len: self.spec_max_packet_size(),
                }),
                ReplyOutcome::Replied(Ok(Some(resp))) => r matches InboundAction::Write(m) && m@
                    == response_to_proto(resp@, now),
            },
    {
        match outcome {
            ReplyOutcome::QueueClosed => InboundAction::Finish(Err(KadError::Closed)),
            ReplyOutcome::Dropped => InboundAction::Finish(Err(KadError::Closed)),
            ReplyOutcome::Replied(Err(e)) => InboundAction::Finish(Err(e)),
            ReplyOutcome::Replied(Ok(None)) => InboundAction::ReadFrame {
                max_len: self.config.max_packet_size(),
            },
            ReplyOutcome::Replied(Ok(Some(resp))) => InboundAction::Write(
                resp_msg_to_proto(&resp, now),
            ),
        }
    }

    /// The step after a response was written: read the next frame if the
    /// write succeeded, else close the substream.
    pub fn on_written(&self, ok: bool) -> (r: InboundAction)
        ensures
            ok ==> r == (InboundAction::ReadFrame { max_len: self.spec_max_packet_size() }),
            !ok ==> r == InboundAction::Finish(Err(KadError::Io)),
    {
        if ok {
            InboundAction::ReadFrame { max_len: self.config.max_packet_size() }
        } else {
            InboundAction::Finish(Err(KadError::Io))
        }
    }
}

// ---------------------------------------------------------------------------
// Outbound sender

/// The error for a response of the wrong kind to `FindNode`.
pub const WRONG_FIND_NODE: &'static str = "wrong message type received when FindNode";

/// The error for a response of the wrong kind to `GetProviders`.
pub const WRONG_GET_PROVIDERS: &'static str = "wrong message type received when GetProviders";

/// The error for a response of the wrong kind to `GetValue`.
pub const WRONG_GET_VALUE: &'static str = "wrong message type received when GetValue";

/// The peers of a `FindNode` response; any other response is a protocol
/// error.
pub fn find_node_result(rsp: KadResponseMsg) -> (r: Result<Vec<KadPeer>, KadError>)
    ensures
        match rsp {
            KadResponseMsg::FindNode { closer_peers } => r == Ok::<Vec<KadPeer>, KadError>(
                closer_peers,
            ),
            _ => r == Err::<Vec<KadPeer>, KadError>(KadError::UnexpectedMessage(WRONG_FIND_NODE)),
        },
{
    match rsp {
        KadResponseMsg::FindNode { closer_peers } => Ok(closer_peers),
        _ => Err(KadError::UnexpectedMessage(WRONG_FIND_NODE)),
    }
}

/// The closer and provider peers of a `GetProviders` response; any other
/// response is a protocol error.
pub fn get_providers_result(rsp: KadResponseMsg) -> (r: Result<
    (Vec<KadPeer>, Vec<KadPeer>),
    KadError,
>)
    ensures
        match rsp {
            KadResponseMsg::GetProviders { closer_peers, provider_peers } => r == Ok::<
                (Vec<KadPeer>, Vec<KadPeer>),
                KadError,
            >((closer_peers, provider_peers)),
            _ => r == Err::<(Vec<KadPeer>, Vec<KadPeer>), KadError>(
                KadError::UnexpectedMessage(WRONG_GET_PROVIDERS),
            ),
        },
{
    match rsp {
        KadResponseMsg::GetProviders { closer_peers, provider_peers } => Ok(
            (closer_peers, provider_peers),
        ),
        _ => Err(KadError::UnexpectedMessage(WRONG_GET_PROVIDERS)),
    }
}

/// The closer peers and record of a `GetValue` response; any other response
/// is a protocol error.
pub fn get_value_result(rsp: KadResponseMsg) -> (r: Result<
    (Vec<KadPeer>, Option<Record>),
    KadError,
>)
    ensures
        match rsp {
            KadResponseMsg::GetValue { record, closer_peers } => r == Ok::<
                (Vec<KadPeer>, Option<Record>),
                KadError,
            >((closer_peers, record)),
            _ => r == Err::<(Vec<KadPeer>, Option<Record>), KadError>(
                KadError::UnexpectedMessage(WRONG_GET_VALUE),
            ),
        },
{
    match rsp {
        KadResponseMsg::GetValue { record, closer_peers } => Ok((closer_peers, record)),
        _ => Err(KadError::UnexpectedMessage(WRONG_GET_VALUE)),
    }
}

} // verus!
