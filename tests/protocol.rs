use libp2prs_kad::codec::{
    expiry_from_ttl, proto_to_req_msg, proto_to_resp_msg, record_from_proto, record_to_proto,
    req_msg_to_proto, resp_msg_to_proto, ttl_from_expiry,
};
use libp2prs_kad::event::{process_kad_response, ProtocolEvent, UNEXPECTED_PONG};
use libp2prs_kad::handler::{
    find_node_result, get_providers_result, get_value_result, FrameRead, InboundAction,
    KadProtocolHandler, KademliaProtocolConfig, ReplyOutcome, DEFAULT_MAX_PACKET_SIZE,
    DEFAULT_PROTO_NAME, WRONG_FIND_NODE,
};
use libp2prs_kad::message::{DecodeError, KadError, KadRequestMsg, KadResponseMsg};
use libp2prs_kad::peer::{KadConnectionType, KadPeer, Multiaddr, PeerId};
use libp2prs_kad::proto::{ProtoMessage, ProtoPeer, ProtoRecord};
use libp2prs_kad::record::{Key, Record};

const NOW: u64 = 1_000_000;

fn peer_id(seed: u8) -> PeerId {
    // identity multihash with a four-byte digest
    PeerId::from_bytes(vec![0x00, 0x04, seed, 2, 3, 4]).expect("valid peer id")
}

fn addr() -> Multiaddr {
    // /ip4/127.0.0.1/tcp/4001
    Multiaddr::from_bytes(vec![0x04, 127, 0, 0, 1, 0x06, 0x0f, 0xa1]).expect("valid address")
}

fn kad_peer(seed: u8) -> KadPeer {
    KadPeer {
        node_id: peer_id(seed),
        multiaddrs: vec![addr()],
        connection_ty: KadConnectionType::Connected,
    }
}

fn handler(max: usize) -> KadProtocolHandler {
    let (tx, _rx) = futures::channel::mpsc::unbounded();
    let mut config = KademliaProtocolConfig::default();
    config.set_max_packet_size(max);
    KadProtocolHandler::new(config, tx)
}

fn request_round_trip(req: KadRequestMsg) {
    let wire = req_msg_to_proto(&req, NOW);
    assert_eq!(wire.cluster_level_raw, 10);
    assert_eq!(proto_to_req_msg(&wire, NOW), Ok(req));
}

fn response_round_trip(resp: KadResponseMsg) {
    let wire = resp_msg_to_proto(&resp, NOW);
    assert_eq!(proto_to_resp_msg(&wire, NOW), Ok(resp));
}

#[test]
fn ping_pong() {
    let h = handler(DEFAULT_MAX_PACKET_SIZE);
    let wire = req_msg_to_proto(&KadRequestMsg::Ping, NOW);
    let action = h.on_frame(FrameRead::Message(wire), NOW);
    assert!(matches!(action, InboundAction::Deliver(KadRequestMsg::Ping)));
    let action = h.on_reply(ReplyOutcome::Replied(Ok(Some(KadResponseMsg::Pong))), NOW);
    match action {
        InboundAction::Write(m) => {
            assert_eq!(m.msg_type, 0);
            assert_eq!(m.cluster_level_raw, 0);
            assert_eq!(proto_to_resp_msg(&m, NOW), Ok(KadResponseMsg::Pong));
        }
        other => panic!("unexpected action {:?}", other),
    }
}

#[test]
fn find_node_happy_path() {
    let h = handler(DEFAULT_MAX_PACKET_SIZE);
    let req = KadRequestMsg::FindNode { key: Key::new(vec![0x01, 0x02]) };
    let action = h.on_frame(FrameRead::Message(req_msg_to_proto(&req, NOW)), NOW);
    match action {
        InboundAction::Deliver(got) => assert_eq!(got, req),
        other => panic!("unexpected action {:?}", other),
    }
    let peers = vec![kad_peer(1)];
    let resp = KadResponseMsg::FindNode { closer_peers: peers.clone() };
    let wire = match h.on_reply(ReplyOutcome::Replied(Ok(Some(resp))), NOW) {
        InboundAction::Write(m) => m,
        other => panic!("unexpected action {:?}", other),
    };
    let decoded = proto_to_resp_msg(&wire, NOW).expect("decodes");
    assert_eq!(find_node_result(decoded), Ok(peers));
}

#[test]
fn add_provider_fire_and_forget() {
    let h = handler(DEFAULT_MAX_PACKET_SIZE);
    let req = KadRequestMsg::AddProvider { key: Key::new(vec![0xAA]), provider: kad_peer(7) };
    match h.on_frame(FrameRead::Message(req_msg_to_proto(&req, NOW)), NOW) {
        InboundAction::Deliver(got) => assert_eq!(got, req),
        other => panic!("unexpected action {:?}", other),
    }
    let action = h.on_reply(ReplyOutcome::Replied(Ok(None)), NOW);
    assert!(matches!(action, InboundAction::ReadFrame { max_len: DEFAULT_MAX_PACKET_SIZE }));
}

#[test]
fn malformed_peer_entry_tolerated() {
    let mut wire = resp_msg_to_proto(
        &KadResponseMsg::FindNode { closer_peers: vec![kad_peer(1)] },
        NOW,
    );
    wire.closer_peers.push(ProtoPeer { id: vec![0x42], addrs: vec![], connection: 1 });
    match proto_to_resp_msg(&wire, NOW) {
        Ok(KadResponseMsg::FindNode { closer_peers }) => {
            assert_eq!(closer_peers.len(), 1);
            assert_eq!(closer_peers[0], kad_peer(1));
        }
        other => panic!("unexpected decoding {:?}", other),
    }
}

#[test]
fn oversize_frame_rejected() {
    let h = handler(64);
    assert!(matches!(h.first_action(), InboundAction::ReadFrame { max_len: 64 }));
    let action = h.on_frame(FrameRead::TooLarge, NOW);
    assert!(matches!(action, InboundAction::Finish(Err(KadError::MaxPacketSize))));
}

#[test]
fn variant_mismatch() {
    let reply = KadResponseMsg::GetValue { record: None, closer_peers: vec![] };
    let wire = resp_msg_to_proto(&reply, NOW);
    let decoded = proto_to_resp_msg(&wire, NOW).expect("decodes");
    assert_eq!(find_node_result(decoded), Err(KadError::UnexpectedMessage(WRONG_FIND_NODE)));
    assert!(get_providers_result(KadResponseMsg::Pong).is_err());
    assert!(get_value_result(KadResponseMsg::Pong).is_err());
}

#[test]
fn requests_round_trip() {
    request_round_trip(KadRequestMsg::Ping);
    request_round_trip(KadRequestMsg::FindNode { key: Key::new(vec![1, 2, 3]) });
    request_round_trip(KadRequestMsg::GetProviders { key: Key::new(vec![9, 12, 0, 245]) });
    request_round_trip(KadRequestMsg::AddProvider {
        key: Key::new(vec![9, 12]),
        provider: kad_peer(3),
    });
    request_round_trip(KadRequestMsg::GetValue { key: Key::new(vec![]) });
    let mut record = Record::new(Key::new(vec![5]), vec![6, 7]);
    record.publisher = Some(peer_id(4));
    record.expires = Some(NOW + 60_000);
    request_round_trip(KadRequestMsg::PutValue { record });
}

#[test]
fn responses_round_trip() {
    response_round_trip(KadResponseMsg::Pong);
    response_round_trip(KadResponseMsg::FindNode { closer_peers: vec![kad_peer(1), kad_peer(2)] });
    response_round_trip(KadResponseMsg::GetProviders {
        closer_peers: vec![kad_peer(1)],
        provider_peers: vec![kad_peer(2)],
    });
    response_round_trip(KadResponseMsg::GetValue {
        record: Some(Record::new(Key::new(vec![1]), vec![2])),
        closer_peers: vec![kad_peer(5)],
    });
    response_round_trip(KadResponseMsg::GetValue { record: None, closer_peers: vec![] });
    response_round_trip(KadResponseMsg::PutValue { key: Key::new(vec![8]), value: vec![9, 10] });
}

#[test]
fn cluster_levels() {
    let put = resp_msg_to_proto(
        &KadResponseMsg::PutValue { key: Key::new(vec![8]), value: vec![9] },
        NOW,
    );
    assert_eq!(put.cluster_level_raw, 9);
    assert_eq!(put.key, vec![8]);
    assert_eq!(put.record.as_ref().map(|r| r.key.clone()), Some(vec![8]));
    let find = resp_msg_to_proto(&KadResponseMsg::FindNode { closer_peers: vec![] }, NOW);
    assert_eq!(find.cluster_level_raw, 9);
    let ping = req_msg_to_proto(&KadRequestMsg::Ping, NOW);
    assert_eq!(ping.cluster_level_raw, 10);
    let put_req = req_msg_to_proto(
        &KadRequestMsg::PutValue { record: Record::new(Key::new(vec![1]), vec![2]) },
        NOW,
    );
    assert_eq!(put_req.cluster_level_raw, 10);
    assert!(put_req.key.is_empty());
    assert_eq!(put_req.msg_type, 1);
}

#[test]
fn add_provider_without_valid_peer_fails() {
    let msg = ProtoMessage {
        msg_type: 3,
        cluster_level_raw: 10,
        key: vec![1],
        record: None,
        closer_peers: vec![],
        provider_peers: vec![ProtoPeer { id: vec![0x42], addrs: vec![], connection: 0 }],
    };
    assert_eq!(proto_to_req_msg(&msg, NOW), Err(DecodeError::NoValidProvider));
}

#[test]
fn add_provider_takes_first_valid_peer() {
    let mut msg = req_msg_to_proto(
        &KadRequestMsg::AddProvider { key: Key::new(vec![1]), provider: kad_peer(2) },
        NOW,
    );
    msg.provider_peers.insert(0, ProtoPeer { id: vec![0x42], addrs: vec![], connection: 0 });
    msg.provider_peers.push(kad_peer(3).to_proto());
    assert_eq!(
        proto_to_req_msg(&msg, NOW),
        Ok(KadRequestMsg::AddProvider { key: Key::new(vec![1]), provider: kad_peer(2) })
    );
}

#[test]
fn put_value_response_without_record_fails() {
    let msg = ProtoMessage { msg_type: 1, key: vec![1], ..ProtoMessage::default() };
    assert_eq!(proto_to_resp_msg(&msg, NOW), Err(DecodeError::MissingRecord));
}

#[test]
fn unknown_message_type_fails() {
    let msg = ProtoMessage { msg_type: 9, ..ProtoMessage::default() };
    assert_eq!(proto_to_req_msg(&msg, NOW), Err(DecodeError::UnknownMessageType(9)));
    assert_eq!(proto_to_resp_msg(&msg, NOW), Err(DecodeError::UnknownMessageType(9)));
    let h = handler(DEFAULT_MAX_PACKET_SIZE);
    let action = h.on_frame(FrameRead::Message(msg), NOW);
    assert!(matches!(
        action,
        InboundAction::Finish(Err(KadError::InvalidData(DecodeError::UnknownMessageType(9))))
    ));
}

#[test]
fn add_provider_response_fails() {
    let msg = ProtoMessage { msg_type: 3, ..ProtoMessage::default() };
    assert_eq!(proto_to_resp_msg(&msg, NOW), Err(DecodeError::UnexpectedAddProvider));
}

#[test]
fn peer_entry_errors() {
    let bad_id = ProtoPeer { id: vec![0x42], addrs: vec![], connection: 0 };
    assert_eq!(KadPeer::try_from_proto(&bad_id), Err(DecodeError::InvalidPeerId));
    let bad_addr = ProtoPeer { id: peer_id(1).to_bytes(), addrs: vec![vec![0xff, 0xff]], connection: 0 };
    assert_eq!(KadPeer::try_from_proto(&bad_addr), Err(DecodeError::InvalidMultiaddr));
    let bad_conn = ProtoPeer { id: peer_id(1).to_bytes(), addrs: vec![addr().to_vec()], connection: 4 };
    assert_eq!(KadPeer::try_from_proto(&bad_conn), Err(DecodeError::UnknownConnectionType(4)));
    let good = ProtoPeer { id: peer_id(1).to_bytes(), addrs: vec![addr().to_vec()], connection: 3 };
    let p = KadPeer::try_from_proto(&good).expect("valid entry");
    assert_eq!(p.connection_ty, KadConnectionType::CannotConnect);
    assert_eq!(p.to_proto(), good);
}

#[test]
fn empty_peer_id_rejected() {
    assert!(PeerId::from_bytes(vec![]).is_err());
    assert!(PeerId::from_bytes(vec![0x42]).is_err());
}

#[test]
fn connection_type_codes() {
    assert_eq!(KadConnectionType::from_i32(0), Some(KadConnectionType::NotConnected));
    assert_eq!(KadConnectionType::from_i32(2), Some(KadConnectionType::CanConnect));
    assert_eq!(KadConnectionType::from_i32(-1), None);
    assert_eq!(KadConnectionType::Connected.to_i32(), 1);
    assert_eq!(KadConnectionType::CannotConnect.to_i32(), 3);
}

#[test]
fn record_ttl_mapping() {
    assert_eq!(expiry_from_ttl(0, NOW), None);
    assert_eq!(expiry_from_ttl(5, NOW), Some(NOW + 5_000));
    assert_eq!(expiry_from_ttl(1, u64::MAX - 10), Some(u64::MAX));
    assert_eq!(ttl_from_expiry(None, NOW), 0);
    let ttl = ttl_from_expiry(Some(NOW + 60_000), NOW);
    assert!((59..=60).contains(&ttl));
    assert_eq!(ttl, 60);
    assert_eq!(ttl_from_expiry(Some(NOW - 1), NOW), 1);
    assert_eq!(ttl_from_expiry(Some(NOW), NOW), 1);
    assert_eq!(ttl_from_expiry(Some(NOW + 500), NOW), 1);
    assert_eq!(ttl_from_expiry(Some(u64::MAX), 0), u32::MAX);
}

#[test]
fn record_publisher_rules() {
    let empty = ProtoRecord { key: vec![1], value: vec![2], ..ProtoRecord::default() };
    let rec = record_from_proto(&empty, NOW).expect("decodes");
    assert_eq!(rec.publisher, None);
    assert_eq!(rec.expires, None);
    let bad = ProtoRecord { publisher: vec![0x42], ..empty.clone() };
    assert_eq!(record_from_proto(&bad, NOW), Err(DecodeError::InvalidPublisher));
    let good = ProtoRecord { publisher: peer_id(9).to_bytes(), ttl: 30, ..empty };
    let rec = record_from_proto(&good, NOW).expect("decodes");
    assert_eq!(rec.publisher, Some(peer_id(9)));
    assert_eq!(rec.expires, Some(NOW + 30_000));
    let back = record_to_proto(&rec, NOW);
    assert_eq!(back.ttl, 30);
    assert_eq!(back.publisher, peer_id(9).to_bytes());
}

#[test]
fn put_value_request_without_record_decodes_default() {
    let msg = ProtoMessage { msg_type: 1, ..ProtoMessage::default() };
    assert_eq!(
        proto_to_req_msg(&msg, NOW),
        Ok(KadRequestMsg::PutValue { record: Record::new(Key::new(vec![]), vec![]) })
    );
}

#[test]
fn inbound_loop_errors() {
    let h = handler(DEFAULT_MAX_PACKET_SIZE);
    assert!(matches!(h.on_frame(FrameRead::EndOfStream, NOW), InboundAction::Finish(Ok(()))));
    assert!(matches!(h.on_frame(FrameRead::IdleTimeout, NOW), InboundAction::Finish(Ok(()))));
    assert!(matches!(h.on_frame(FrameRead::Undecodable, NOW), InboundAction::Finish(Err(KadError::Decode))));
    assert!(matches!(h.on_frame(FrameRead::Failed, NOW), InboundAction::Finish(Err(KadError::Io))));
    assert!(matches!(h.on_reply(ReplyOutcome::QueueClosed, NOW), InboundAction::Finish(Err(KadError::Closed))));
    assert!(matches!(h.on_reply(ReplyOutcome::Dropped, NOW), InboundAction::Finish(Err(KadError::Closed))));
    assert!(matches!(
        h.on_reply(ReplyOutcome::Replied(Err(KadError::Io)), NOW),
        InboundAction::Finish(Err(KadError::Io))
    ));
    assert!(matches!(h.on_written(true), InboundAction::ReadFrame { max_len: DEFAULT_MAX_PACKET_SIZE }));
    assert!(matches!(h.on_written(false), InboundAction::Finish(Err(KadError::Io))));
}

#[test]
fn config_defaults_and_setters() {
    let mut config = KademliaProtocolConfig::default();
    assert_eq!(config.protocol_name(), DEFAULT_PROTO_NAME);
    assert_eq!(config.protocol_name(), "/ipfs/kad/1.0.0");
    assert_eq!(config.max_packet_size(), 16384);
    config.set_protocol_name("/custom/kad/1.0.0");
    assert_eq!(config.protocol_name(), "/custom/kad/1.0.0");
    let (tx, _rx) = futures::channel::mpsc::unbounded();
    let mut h = KadProtocolHandler::new(config, tx);
    assert_eq!(h.protocol_name(), b"/custom/kad/1.0.0");
    assert_eq!(h.idle_timeout_secs(), 10);
    h.set_max_packet_size(100);
    assert_eq!(h.config().max_packet_size(), 100);
}

#[test]
fn response_events() {
    match process_kad_response(KadResponseMsg::Pong, 7u32) {
        ProtocolEvent::QueryError { error, user_data } => {
            assert_eq!(error, KadError::UnexpectedMessage(UNEXPECTED_PONG));
            assert_eq!(user_data, 7);
        }
        other => panic!("unexpected event {:?}", other),
    }
    match process_kad_response(KadResponseMsg::FindNode { closer_peers: vec![kad_peer(1)] }, 8u32) {
        ProtocolEvent::FindNodeRes { closer_peers, user_data } => {
            assert_eq!(closer_peers, vec![kad_peer(1)]);
            assert_eq!(user_data, 8);
        }
        other => panic!("unexpected event {:?}", other),
    }
    match process_kad_response(KadResponseMsg::PutValue { key: Key::new(vec![1]), value: vec![2] }, 9u32) {
        ProtocolEvent::PutRecordRes { key, value, user_data } => {
            assert_eq!(key, Key::new(vec![1]));
            assert_eq!(value, vec![2]);
            assert_eq!(user_data, 9);
        }
        other => panic!("unexpected event {:?}", other),
    }
    match process_kad_response(
        KadResponseMsg::GetProviders { closer_peers: vec![], provider_peers: vec![kad_peer(2)] },
        1u32,
    ) {
        ProtocolEvent::GetProvidersRes { provider_peers, .. } => assert_eq!(provider_peers, vec![kad_peer(2)]),
        other => panic!("unexpected event {:?}", other),
    }
    match process_kad_response(KadResponseMsg::GetValue { record: None, closer_peers: vec![] }, 2u32) {
        ProtocolEvent::GetRecordRes { record, user_data, .. } => {
            assert_eq!(record, None);
            assert_eq!(user_data, 2);
        }
        other => panic!("unexpected event {:?}", other),
    }
}
