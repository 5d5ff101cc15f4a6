use malachite_codec::error::ProtoError;
use malachite_codec::messages::ProtobufCodec;
use malachite_codec::peer::PeerId;
use malachite_codec::proto;
use malachite_codec::types::{
    Height, ProposedValue, Round, Signature, SignedConsensusMsg, SignedMessage, Status, StreamContent,
    StreamId, StreamMessage, Validity,
};

type E = ProtoError;

fn missing(type_url: &str, field: &'static str) -> ProtoError {
    ProtoError::MissingField { type_url: type_url.to_string(), field }
}

fn sig_msg(
    body: Option<proto::SignedMessageBody<Result<String, E>, Result<u32, E>>>,
    sig: Option<Vec<u8>>,
) -> proto::SignedMessage<Result<String, E>, Result<u32, E>> {
    proto::SignedMessage { message: body, signature: sig.map(|bytes| proto::Signature { bytes }) }
}

#[test]
fn consensus_message_decodes_proposals_and_votes() {
    let codec = ProtobufCodec;
    let m = sig_msg(Some(proto::SignedMessageBody::Vote(Ok(4))), Some(vec![9; 64]));
    assert_eq!(
        codec.decode_consensus_message(m),
        Ok(SignedConsensusMsg::Vote(SignedMessage::new(4, Signature::from_bytes([9; 64]))))
    );
    let m = sig_msg(Some(proto::SignedMessageBody::Proposal(Ok("p".to_string()))), Some(vec![8; 64]));
    assert_eq!(
        codec.decode_consensus_message(m),
        Ok(SignedConsensusMsg::Proposal(SignedMessage::new("p".to_string(), Signature::from_bytes([8; 64]))))
    );
}

#[test]
fn consensus_message_errors() {
    let codec = ProtobufCodec;
    assert_eq!(codec.decode_consensus_message(sig_msg(None, None)), Err(missing("SignedMessage", "signature")));
    assert_eq!(
        codec.decode_consensus_message(sig_msg(None, Some(vec![0; 2]))),
        Err(ProtoError::Other("Invalid signature length".to_string()))
    );
    assert_eq!(
        codec.decode_consensus_message(sig_msg(None, Some(vec![0; 64]))),
        Err(missing("SignedMessage", "message"))
    );
    let m = sig_msg(Some(proto::SignedMessageBody::Vote(Err(ProtoError::Other("v".to_string())))), Some(vec![0; 64]));
    assert_eq!(codec.decode_consensus_message(m), Err(ProtoError::Other("v".to_string())));
}

#[test]
fn consensus_message_roundtrip() {
    let codec = ProtobufCodec;
    let msg: SignedConsensusMsg<Result<String, E>, Result<u32, E>> =
        SignedConsensusMsg::Proposal(SignedMessage::new(Ok("prop".to_string()), Signature::from_bytes([3; 64])));
    let p = codec.encode_consensus_message(msg).unwrap();
    assert_eq!(p.message, Some(proto::SignedMessageBody::Proposal("prop".to_string())));
    let back = proto::SignedMessage {
        message: p.message.map(|b| match b {
            proto::SignedMessageBody::Proposal(x) => proto::SignedMessageBody::Proposal(Ok(x)),
            proto::SignedMessageBody::Vote(x) => proto::SignedMessageBody::Vote(Ok(x)),
        }),
        signature: p.signature,
    };
    assert_eq!(
        codec.decode_consensus_message::<String, u32>(back),
        Ok(SignedConsensusMsg::Proposal(SignedMessage::new("prop".to_string(), Signature::from_bytes([3; 64]))))
    );
}

#[test]
fn stream_message_decodes() {
    let codec = ProtobufCodec;
    let p = proto::StreamMessage { stream_id: vec![1, 2], sequence: 5, content: Some(proto::StreamBody::Data(Ok(17u32))) };
    assert_eq!(
        codec.decode_stream_message(p),
        Ok(StreamMessage { stream_id: StreamId::new(vec![1, 2]), sequence: 5, content: StreamContent::Data(17) })
    );
    let p: proto::StreamMessage<Result<u32, E>> =
        proto::StreamMessage { stream_id: vec![], sequence: 6, content: Some(proto::StreamBody::Fin(false)) };
    assert_eq!(
        codec.decode_stream_message(p),
        Ok(StreamMessage { stream_id: StreamId::new(vec![]), sequence: 6, content: StreamContent::Fin })
    );
    let p: proto::StreamMessage<Result<u32, E>> = proto::StreamMessage { stream_id: vec![], sequence: 6, content: None };
    assert_eq!(codec.decode_stream_message(p), Err(missing("StreamMessage", "content")));
}

#[test]
fn stream_message_encodes() {
    let codec = ProtobufCodec;
    let m: StreamMessage<Result<Vec<u8>, E>> =
        StreamMessage { stream_id: StreamId::new(vec![7]), sequence: 1, content: StreamContent::Fin };
    assert_eq!(
        codec.encode_stream_message(m),
        Ok(proto::StreamMessage { stream_id: vec![7], sequence: 1, content: Some(proto::StreamBody::Fin(true)) })
    );
    let m: StreamMessage<Result<Vec<u8>, E>> = StreamMessage {
        stream_id: StreamId::new(vec![7]),
        sequence: 2,
        content: StreamContent::Data(Ok(vec![1, 1])),
    };
    assert_eq!(
        codec.encode_stream_message(m),
        Ok(proto::StreamMessage { stream_id: vec![7], sequence: 2, content: Some(proto::StreamBody::Data(vec![1, 1])) })
    );
}

fn proto_proposed(
    proposer: Option<Result<u32, E>>,
    value: Option<Result<String, E>>,
    valid_round: Option<u32>,
) -> proto::ProposedValue<Result<u32, E>, Result<String, E>> {
    proto::ProposedValue { height: 10, round: 1, valid_round, proposer, value, validity: true }
}

#[test]
fn proposed_value_decodes() {
    let codec = ProtobufCodec;
    let v = codec.decode_proposed_value(proto_proposed(Some(Ok(2)), Some(Ok("v".to_string())), None)).unwrap();
    assert_eq!(
        v,
        ProposedValue {
            height: Height::new(10),
            round: Round::new(1),
            valid_round: Round::Nil,
            proposer: 2,
            value: "v".to_string(),
            validity: Validity::Valid,
        }
    );
    let v = codec.decode_proposed_value(proto_proposed(Some(Ok(2)), Some(Ok("v".to_string())), Some(0))).unwrap();
    assert_eq!(v.valid_round, Round::new(0));
}

#[test]
fn proposed_value_errors() {
    let codec = ProtobufCodec;
    assert_eq!(
        codec.decode_proposed_value(proto_proposed(None, None, None)),
        Err(missing("ProposedValue", "proposer"))
    );
    assert_eq!(
        codec.decode_proposed_value(proto_proposed(Some(Ok(1)), None, None)),
        Err(missing("ProposedValue", "value"))
    );
    assert_eq!(
        codec.decode_proposed_value(proto_proposed(
            Some(Err(ProtoError::Other("p".to_string()))),
            Some(Err(ProtoError::Other("v".to_string()))),
            None
        )),
        Err(ProtoError::Other("p".to_string()))
    );
}

#[test]
fn proposed_value_encodes() {
    let codec = ProtobufCodec;
    let v: ProposedValue<Result<u32, E>, Result<String, E>> = ProposedValue {
        height: Height::new(4),
        round: Round::new(2),
        valid_round: Round::Nil,
        proposer: Ok(1),
        value: Ok("x".to_string()),
        validity: Validity::Invalid,
    };
    assert_eq!(
        codec.encode_proposed_value(v),
        Ok(proto::ProposedValue {
            height: 4,
            round: 2,
            valid_round: None,
            proposer: Some(1),
            value: Some("x".to_string()),
            validity: false,
        })
    );
}

fn identity_peer_bytes() -> Vec<u8> {
    vec![0x00, 0x04, 1, 2, 3, 4]
}

#[test]
fn status_roundtrip() {
    let codec = ProtobufCodec;
    let peer_id = PeerId::from_bytes(&identity_peer_bytes()).unwrap();
    let status = Status { peer_id, tip_height: Height::new(30), history_min_height: Height::new(5) };
    let p = codec.encode_status(&status).unwrap();
    assert_eq!(p.peer_id, Some(proto::PeerId { id: identity_peer_bytes() }));
    assert_eq!((p.height, p.earliest_height), (30, 5));
    assert_eq!(codec.decode_status(p), Ok(status));
}

#[test]
fn status_errors() {
    let codec = ProtobufCodec;
    let p = proto::Status { peer_id: None, height: 1, earliest_height: 0 };
    assert_eq!(codec.decode_status(p), Err(missing("Status", "peer_id")));
    let p = proto::Status { peer_id: Some(proto::PeerId { id: vec![0x07, 0x00] }), height: 1, earliest_height: 0 };
    assert!(codec.try_decode_status(p).is_none());
    let p = proto::Status { peer_id: Some(proto::PeerId { id: identity_peer_bytes() }), height: 1, earliest_height: 0 };
    assert!(matches!(codec.try_decode_status(p), Some(Ok(_))));
}
