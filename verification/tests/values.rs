use malachite_codec::error::ProtoError;
use malachite_codec::messages::ProtobufCodec;
use malachite_codec::proto;
use malachite_codec::sync::{decode_sync_response, encode_sync_response};
use malachite_codec::types::{
    CommitCertificate, CommitSignature, Height, ProposedValue, RawDecidedValue, Response, Round, Signature,
    StreamContent, StreamId, StreamMessage, Validity, ValueResponse,
};

#[test]
fn heights_and_rounds() {
    assert_eq!(Height::new(17).as_u64(), 17);
    assert_eq!(Round::new(3).as_u32(), Some(3));
    assert_eq!(Round::Nil.as_u32(), None);
    assert_eq!(Round::new(0), Round::Defined(0));
}

#[test]
fn validity_and_booleans() {
    assert_eq!(Validity::from_bool(true), Validity::Valid);
    assert_eq!(Validity::from_bool(false), Validity::Invalid);
    assert!(Validity::Valid.to_bool());
    assert!(!Validity::Invalid.to_bool());
}

#[test]
fn stream_ids_keep_their_bytes() {
    assert_eq!(StreamId::new(vec![3, 1, 4]).to_bytes(), vec![3, 1, 4]);
}

#[test]
fn sync_response_roundtrip() {
    let cert: CommitCertificate<u64, u32> = CommitCertificate {
        height: Height::new(8),
        round: Round::new(1),
        value_id: 1234,
        commit_signatures: vec![CommitSignature { address: 77, signature: Signature::from_bytes([6; 64]) }],
    };
    let response = Response::ValueResponse(ValueResponse {
        height: Height::new(8),
        value: Some(RawDecidedValue { value_bytes: vec![0, 1, 2], certificate: cert.clone() }),
    });
    let with_ok: Response<Result<u64, ProtoError>, Result<u32, ProtoError>> = Response::ValueResponse(ValueResponse {
        height: Height::new(8),
        value: Some(RawDecidedValue {
            value_bytes: vec![0, 1, 2],
            certificate: CommitCertificate {
                height: cert.height,
                round: cert.round,
                value_id: Ok(cert.value_id),
                commit_signatures: vec![CommitSignature { address: Ok(77), signature: Signature::from_bytes([6; 64]) }],
            },
        }),
    });
    let p = encode_sync_response::<u64, u32, ()>(with_ok).unwrap();
    let back: proto::SyncResponse<Result<u64, ProtoError>, Result<u32, ProtoError>, ()> = match p.response {
        Some(proto::SyncResponseBody::ValueResponse(v)) => proto::SyncResponse {
            response: Some(proto::SyncResponseBody::ValueResponse(proto::ValueResponse {
                height: v.height,
                value: v.value.map(|s| proto::SyncedValue {
                    value_bytes: s.value_bytes,
                    certificate: s.certificate.map(|c| proto::CommitCertificate {
                        height: c.height,
                        round: c.round,
                        value_id: c.value_id.map(Ok),
                        aggregated_signature: c.aggregated_signature.map(|a| proto::AggregatedSignature {
                            signatures: a
                                .signatures
                                .into_iter()
                                .map(|x| proto::CommitSignature {
                                    validator_address: x.validator_address.map(Ok),
                                    signature: x.signature,
                                })
                                .collect(),
                        }),
                    }),
                }),
            })),
        },
        _ => panic!("expected a value response"),
    };
    assert_eq!(decode_sync_response(back), Ok(response));
}

#[test]
fn stream_message_roundtrip() {
    let codec = ProtobufCodec;
    let m: StreamMessage<Result<Vec<u8>, ProtoError>> = StreamMessage {
        stream_id: StreamId::new(vec![9, 9]),
        sequence: 42,
        content: StreamContent::Data(Ok(vec![5, 6])),
    };
    let p = codec.encode_stream_message(m).unwrap();
    let back = proto::StreamMessage {
        stream_id: p.stream_id,
        sequence: p.sequence,
        content: p.content.map(|c| match c {
            proto::StreamBody::Data(d) => proto::StreamBody::Data(Ok(d)),
            proto::StreamBody::Fin(b) => proto::StreamBody::Fin(b),
        }),
    };
    assert_eq!(
        codec.decode_stream_message(back),
        Ok(StreamMessage { stream_id: StreamId::new(vec![9, 9]), sequence: 42, content: StreamContent::Data(vec![5, 6]) })
    );
}

#[test]
fn proposed_value_roundtrip() {
    let codec = ProtobufCodec;
    let v = ProposedValue {
        height: Height::new(100),
        round: Round::new(7),
        valid_round: Round::new(6),
        proposer: 3u32,
        value: 99u64,
        validity: Validity::Valid,
    };
    let p = codec
        .encode_proposed_value(ProposedValue {
            height: v.height,
            round: v.round,
            valid_round: v.valid_round,
            proposer: Ok(v.proposer),
            value: Ok(v.value),
            validity: v.validity,
        })
        .unwrap();
    assert_eq!(p.valid_round, Some(6));
    let back = proto::ProposedValue {
        height: p.height,
        round: p.round,
        valid_round: p.valid_round,
        proposer: p.proposer.map(Ok),
        value: p.value.map(Ok),
        validity: p.validity,
    };
    assert_eq!(codec.decode_proposed_value(back), Ok(v));
}
