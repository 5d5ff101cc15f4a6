use malachite_codec::error::ProtoError;
use malachite_codec::proto;
use malachite_codec::sync::{
    decode_sync_request, decode_sync_response, encode_sync_request, encode_sync_response,
};
use malachite_codec::types::{
    CommitCertificate, CommitSignature, Height, RawDecidedValue, Request, Response, Round, Signature,
    ValueRequest, ValueResponse,
};

type Ok64 = Result<u64, ProtoError>;
type Ok32 = Result<u32, ProtoError>;

fn missing(type_url: &str, field: &'static str) -> ProtoError {
    ProtoError::MissingField { type_url: type_url.to_string(), field }
}

#[test]
fn value_request_decodes() {
    let p: proto::SyncRequest<()> = proto::SyncRequest {
        request: Some(proto::SyncRequestBody::ValueRequest(proto::ValueRequest { height: 12 })),
    };
    assert_eq!(
        decode_sync_request(p),
        Ok(Request::ValueRequest(ValueRequest { height: Height::new(12) }))
    );
}

#[test]
fn request_errors() {
    let p: proto::SyncRequest<()> = proto::SyncRequest { request: None };
    assert_eq!(decode_sync_request(p), Err(missing("SyncRequest", "request")));
    let p: proto::SyncRequest<(u64, u32)> =
        proto::SyncRequest { request: Some(proto::SyncRequestBody::VoteSetRequest((1, 0))) };
    assert_eq!(
        decode_sync_request(p),
        Err(ProtoError::Other("VoteSetRequest not supported".to_string()))
    );
}

#[test]
fn request_roundtrip() {
    for h in [0u64, 1, 1000, u64::MAX] {
        let r = Request::ValueRequest(ValueRequest { height: Height::new(h) });
        let p = encode_sync_request::<()>(&r).unwrap();
        assert_eq!(
            p,
            proto::SyncRequest {
                request: Some(proto::SyncRequestBody::ValueRequest(proto::ValueRequest { height: h }))
            }
        );
        assert_eq!(decode_sync_request(p), Ok(r));
    }
}

fn proto_value(height: u64) -> proto::SyncedValue<Ok64, Ok32> {
    proto::SyncedValue {
        value_bytes: vec![0xAA],
        certificate: Some(proto::CommitCertificate {
            height,
            round: 0,
            value_id: Some(Ok(3)),
            aggregated_signature: Some(proto::AggregatedSignature {
                signatures: vec![proto::CommitSignature {
                    validator_address: Some(Ok(6)),
                    signature: Some(proto::Signature { bytes: vec![5; 64] }),
                }],
            }),
        }),
    }
}

#[test]
fn value_response_decodes() {
    let p: proto::SyncResponse<Ok64, Ok32, ()> = proto::SyncResponse {
        response: Some(proto::SyncResponseBody::ValueResponse(proto::ValueResponse {
            height: 4,
            value: Some(proto_value(4)),
        })),
    };
    let expected = Response::ValueResponse(ValueResponse {
        height: Height::new(4),
        value: Some(RawDecidedValue {
            value_bytes: vec![0xAA],
            certificate: CommitCertificate {
                height: Height::new(4),
                round: Round::new(0),
                value_id: 3,
                commit_signatures: vec![CommitSignature { address: 6, signature: Signature::from_bytes([5; 64]) }],
            },
        }),
    });
    assert_eq!(decode_sync_response(p), Ok(expected));
}

#[test]
fn empty_value_response_decodes() {
    let p: proto::SyncResponse<Ok64, Ok32, ()> = proto::SyncResponse {
        response: Some(proto::SyncResponseBody::ValueResponse(proto::ValueResponse { height: 9, value: None })),
    };
    assert_eq!(
        decode_sync_response(p),
        Ok(Response::ValueResponse(ValueResponse { height: Height::new(9), value: None }))
    );
}

#[test]
fn response_errors() {
    let p: proto::SyncResponse<Ok64, Ok32, ()> = proto::SyncResponse { response: None };
    assert_eq!(decode_sync_response(p), Err(missing("SyncResponse", "response")));
    let p: proto::SyncResponse<Ok64, Ok32, ()> =
        proto::SyncResponse { response: Some(proto::SyncResponseBody::VoteSetResponse(())) };
    assert_eq!(
        decode_sync_response(p),
        Err(ProtoError::Other("VoteSetResponse not supported".to_string()))
    );
    let mut bad = proto_value(4);
    bad.certificate = None;
    let p: proto::SyncResponse<Ok64, Ok32, ()> = proto::SyncResponse {
        response: Some(proto::SyncResponseBody::ValueResponse(proto::ValueResponse { height: 4, value: Some(bad) })),
    };
    assert_eq!(decode_sync_response(p), Err(missing("SyncedValue", "certificate")));
}

#[test]
fn response_encodes() {
    let r: Response<Ok64, Ok32> = Response::ValueResponse(ValueResponse {
        height: Height::new(2),
        value: Some(RawDecidedValue {
            value_bytes: vec![1],
            certificate: CommitCertificate {
                height: Height::new(2),
                round: Round::new(5),
                value_id: Ok(8),
                commit_signatures: vec![],
            },
        }),
    });
    let p = encode_sync_response::<u64, u32, ()>(r).unwrap();
    match p.response {
        Some(proto::SyncResponseBody::ValueResponse(v)) => {
            assert_eq!(v.height, 2);
            let c = v.value.unwrap().certificate.unwrap();
            assert_eq!((c.round, c.value_id), (5, Some(8)));
        }
        _ => panic!("expected a value response"),
    }
    let r: Response<Ok64, Ok32> = Response::ValueResponse(ValueResponse {
        height: Height::new(2),
        value: Some(RawDecidedValue {
            value_bytes: vec![1],
            certificate: CommitCertificate {
                height: Height::new(2),
                round: Round::new(5),
                value_id: Err(ProtoError::Encode("no".to_string())),
                commit_signatures: vec![],
            },
        }),
    });
    assert_eq!(encode_sync_response::<u64, u32, ()>(r), Err(ProtoError::Encode("no".to_string())));
}
