use malachite_codec::certificate::{
    decode_certificate, decode_extension, decode_signature, decode_synced_value, encode_certificate,
    encode_extension, encode_signature, encode_synced_value,
};
use malachite_codec::error::ProtoError;
use malachite_codec::proto;
use malachite_codec::types::{
    CommitCertificate, CommitSignature, Height, RawDecidedValue, Round, Signature, SignedExtension,
};

fn sig(b: u8) -> Signature {
    Signature::from_bytes([b; 64])
}

fn proto_sig(b: u8) -> proto::Signature {
    proto::Signature { bytes: vec![b; 64] }
}

fn missing(type_url: &str, field: &'static str) -> ProtoError {
    ProtoError::MissingField { type_url: type_url.to_string(), field }
}

fn proto_cert(
    value_id: Option<Result<u64, ProtoError>>,
    sigs: Option<Vec<proto::CommitSignature<Result<u32, ProtoError>>>>,
) -> proto::CommitCertificate<Result<u64, ProtoError>, Result<u32, ProtoError>> {
    proto::CommitCertificate {
        height: 7,
        round: 2,
        value_id,
        aggregated_signature: sigs.map(|signatures| proto::AggregatedSignature { signatures }),
    }
}

fn proto_commit_sig(
    address: Option<Result<u32, ProtoError>>,
    signature: Option<proto::Signature>,
) -> proto::CommitSignature<Result<u32, ProtoError>> {
    proto::CommitSignature { validator_address: address, signature }
}

#[test]
fn signature_encodes_to_its_bytes() {
    let mut bytes = [0u8; 64];
    for (i, b) in bytes.iter_mut().enumerate() {
        *b = i as u8;
    }
    let p = encode_signature(&Signature::from_bytes(bytes));
    assert_eq!(p.bytes, bytes.to_vec());
    assert_eq!(decode_signature(p).unwrap().to_bytes(), bytes);
}

#[test]
fn signature_of_wrong_length_is_refused() {
    let expected = ProtoError::Other("Invalid signature length".to_string());
    assert_eq!(decode_signature(proto::Signature { bytes: vec![1; 63] }), Err(expected.clone()));
    assert_eq!(decode_signature(proto::Signature { bytes: vec![1; 65] }), Err(expected.clone()));
    assert_eq!(decode_signature(proto::Signature { bytes: vec![] }), Err(expected));
}

#[test]
fn certificate_decodes_in_order() {
    let p = proto_cert(
        Some(Ok(99)),
        Some(vec![
            proto_commit_sig(Some(Ok(1)), Some(proto_sig(1))),
            proto_commit_sig(Some(Ok(2)), Some(proto_sig(2))),
        ]),
    );
    let c = decode_certificate(p).unwrap();
    assert_eq!(c.height, Height(7));
    assert_eq!(c.round, Round::new(2));
    assert_eq!(c.value_id, 99);
    assert_eq!(
        c.commit_signatures,
        vec![
            CommitSignature { address: 1, signature: sig(1) },
            CommitSignature { address: 2, signature: sig(2) },
        ]
    );
}

#[test]
fn certificate_with_no_signatures_decodes() {
    let c = decode_certificate(proto_cert(Some(Ok(5)), Some(vec![]))).unwrap();
    assert!(c.commit_signatures.is_empty());
}

#[test]
fn certificate_errors() {
    assert_eq!(
        decode_certificate(proto_cert(None, None)),
        Err(missing("CommitCertificate", "value_id"))
    );
    assert_eq!(
        decode_certificate(proto_cert(Some(Err(ProtoError::Other("bad id".to_string()))), None)),
        Err(ProtoError::Other("bad id".to_string()))
    );
    assert_eq!(
        decode_certificate(proto_cert(Some(Ok(1)), None)),
        Err(missing("CommitCertificate", "aggregated_signature"))
    );
    assert_eq!(
        decode_certificate(proto_cert(Some(Ok(1)), Some(vec![proto_commit_sig(Some(Ok(1)), None)]))),
        Err(missing("CommitSignature", "signature"))
    );
    assert_eq!(
        decode_certificate(proto_cert(
            Some(Ok(1)),
            Some(vec![proto_commit_sig(None, Some(proto::Signature { bytes: vec![0; 3] }))])
        )),
        Err(ProtoError::Other("Invalid signature length".to_string()))
    );
    assert_eq!(
        decode_certificate(proto_cert(Some(Ok(1)), Some(vec![proto_commit_sig(None, Some(proto_sig(0)))]))),
        Err(missing("CommitSignature", "validator_address"))
    );
}

#[test]
fn certificate_reports_the_first_bad_signature() {
    let p = proto_cert(
        Some(Ok(1)),
        Some(vec![
            proto_commit_sig(Some(Ok(1)), Some(proto_sig(1))),
            proto_commit_sig(Some(Err(ProtoError::Other("first".to_string()))), Some(proto_sig(2))),
            proto_commit_sig(None, Some(proto_sig(3))),
        ]),
    );
    assert_eq!(decode_certificate(p), Err(ProtoError::Other("first".to_string())));
}

#[test]
fn certificate_encodes() {
    let c: CommitCertificate<Result<u64, ProtoError>, Result<u32, ProtoError>> = CommitCertificate {
        height: Height::new(11),
        round: Round::new(3),
        value_id: Ok(42),
        commit_signatures: vec![CommitSignature { address: Ok(9), signature: sig(4) }],
    };
    let p = encode_certificate(c).unwrap();
    assert_eq!(p.height, 11);
    assert_eq!(p.round, 3);
    assert_eq!(p.value_id, Some(42));
    assert_eq!(
        p.aggregated_signature,
        Some(proto::AggregatedSignature {
            signatures: vec![proto::CommitSignature { validator_address: Some(9), signature: Some(proto_sig(4)) }]
        })
    );
}

#[test]
fn certificate_encoding_reports_signatures_before_value_id() {
    let c: CommitCertificate<Result<u64, ProtoError>, Result<u32, ProtoError>> = CommitCertificate {
        height: Height::new(1),
        round: Round::new(0),
        value_id: Err(ProtoError::Other("id".to_string())),
        commit_signatures: vec![
            CommitSignature { address: Ok(1), signature: sig(1) },
            CommitSignature { address: Err(ProtoError::Other("addr".to_string())), signature: sig(2) },
        ],
    };
    assert_eq!(encode_certificate::<u64, u32>(c), Err(ProtoError::Other("addr".to_string())));
    let c: CommitCertificate<Result<u64, ProtoError>, Result<u32, ProtoError>> = CommitCertificate {
        height: Height::new(1),
        round: Round::new(0),
        value_id: Err(ProtoError::Other("id".to_string())),
        commit_signatures: vec![],
    };
    assert_eq!(encode_certificate::<u64, u32>(c), Err(ProtoError::Other("id".to_string())));
}

#[test]
fn certificate_roundtrip() {
    let c: CommitCertificate<u64, u32> = CommitCertificate {
        height: Height::new(20),
        round: Round::new(4),
        value_id: 77,
        commit_signatures: vec![
            CommitSignature { address: 1, signature: sig(10) },
            CommitSignature { address: 2, signature: sig(20) },
        ],
    };
    let with_ok = CommitCertificate {
        height: c.height,
        round: c.round,
        value_id: Ok(c.value_id),
        commit_signatures: c
            .commit_signatures
            .iter()
            .map(|s| CommitSignature { address: Ok(s.address), signature: s.signature })
            .collect(),
    };
    let p = encode_certificate::<u64, u32>(with_ok).unwrap();
    let back = proto::CommitCertificate {
        height: p.height,
        round: p.round,
        value_id: p.value_id.map(Ok),
        aggregated_signature: p.aggregated_signature.map(|a| proto::AggregatedSignature {
            signatures: a
                .signatures
                .into_iter()
                .map(|s| proto::CommitSignature {
                    validator_address: s.validator_address.map(Ok),
                    signature: s.signature,
                })
                .collect(),
        }),
    };
    assert_eq!(decode_certificate(back), Ok(c));
}

#[test]
fn synced_value_decodes_and_needs_a_certificate() {
    let p = proto::SyncedValue { value_bytes: vec![1, 2, 3], certificate: Some(proto_cert(Some(Ok(8)), Some(vec![]))) };
    let v = decode_synced_value(p).unwrap();
    assert_eq!(v.value_bytes, vec![1, 2, 3]);
    assert_eq!(v.certificate.value_id, 8);
    let p: proto::SyncedValue<Result<u64, ProtoError>, Result<u32, ProtoError>> =
        proto::SyncedValue { value_bytes: vec![1], certificate: None };
    assert_eq!(decode_synced_value(p), Err(missing("SyncedValue", "certificate")));
}

#[test]
fn synced_value_encodes() {
    let v: RawDecidedValue<Result<u64, ProtoError>, Result<u32, ProtoError>> = RawDecidedValue {
        value_bytes: vec![9, 9],
        certificate: CommitCertificate {
            height: Height::new(3),
            round: Round::new(1),
            value_id: Ok(5),
            commit_signatures: vec![],
        },
    };
    let p = encode_synced_value::<u64, u32>(v).unwrap();
    assert_eq!(p.value_bytes, vec![9, 9]);
    let c = p.certificate.unwrap();
    assert_eq!((c.height, c.round, c.value_id), (3, 1, Some(5)));
}

#[test]
fn extension_roundtrip_and_errors() {
    let ext = SignedExtension::new(vec![4, 5, 6], sig(7));
    let p = encode_extension(&ext).unwrap();
    assert_eq!(p.data, vec![4, 5, 6]);
    assert_eq!(p.signature, Some(proto_sig(7)));
    assert_eq!(decode_extension(p), Ok(ext));
    assert_eq!(
        decode_extension(proto::Extension { data: vec![], signature: None }),
        Err(missing("Extension", "signature"))
    );
    assert_eq!(
        decode_extension(proto::Extension { data: vec![], signature: Some(proto::Signature { bytes: vec![1] }) }),
        Err(ProtoError::Other("Invalid signature length".to_string()))
    );
}
