use malachite_codec::error::ProtoError;
use malachite_codec::proto;
use malachite_codec::types::{Signature, SignedMessage, VoteSet};
use malachite_codec::votes::{decode_vote, decode_vote_set, encode_vote, encode_vote_set};

type Msg = proto::SignedMessage<String, Result<u32, ProtoError>>;

fn vote_msg(vote: Result<u32, ProtoError>, sig: Option<Vec<u8>>) -> Msg {
    proto::SignedMessage {
        message: Some(proto::SignedMessageBody::Vote(vote)),
        signature: sig.map(|bytes| proto::Signature { bytes }),
    }
}

#[test]
fn vote_decodes() {
    let v = decode_vote(vote_msg(Ok(3), Some(vec![1; 64]))).unwrap();
    assert_eq!(v, SignedMessage::new(3, Signature::from_bytes([1; 64])));
}

#[test]
fn vote_is_dropped_for_each_fault() {
    assert_eq!(decode_vote(vote_msg(Ok(3), None)), None);
    assert_eq!(decode_vote(vote_msg(Ok(3), Some(vec![1; 10]))), None);
    assert_eq!(decode_vote(vote_msg(Err(ProtoError::Other("x".to_string())), Some(vec![1; 64]))), None);
    let proposal: Msg = proto::SignedMessage {
        message: Some(proto::SignedMessageBody::Proposal("p".to_string())),
        signature: Some(proto::Signature { bytes: vec![1; 64] }),
    };
    assert_eq!(decode_vote(proposal), None);
    let empty: Msg = proto::SignedMessage { message: None, signature: Some(proto::Signature { bytes: vec![1; 64] }) };
    assert_eq!(decode_vote(empty), None);
}

#[test]
fn vote_set_keeps_the_votes_that_read_in_order() {
    let set = proto::VoteSet {
        signed_votes: vec![
            vote_msg(Ok(1), Some(vec![1; 64])),
            vote_msg(Ok(2), None),
            vote_msg(Ok(3), Some(vec![3; 64])),
            vote_msg(Err(ProtoError::Other("bad".to_string())), Some(vec![4; 64])),
            vote_msg(Ok(5), Some(vec![5; 64])),
        ],
    };
    let decoded = decode_vote_set(set).unwrap();
    assert_eq!(
        decoded.votes,
        vec![
            SignedMessage::new(1, Signature::from_bytes([1; 64])),
            SignedMessage::new(3, Signature::from_bytes([3; 64])),
            SignedMessage::new(5, Signature::from_bytes([5; 64])),
        ]
    );
}

#[test]
fn empty_vote_set_decodes_to_empty() {
    let set: proto::VoteSet<String, Result<u32, ProtoError>> = proto::VoteSet { signed_votes: vec![] };
    assert!(decode_vote_set(set).unwrap().votes.is_empty());
}

#[test]
fn vote_encodes() {
    let v = SignedMessage::new(Ok(8), Signature::from_bytes([2; 64]));
    let m = encode_vote::<String, u32>(v).unwrap();
    assert_eq!(m.message, Some(proto::SignedMessageBody::Vote(8)));
    assert_eq!(m.signature, Some(proto::Signature { bytes: vec![2; 64] }));
    let v = SignedMessage::new(Err(ProtoError::Encode("v".to_string())), Signature::from_bytes([2; 64]));
    assert_eq!(encode_vote::<String, u32>(v), Err(ProtoError::Encode("v".to_string())));
}

#[test]
fn vote_set_encoding_reports_the_first_failure() {
    let set = VoteSet {
        votes: vec![
            SignedMessage::new(Ok(1), Signature::from_bytes([1; 64])),
            SignedMessage::new(Err(ProtoError::Other("second".to_string())), Signature::from_bytes([2; 64])),
            SignedMessage::new(Err(ProtoError::Other("third".to_string())), Signature::from_bytes([3; 64])),
        ],
    };
    assert_eq!(encode_vote_set::<String, u32>(set), Err(ProtoError::Other("second".to_string())));
}

#[test]
fn vote_set_roundtrip() {
    let votes: Vec<SignedMessage<u32>> = (0..4u8)
        .map(|i| SignedMessage::new(u32::from(i) * 10, Signature::from_bytes([i; 64])))
        .collect();
    let set = VoteSet { votes: votes.iter().map(|v| SignedMessage::new(Ok(v.message), v.signature)).collect() };
    let p = encode_vote_set::<String, u32>(set).unwrap();
    let back = proto::VoteSet {
        signed_votes: p
            .signed_votes
            .into_iter()
            .map(|m| proto::SignedMessage {
                message: m.message.map(|b| match b {
                    proto::SignedMessageBody::Vote(v) => proto::SignedMessageBody::Vote(Ok(v)),
                    proto::SignedMessageBody::Proposal(p) => proto::SignedMessageBody::Proposal(p),
                }),
                signature: m.signature,
            })
            .collect(),
    };
    assert_eq!(decode_vote_set(back).unwrap(), VoteSet { votes });
}
