//! The codec of consensus and sync messages: signed proposals and votes, streamed
//! proposal parts, proposed values and peer statuses, to and from their messages.
//!
//! The payloads that the application converts itself (proposals, votes, addresses,
//! values, proposal parts) arrive as the results of those conversions, where the
//! messages hold them.

use vstd::prelude::*;
use crate::certificate::{decode_signature, decode_signature_spec, encode_signature};
use crate::error::{missing, missing_field, result_deep_view, result_view, ProtoError, ProtoErrorView};
use crate::peer::{peer_id_from_bytes, PeerId};
use crate::proto;
use crate::types::{
    Height, ProposedValue, Round, SignedConsensusMsg, SignedConsensusMsgView, SignedMessage,
    SignedMessageView, Status, StatusView, StreamContent, StreamId, StreamMessage,
    StreamMessageView, Validity, validity_of,
};

verus! {

/// The protobuf codec of the messages of an application.
#[derive(Debug, Clone, Copy, PartialEq, Eq)]
pub struct ProtobufCodec;

/// A signed proposal or vote read from its message: its signature first, then its body.
pub open spec fn decode_consensus_message_spec<P, V>(
    msg: proto::SignedMessageView<Result<P, ProtoError>, Result<V, ProtoError>>,
) -> Result<SignedConsensusMsgView<P, V>, ProtoErrorView> {
    match msg.signature {
        None => Err(missing("SignedMessage", "signature")),
        Some(bytes) => match decode_signature_spec(bytes) {
            Err(e) => Err(e),
            Ok(signature) => match msg.message {
                None => Err(missing("SignedMessage", "message")),
                Some(proto::SignedMessageBody::Proposal(Err(e))) => Err(e@),
                Some(proto::SignedMessageBody::Proposal(Ok(p))) => Ok(
                    SignedConsensusMsgView::Proposal(SignedMessageView { message: p, signature }),
                ),
                Some(proto::SignedMessageBody::Vote(Err(e))) => Err(e@),
                Some(proto::SignedMessageBody::Vote(Ok(v))) => Ok(
                    SignedConsensusMsgView::Vote(SignedMessageView { message: v, signature }),
                ),
            },
        },
    }
}

/// A signed proposal or vote written into its message.
pub open spec fn encode_consensus_message_spec<P, V>(
    msg: SignedConsensusMsgView<Result<P, ProtoError>, Result<V, ProtoError>>,
) -> Result<proto::SignedMessageView<P, V>, ProtoErrorView> {
    match msg {
        SignedConsensusMsgView::Vote(v) => match v.message {
            Err(e) => Err(e@),
            Ok(m) => Ok(
                proto::SignedMessageView {
                    message: Some(proto::SignedMessageBody::Vote(m)),
                    signature: Some(v.signature),
                },
            ),
        },
        SignedConsensusMsgView::Proposal(p) => match p.message {
            Err(e) => Err(e@),
            Ok(m) => Ok(
                proto::SignedMessageView {
                    message: Some(proto::SignedMessageBody::Proposal(m)),
                    signature: Some(p.signature),
                },
            ),
        },
    }
}

/// A stream message read from its message: it must hold a content, and data must read.
pub open spec fn decode_stream_message_spec<T>(
    msg: proto::StreamMessageView<Result<T, ProtoError>>,
) -> Result<StreamMessageView<T>, ProtoErrorView> {
    match msg.content {
        None => Err(missing("StreamMessage", "content")),
        Some(proto::StreamBody::Data(Err(e))) => Err(e@),
        Some(proto::StreamBody::Data(Ok(t))) => Ok(
            StreamMessageView {
                stream_id: msg.stream_id,
                sequence: msg.sequence,
                content: StreamContent::Data(t),
            },
        ),
        Some(proto::StreamBody::Fin(_)) => Ok(
            StreamMessageView {
                stream_id: msg.stream_id,
                sequence: msg.sequence,
                content: StreamContent::Fin,
            },
        ),
    }
}

/// A stream message written into its message; the end of a stream is marked `true`.
pub open spec fn encode_stream_message_spec<D>(
    msg: StreamMessageView<Result<D, ProtoError>>,
) -> Result<proto::StreamMessageView<D>, ProtoErrorView> {
    match msg.content {
        StreamContent::Data(Err(e)) => Err(e@),
        StreamContent::Data(Ok(d)) => Ok(
            proto::StreamMessageView {
                stream_id: msg.stream_id,
                sequence: msg.sequence,
                content: Some(proto::StreamBody::Data(d)),
            },
        ),
        StreamContent::Fin => Ok(
            proto::StreamMessageView {
                stream_id: msg.stream_id,
                sequence: msg.sequence,
                content: Some(proto::StreamBody::Fin(true)),
            },
        ),
    }
}

/// A proposed value read from its message: it must hold a proposer and a value, which
/// must read, the proposer first; an absent valid round is the nil round.
pub open spec fn decode_proposed_value_spec<A, T>(
    msg: proto::ProposedValue<Result<A, ProtoError>, Result<T, ProtoError>>,
) -> Result<ProposedValue<A, T>, ProtoErrorView> {
    match (msg.proposer, msg.value) {
        (None, _) => Err(missing("ProposedValue", "proposer")),
        (Some(_), None) => Err(missing("ProposedValue", "value")),
        (Some(Err(e)), Some(_)) => Err(e@),
        (Some(Ok(_)), Some(Err(e))) => Err(e@),
        (Some(Ok(proposer)), Some(Ok(value))) => Ok(
            ProposedValue {
                height: Height(msg.height),
                round: Round::Defined(msg.round),
                valid_round: match msg.valid_round {
                    Some(r) => Round::Defined(r),
                    None => Round::Nil,
                },
                proposer,
                value,
                validity: validity_of(msg.validity),
            },
        ),
    }
}

/// A proposed value written into its message: the proposer first, then the value.
pub open spec fn encode_proposed_value_spec<A, T>(
    msg: ProposedValue<Result<A, ProtoError>, Result<T, ProtoError>>,
) -> Result<proto::ProposedValue<A, T>, ProtoErrorView> {
    match (msg.proposer, msg.value) {
        (Err(e), _) => Err(e@),
        (Ok(_), Err(e)) => Err(e@),
        (Ok(proposer), Ok(value)) => Ok(
            proto::ProposedValue {
                height: msg.height.0,
                round: crate::types::round_number(msg.round).unwrap(),
                valid_round: crate::types::round_number(msg.valid_round),
                proposer: Some(proposer),
                value: Some(value),
                validity: msg.validity == Validity::Valid,
            },
        ),
    }
}

/// Reading a status stops where its peer identity does not parse.
pub open spec fn decode_status_panics(msg: proto::StatusView) -> bool {
    match msg.peer_id {
        Some(id) => peer_id_from_bytes(id) is None,
        None => false,
    }
}

/// A status read from its message: it must hold a peer identity.
pub open spec fn decode_status_spec(msg: proto::StatusView) -> Result<StatusView, ProtoErrorView> {
    match msg.peer_id {
        None => Err(missing("Status", "peer_id")),
        Some(id) => Ok(
            StatusView {
                peer_id: peer_id_from_bytes(id).unwrap(),
                tip_height: Height(msg.height),
                history_min_height: Height(msg.earliest_height),
            },
        ),
    }
}

/// The message of a status.
pub open spec fn encode_status_spec(status: StatusView) -> proto::StatusView {
    proto::StatusView {
        peer_id: Some(status.peer_id),
        height: status.tip_height.0,
        earliest_height: status.history_min_height.0,
    }
}

impl ProtobufCodec {
    /// Reads a signed proposal or vote from its message; the message must hold a
    /// signature of 64 bytes and a body whose conversion succeeded.
    pub fn decode_consensus_message<P, V>(
        &self,
        proto: proto::SignedMessage<Result<P, ProtoError>, Result<V, ProtoError>>,
    ) -> (r: Result<SignedConsensusMsg<P, V>, ProtoError>)
        ensures
            result_deep_view(r) == decode_consensus_message_spec(proto@),
    {
        let signature = match proto.signature {
            None => return Err(missing_field("SignedMessage", "signature")),
            Some(s) => decode_signature(s),
        };
        let signature = match signature {
            Err(e) => return Err(e),
            Ok(s) => s,
        };
        let proto_message = match proto.message {
            None => return Err(missing_field("SignedMessage", "message")),
            Some(m) => m,
        };
        match proto_message {
            proto::SignedMessageBody::Proposal(proposal) => match proposal {
                Err(e) => Err(e),
                Ok(p) => Ok(SignedConsensusMsg::Proposal(SignedMessage::new(p, signature))),
            },
            proto::SignedMessageBody::Vote(vote) => match vote {
                Err(e) => Err(e),
                Ok(v) => Ok(SignedConsensusMsg::Vote(SignedMessage::new(v, signature))),
            },
        }
    }

    /// Writes a signed proposal or vote into its message; its body arrives as the result
    /// of its own conversion, whose error is returned.
    pub fn encode_consensus_message<P, V>(
        &self,
        msg: SignedConsensusMsg<Result<P, ProtoError>, Result<V, ProtoError>>,
    ) -> (r: Result<proto::SignedMessage<P, V>, ProtoError>)
        ensures
            result_deep_view(r) == encode_consensus_message_spec(msg@),
    {
        match msg {
            SignedConsensusMsg::Vote(vote) => match vote.message {
                Err(e) => Err(e),
                Ok(m) => Ok(
                    proto::SignedMessage {
                        message: Some(proto::SignedMessageBody::Vote(m)),
                        signature: Some(encode_signature(&vote.signature)),
                    },
                ),
            },
            SignedConsensusMsg::Proposal(proposal) => match proposal.message {
                Err(e) => Err(e),
                Ok(m) => Ok(
                    proto::SignedMessage {
                        message: Some(proto::SignedMessageBody::Proposal(m)),
                        signature: Some(encode_signature(&proposal.signature)),
                    },
                ),
            },
        }
    }

    /// Reads a message of a stream of proposal parts; the data arrives as the result of
    /// reading the part from its bytes, whose error is returned.
    pub fn decode_stream_message<T>(
        &self,
        proto: proto::StreamMessage<Result<T, ProtoError>>,
    ) -> (r: Result<StreamMessage<T>, ProtoError>)
        ensures
            result_deep_view(r) == decode_stream_message_spec(proto@),
    {
        let proto_content = match proto.content {
            None => return Err(missing_field("StreamMessage", "content")),
            Some(c) => c,
        };
        let content = match proto_content {
            proto::StreamBody::Data(data) => match data {
                Err(e) => return Err(e),
                Ok(d) => StreamContent::Data(d),
            },
            proto::StreamBody::Fin(_) => StreamContent::Fin,
        };
        Ok(StreamMessage { stream_id: StreamId::new(proto.stream_id), sequence: proto.sequence, content })
    }

    /// Writes a message of a stream of proposal parts; the data arrives as the result of
    /// writing the part to bytes, whose error is returned.
    pub fn encode_stream_message<D>(
        &self,
        msg: StreamMessage<Result<D, ProtoError>>,
    ) -> (r: Result<proto::StreamMessage<D>, ProtoError>)
        ensures
            result_deep_view(r) == encode_stream_message_spec(msg@),
    {
        let stream_id = msg.stream_id.to_bytes();
        let content = match msg.content {
            StreamContent::Data(data) => match data {
                Err(e) => return Err(e),
                Ok(d) => Some(proto::StreamBody::Data(d)),
            },
            StreamContent::Fin => Some(proto::StreamBody::Fin(true)),
        };
        Ok(proto::StreamMessage { stream_id, sequence: msg.sequence, content })
    }

    /// Reads a proposed value from its message; the proposer and the value arrive as the
    /// results of their own conversions.
    pub fn decode_proposed_value<A, T>(
        &self,
        proto: proto::ProposedValue<Result<A, ProtoError>, Result<T, ProtoError>>,
    ) -> (r: Result<ProposedValue<A, T>, ProtoError>)
        ensures
            result_view(r) == decode_proposed_value_spec(proto),
    {
        let proposer = match proto.proposer {
            None => return Err(missing_field("ProposedValue", "proposer")),
            Some(p) => p,
        };
        let value = match proto.value {
            None => return Err(missing_field("ProposedValue", "value")),
            Some(v) => v,
        };
        let valid_round = match proto.valid_round {
            Some(r) => Round::new(r),
            None => Round::Nil,
        };
        let proposer = match proposer {
            Err(e) => return Err(e),
            Ok(p) => p,
        };
        let value = match value {
            Err(e) => return Err(e),
            Ok(v) => v,
        };
        Ok(
            ProposedValue {
                height: Height::new(proto.height),
                round: Round::new(proto.round),
                valid_round,
                proposer,
                value,
                validity: Validity::from_bool(proto.validity),
            },
        )
    }

    /// Writes a proposed value into its message; the proposer and the value arrive as the
    /// results of their own conversions, the proposer's error first. A proposed value of
    /// nil round cannot be written.
    pub fn encode_proposed_value<A, T>(
        &self,
        msg: ProposedValue<Result<A, ProtoError>, Result<T, ProtoError>>,
    ) -> (r: Result<proto::ProposedValue<A, T>, ProtoError>)
        requires
            msg.round != Round::Nil,
        ensures
            result_view(r) == encode_proposed_value_spec(msg),
    {
        let round = match msg.round {
            Round::Defined(r) => r,
            Round::Nil => 0,
        };
        let valid_round = msg.valid_round.as_u32();
        let proposer = match msg.proposer {
            Err(e) => return Err(e),
            Ok(p) => p,
        };
        let value = match msg.value {
            Err(e) => return Err(e),
            Ok(v) => v,
        };
        Ok(
            proto::ProposedValue {
                height: msg.height.as_u64(),
                round,
                valid_round,
                proposer: Some(proposer),
                value: Some(value),
                validity: msg.validity.to_bool(),
            },
        )
    }

    /// Reads a peer status from its message; the message must hold a peer identity,
    /// which must parse.
    pub fn decode_status(&self, proto: proto::Status) -> (r: Result<Status, ProtoError>)
        requires
            !decode_status_panics(proto@),
        ensures
            result_deep_view(r) == decode_status_spec(proto@),
    {
        let proto_peer_id = match proto.peer_id {
            None => return Err(missing_field("Status", "peer_id")),
            Some(p) => p,
        };
        let peer_id = match PeerId::from_bytes(proto_peer_id.id.as_slice()) {
            Some(p) => p,
            None => {
                // The requires rules this out: the identity parses.
                proof {
                    assert(false);
                }
                return Err(missing_field("Status", "peer_id"));
            },
        };
        Ok(
            Status {
                peer_id,
                history_min_height: Height::new(proto.earliest_height),
                tip_height: Height::new(proto.height),
            },
        )
    }

    /// Reads a peer status from its message, as [`Self::decode_status`] does; `None` where
    /// the message holds a peer identity that does not parse.
    pub fn try_decode_status(&self, proto: proto::Status) -> (r: Option<Result<Status, ProtoError>>)
        ensures
            r is None <==> decode_status_panics(proto@),
            r matches Some(d) ==> result_deep_view(d) == decode_status_spec(proto@),
    {
        let parses = match &proto.peer_id {
            Some(p) => PeerId::from_bytes(p.id.as_slice()).is_some(),
            None => true,
        };
        if parses {
            Some(self.decode_status(proto))
        } else {
            None
        }
    }

    /// Writes a peer status into its message; this always succeeds.
    pub fn encode_status(&self, status: &Status) -> (r: Result<proto::Status, ProtoError>)
        ensures
            r matches Ok(s) && s@ == encode_status_spec(status@),
    {
        Ok(
            proto::Status {
                peer_id: Some(proto::PeerId { id: status.peer_id.to_bytes() }),
                height: status.tip_height.as_u64(),
                earliest_height: status.history_min_height.as_u64(),
            },
        )
    }
}

} // verus!
