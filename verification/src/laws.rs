//! What holds across the codec: each value written into its message reads back as the
//! same value.
//!
//! The payloads that the application converts itself are taken here with conversions
//! that succeed and give back what they were given (`Ok` of the payload, both ways);
//! the laws then speak of the codec's own part.

use vstd::prelude::*;
use crate::certificate::{
    decode_certificate_spec, decode_commit_signature_spec, decode_extension_spec,
    decode_signature_spec, decode_synced_value_spec, encode_certificate_panics,
    encode_certificate_spec, encode_commit_signature_spec, encode_commit_signatures_spec,
    encode_synced_value_spec,
};
use crate::error::ProtoError;
use crate::messages::{
    decode_consensus_message_spec, decode_proposed_value_spec, decode_status_panics,
    decode_status_spec, decode_stream_message_spec, encode_consensus_message_spec,
    encode_proposed_value_spec, encode_status_spec, encode_stream_message_spec,
};
use crate::peer::peer_id_from_bytes;
use crate::proto;
use crate::seqs::{lemma_collect_all_ok, lemma_collect_ok_items, lemma_filter_all_some};
use crate::sync::{
    decode_sync_request_spec, decode_sync_response_spec, encode_sync_request_spec,
    encode_sync_response_panics, encode_sync_response_spec,
};
use crate::types::{
    CommitCertificateView, CommitSignatureView, ProposedValue, RawDecidedValueView, Request,
    ResponseView, Round, SignedConsensusMsgView, SignedExtensionView, SignedMessageView,
    StatusView, StreamContent, StreamMessageView, ValueResponseView, VoteSetView,
};
use crate::votes::{decode_vote_set_spec, decode_vote_spec, encode_vote_set_spec, encode_vote_spec};

verus! {

/// A payload whose conversion succeeded with `t`.
pub open spec fn ok<T>(t: T) -> Result<T, ProtoError> {
    Ok(t)
}

/// An optional payload whose conversion, if it is there, succeeded.
pub open spec fn ok_opt<T>(o: Option<T>) -> Option<Result<T, ProtoError>> {
    match o {
        Some(t) => Some(Ok(t)),
        None => None,
    }
}

/// A certificate whose value id and addresses all converted.
pub open spec fn certificate_ok<I, A>(c: CommitCertificateView<I, A>) -> CommitCertificateView<
    Result<I, ProtoError>,
    Result<A, ProtoError>,
> {
    CommitCertificateView {
        height: c.height,
        round: c.round,
        value_id: ok(c.value_id),
        commit_signatures: c.commit_signatures.map_values(
            |s: CommitSignatureView<A>| CommitSignatureView { address: ok(s.address), signature: s.signature },
        ),
    }
}

/// A signature message whose address, if it is there, converted.
pub open spec fn proto_commit_signature_ok<A>(s: proto::CommitSignatureView<A>) -> proto::CommitSignatureView<
    Result<A, ProtoError>,
> {
    proto::CommitSignatureView { validator_address: ok_opt(s.validator_address), signature: s.signature }
}

/// A certificate message whose value id and addresses, where they are there, converted.
pub open spec fn proto_certificate_ok<I, A>(c: proto::CommitCertificateView<I, A>) -> proto::CommitCertificateView<
    Result<I, ProtoError>,
    Result<A, ProtoError>,
> {
    proto::CommitCertificateView {
        height: c.height,
        round: c.round,
        value_id: ok_opt(c.value_id),
        aggregated_signature: match c.aggregated_signature {
            Some(agg) => Some(
                proto::AggregatedSignatureView {
                    signatures: agg.signatures.map_values(
                        |s: proto::CommitSignatureView<A>| proto_commit_signature_ok(s),
                    ),
                },
            ),
            None => None,
        },
    }
}

/// Every signature of a certificate holds 64 bytes, as a [`crate::types::Signature`] does.
pub open spec fn certificate_signatures_valid<I, A>(c: CommitCertificateView<I, A>) -> bool {
    forall|k: int| 0 <= k < c.commit_signatures.len() ==> #[trigger] c.commit_signatures[k].signature.len() == 64
}

/// A signature written into its message reads back as the same signature; any 64 bytes
/// read as a signature, and nothing else does.
pub proof fn law_signature_roundtrip(bytes: Seq<u8>)
    ensures
        decode_signature_spec(bytes) is Ok <==> bytes.len() == 64,
        bytes.len() == 64 ==> decode_signature_spec(bytes) == Ok::<Seq<u8>, crate::error::ProtoErrorView>(bytes),
{
}

/// A certificate of a defined round, written into its message and read back, is the same
/// certificate.
pub proof fn law_certificate_roundtrip<I, A>(c: CommitCertificateView<I, A>)
    requires
        c.round != Round::Nil,
        certificate_signatures_valid(c),
    ensures
        !encode_certificate_panics(certificate_ok(c)),
        encode_certificate_spec(certificate_ok(c)) matches Ok(p)
            && decode_certificate_spec(proto_certificate_ok(p)) == Ok::<
            CommitCertificateView<I, A>,
            crate::error::ProtoErrorView,
        >(c),
{
    let oc = certificate_ok(c);
    let t = c.commit_signatures.map_values(
        |s: CommitSignatureView<A>| proto::CommitSignatureView {
            validator_address: Some(s.address),
            signature: Some(s.signature),
        },
    );
    assert forall|k: int| 0 <= k < oc.commit_signatures.len() implies encode_commit_signature_spec(
        #[trigger] oc.commit_signatures[k],
    ) == Ok::<proto::CommitSignatureView<A>, crate::error::ProtoErrorView>(t[k]) by {}
    lemma_collect_all_ok(
        oc.commit_signatures,
        |s: CommitSignatureView<Result<A, ProtoError>>| encode_commit_signature_spec(s),
        t,
    );
    assert(encode_commit_signatures_spec(oc.commit_signatures) == Ok::<
        Seq<proto::CommitSignatureView<A>>,
        crate::error::ProtoErrorView,
    >(t));
    let p = encode_certificate_spec(oc)->Ok_0;
    let pp = proto_certificate_ok(p);
    let ts = t.map_values(|s: proto::CommitSignatureView<A>| proto_commit_signature_ok(s));
    assert(pp.aggregated_signature.unwrap().signatures == ts);
    assert forall|k: int| 0 <= k < ts.len() implies decode_commit_signature_spec(#[trigger] ts[k])
        == Ok::<CommitSignatureView<A>, crate::error::ProtoErrorView>(c.commit_signatures[k]) by {
        assert(c.commit_signatures[k].signature.len() == 64);
    }
    lemma_collect_all_ok(
        ts,
        |s: proto::CommitSignatureView<Result<A, ProtoError>>| decode_commit_signature_spec(s),
        c.commit_signatures,
    );
}

/// A certificate message that reads is the message that its certificate is written into.
pub proof fn law_certificate_canonical<I, A>(p: proto::CommitCertificateView<I, A>)
    requires
        decode_certificate_spec(proto_certificate_ok(p)) is Ok,
    ensures
        ({
            let c = decode_certificate_spec(proto_certificate_ok(p))->Ok_0;
            &&& !encode_certificate_panics(certificate_ok(c))
            &&& encode_certificate_spec(certificate_ok(c)) == Ok::<
                proto::CommitCertificateView<I, A>,
                crate::error::ProtoErrorView,
            >(p)
        }),
{
    let pp = proto_certificate_ok(p);
    let c = decode_certificate_spec(pp)->Ok_0;
    let ps = p.aggregated_signature.unwrap().signatures;
    let pps = pp.aggregated_signature.unwrap().signatures;
    lemma_collect_ok_items(
        pps,
        |s: proto::CommitSignatureView<Result<A, ProtoError>>| decode_commit_signature_spec(s),
        c.commit_signatures,
    );
    let oc = certificate_ok(c);
    assert forall|k: int| 0 <= k < oc.commit_signatures.len() implies encode_commit_signature_spec(
        #[trigger] oc.commit_signatures[k],
    ) == Ok::<proto::CommitSignatureView<A>, crate::error::ProtoErrorView>(ps[k]) by {
        assert(decode_commit_signature_spec(pps[k]) == Ok::<
            CommitSignatureView<A>,
            crate::error::ProtoErrorView,
        >(c.commit_signatures[k]));
    }
    lemma_collect_all_ok(
        oc.commit_signatures,
        |s: CommitSignatureView<Result<A, ProtoError>>| encode_commit_signature_spec(s),
        ps,
    );
    assert(encode_commit_signatures_spec(oc.commit_signatures) == Ok::<
        Seq<proto::CommitSignatureView<A>>,
        crate::error::ProtoErrorView,
    >(ps));
    assert(p.value_id == Some(c.value_id));
}

/// A decided value whose certificate's value id and addresses all converted.
pub open spec fn synced_value_ok<I, A>(v: RawDecidedValueView<I, A>) -> RawDecidedValueView<
    Result<I, ProtoError>,
    Result<A, ProtoError>,
> {
    RawDecidedValueView { value_bytes: v.value_bytes, certificate: certificate_ok(v.certificate) }
}

/// A decided-value message whose payloads, where they are there, converted.
pub open spec fn proto_synced_value_ok<I, A>(v: proto::SyncedValueView<I, A>) -> proto::SyncedValueView<
    Result<I, ProtoError>,
    Result<A, ProtoError>,
> {
    proto::SyncedValueView {
        value_bytes: v.value_bytes,
        certificate: match v.certificate {
            Some(c) => Some(proto_certificate_ok(c)),
            None => None,
        },
    }
}

/// A decided value whose certificate is of a defined round, written into its message and
/// read back, is the same decided value.
pub proof fn law_synced_value_roundtrip<I, A>(v: RawDecidedValueView<I, A>)
    requires
        v.certificate.round != Round::Nil,
        certificate_signatures_valid(v.certificate),
    ensures
        !encode_certificate_panics(synced_value_ok(v).certificate),
        encode_synced_value_spec(synced_value_ok(v)) matches Ok(p)
            && decode_synced_value_spec(proto_synced_value_ok(p)) == Ok::<
            RawDecidedValueView<I, A>,
            crate::error::ProtoErrorView,
        >(v),
{
    law_certificate_roundtrip(v.certificate);
}

/// A sync request written into its message reads back as the same request.
pub proof fn law_sync_request_roundtrip<R>(r: Request)
    ensures
        decode_sync_request_spec(encode_sync_request_spec::<R>(r)) == Ok::<
            Request,
            crate::error::ProtoErrorView,
        >(r),
{
}

/// A request message that reads is the message that its request is written into.
pub proof fn law_sync_request_canonical<R>(p: proto::SyncRequest<R>)
    ensures
        decode_sync_request_spec(p) matches Ok(r) ==> encode_sync_request_spec::<R>(r) == p,
{
}

/// A response whose payloads all converted.
pub open spec fn response_ok<I, A>(r: ResponseView<I, A>) -> ResponseView<
    Result<I, ProtoError>,
    Result<A, ProtoError>,
> {
    match r {
        ResponseView::ValueResponse(v) => ResponseView::ValueResponse(
            ValueResponseView {
                height: v.height,
                value: match v.value {
                    Some(d) => Some(synced_value_ok(d)),
                    None => None,
                },
            },
        ),
    }
}

/// A response message whose payloads, where they are there, converted.
pub open spec fn proto_response_ok<I, A, R>(r: proto::SyncResponseView<I, A, R>) -> proto::SyncResponseView<
    Result<I, ProtoError>,
    Result<A, ProtoError>,
    R,
> {
    proto::SyncResponseView {
        response: match r.response {
            Some(proto::SyncResponseBodyView::ValueResponse(v)) => Some(
                proto::SyncResponseBodyView::ValueResponse(
                    proto::ValueResponseView {
                        height: v.height,
                        value: match v.value {
                            Some(s) => Some(proto_synced_value_ok(s)),
                            None => None,
                        },
                    },
                ),
            ),
            Some(proto::SyncResponseBodyView::VoteSetResponse(b)) => Some(
                proto::SyncResponseBodyView::VoteSetResponse(b),
            ),
            None => None,
        },
    }
}

/// The value of a response, if there is one, holds a certificate of a defined round
/// whose signatures are of 64 bytes.
pub open spec fn response_valid<I, A>(r: ResponseView<I, A>) -> bool {
    match r {
        ResponseView::ValueResponse(v) => match v.value {
            Some(d) => d.certificate.round != Round::Nil && certificate_signatures_valid(d.certificate),
            None => true,
        },
    }
}

/// A sync response, written into its message and read back, is the same response.
pub proof fn law_sync_response_roundtrip<I, A, R>(r: ResponseView<I, A>)
    requires
        response_valid(r),
    ensures
        !encode_sync_response_panics(response_ok(r)),
        encode_sync_response_spec::<I, A, R>(response_ok(r)) matches Ok(p)
            && decode_sync_response_spec(proto_response_ok(p)) == Ok::<
            ResponseView<I, A>,
            crate::error::ProtoErrorView,
        >(r),
{
    match r {
        ResponseView::ValueResponse(v) => match v.value {
            Some(d) => {
                law_synced_value_roundtrip(d);
            },
            None => {},
        },
    }
}

/// A signed vote extension written into its message reads back as the same extension.
pub proof fn law_extension_roundtrip(e: SignedExtensionView)
    requires
        e.signature.len() == 64,
    ensures
        decode_extension_spec(proto::ExtensionView { data: e.message, signature: Some(e.signature) })
            == Ok::<SignedExtensionView, crate::error::ProtoErrorView>(e),
{
}

/// A signed message whose body converted.
pub open spec fn signed_ok<M>(m: SignedMessageView<M>) -> SignedMessageView<Result<M, ProtoError>> {
    SignedMessageView { message: ok(m.message), signature: m.signature }
}

/// A signed-message message whose body, if it is there, converted.
pub open spec fn proto_signed_ok<P, V>(m: proto::SignedMessageView<P, V>) -> proto::SignedMessageView<
    Result<P, ProtoError>,
    Result<V, ProtoError>,
> {
    proto::SignedMessageView {
        message: match m.message {
            Some(proto::SignedMessageBody::Proposal(p)) => Some(proto::SignedMessageBody::Proposal(ok(p))),
            Some(proto::SignedMessageBody::Vote(v)) => Some(proto::SignedMessageBody::Vote(ok(v))),
            None => None,
        },
        signature: m.signature,
    }
}

/// A signed vote written into its message reads back as the same signed vote.
pub proof fn law_vote_roundtrip<P, V>(v: SignedMessageView<V>)
    requires
        v.signature.len() == 64,
    ensures
        encode_vote_spec::<P, V>(signed_ok(v)) matches Ok(m) && decode_vote_spec(proto_signed_ok(m))
            == Some(v),
{
}

/// Every vote of a set carries a signature of 64 bytes.
pub open spec fn vote_set_valid<V>(vs: VoteSetView<V>) -> bool {
    forall|k: int| 0 <= k < vs.votes.len() ==> #[trigger] vs.votes[k].signature.len() == 64
}

/// A set of signed votes written into its message reads back as the same set, in the
/// same order.
pub proof fn law_vote_set_roundtrip<P, V>(vs: VoteSetView<V>)
    requires
        vote_set_valid(vs),
    ensures
        encode_vote_set_spec::<P, V>(
            VoteSetView { votes: vs.votes.map_values(|v: SignedMessageView<V>| signed_ok(v)) },
        ) matches Ok(p) && decode_vote_set_spec(
            proto::VoteSetView {
                signed_votes: p.signed_votes.map_values(
                    |m: proto::SignedMessageView<P, V>| proto_signed_ok(m),
                ),
            },
        ) == vs,
{
    let ov = vs.votes.map_values(|v: SignedMessageView<V>| signed_ok(v));
    let t = vs.votes.map_values(
        |v: SignedMessageView<V>| proto::SignedMessageView::<P, V> {
            message: Some(proto::SignedMessageBody::Vote(v.message)),
            signature: Some(v.signature),
        },
    );
    assert forall|k: int| 0 <= k < ov.len() implies encode_vote_spec::<P, V>(#[trigger] ov[k])
        == Ok::<proto::SignedMessageView<P, V>, crate::error::ProtoErrorView>(t[k]) by {}
    lemma_collect_all_ok(ov, |v: SignedMessageView<Result<V, ProtoError>>| encode_vote_spec::<P, V>(v), t);
    let ts = t.map_values(|m: proto::SignedMessageView<P, V>| proto_signed_ok(m));
    assert forall|k: int| 0 <= k < ts.len() implies decode_vote_spec(#[trigger] ts[k]) == Some(
        vs.votes[k],
    ) by {
        assert(vs.votes[k].signature.len() == 64);
    }
    lemma_filter_all_some(
        ts,
        |m: proto::SignedMessageView<Result<P, ProtoError>, Result<V, ProtoError>>|
            decode_vote_spec(m),
        vs.votes,
    );
    assert(vs == VoteSetView { votes: vs.votes });
}

/// A signed proposal or vote whose body converted.
pub open spec fn consensus_message_ok<P, V>(m: SignedConsensusMsgView<P, V>) -> SignedConsensusMsgView<
    Result<P, ProtoError>,
    Result<V, ProtoError>,
> {
    match m {
        SignedConsensusMsgView::Vote(v) => SignedConsensusMsgView::Vote(signed_ok(v)),
        SignedConsensusMsgView::Proposal(p) => SignedConsensusMsgView::Proposal(signed_ok(p)),
    }
}

/// A signed proposal or vote written into its message reads back as the same message.
pub proof fn law_consensus_message_roundtrip<P, V>(m: SignedConsensusMsgView<P, V>)
    requires
        match m {
            SignedConsensusMsgView::Vote(v) => v.signature.len() == 64,
            SignedConsensusMsgView::Proposal(p) => p.signature.len() == 64,
        },
    ensures
        encode_consensus_message_spec(consensus_message_ok(m)) matches Ok(p)
            && decode_consensus_message_spec(proto_signed_ok(p)) == Ok::<
            SignedConsensusMsgView<P, V>,
            crate::error::ProtoErrorView,
        >(m),
{
}

/// A stream message whose data, if any, converted.
pub open spec fn stream_message_ok<T>(m: StreamMessageView<T>) -> StreamMessageView<Result<T, ProtoError>> {
    StreamMessageView {
        stream_id: m.stream_id,
        sequence: m.sequence,
        content: match m.content {
            StreamContent::Data(t) => StreamContent::Data(ok(t)),
            StreamContent::Fin => StreamContent::Fin,
        },
    }
}

/// A stream message whose data, if any, converted.
pub open spec fn proto_stream_message_ok<T>(m: proto::StreamMessageView<T>) -> proto::StreamMessageView<
    Result<T, ProtoError>,
> {
    proto::StreamMessageView {
        stream_id: m.stream_id,
        sequence: m.sequence,
        content: match m.content {
            Some(proto::StreamBody::Data(t)) => Some(proto::StreamBody::Data(ok(t))),
            Some(proto::StreamBody::Fin(b)) => Some(proto::StreamBody::Fin(b)),
            None => None,
        },
    }
}

/// A message of a stream written into its message reads back as the same message.
pub proof fn law_stream_message_roundtrip<T>(m: StreamMessageView<T>)
    ensures
        encode_stream_message_spec(stream_message_ok(m)) matches Ok(p)
            && decode_stream_message_spec(proto_stream_message_ok(p)) == Ok::<
            StreamMessageView<T>,
            crate::error::ProtoErrorView,
        >(m),
{
}

/// A proposed value whose proposer and value converted.
pub open spec fn proposed_value_ok<A, T>(v: ProposedValue<A, T>) -> ProposedValue<
    Result<A, ProtoError>,
    Result<T, ProtoError>,
> {
    ProposedValue {
        height: v.height,
        round: v.round,
        valid_round: v.valid_round,
        proposer: ok(v.proposer),
        value: ok(v.value),
        validity: v.validity,
    }
}

/// A proposed-value message whose proposer and value, where they are there, converted.
pub open spec fn proto_proposed_value_ok<A, T>(v: proto::ProposedValue<A, T>) -> proto::ProposedValue<
    Result<A, ProtoError>,
    Result<T, ProtoError>,
> {
    proto::ProposedValue {
        height: v.height,
        round: v.round,
        valid_round: v.valid_round,
        proposer: ok_opt(v.proposer),
        value: ok_opt(v.value),
        validity: v.validity,
    }
}

/// A proposed value of a defined round written into its message reads back as the same
/// proposed value.
pub proof fn law_proposed_value_roundtrip<A, T>(v: ProposedValue<A, T>)
    requires
        v.round != Round::Nil,
    ensures
        encode_proposed_value_spec(proposed_value_ok(v)) matches Ok(p)
            && decode_proposed_value_spec(proto_proposed_value_ok(p)) == Ok::<
            ProposedValue<A, T>,
            crate::error::ProtoErrorView,
        >(v),
{
}

/// The status of a peer whose identity is one that its crate writes, written into its
/// message and read back, is the same status.
pub proof fn law_status_roundtrip(s: StatusView)
    requires
        peer_id_from_bytes(s.peer_id) == Some(s.peer_id),
    ensures
        !decode_status_panics(encode_status_spec(s)),
        decode_status_spec(encode_status_spec(s)) == Ok::<StatusView, crate::error::ProtoErrorView>(s),
{
}

} // verus!
