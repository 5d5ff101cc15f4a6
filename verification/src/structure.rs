//! Laws on the shape of each result: what a written message holds for each part of the
//! value, and what a read value holds for each field of the message, stated over all
//! inputs.

use vstd::prelude::*;
use crate::error::{ProtoError, ProtoErrorView};
use crate::messages::{
    decode_consensus_message_spec, decode_proposed_value_spec, decode_stream_message_spec,
    encode_consensus_message_spec, encode_proposed_value_spec, encode_stream_message_spec,
};
use crate::proto;
use crate::seqs::{
    filter_some, lemma_collect_err_first, lemma_collect_ok_items, lemma_collect_ok_iff,
    lemma_filter_all_some, lemma_filter_members,
};
use crate::certificate::{
    decode_certificate_spec, decode_commit_signature_spec, decode_extension_spec,
    decode_synced_value_spec, encode_certificate_spec, encode_commit_signature_spec,
    encode_synced_value_spec,
};
use crate::error::missing;
use crate::sync::{decode_sync_response_spec, encode_sync_response_spec};
use crate::types::{
    round_number, CommitCertificateView, CommitSignatureView, Height, ProposedValue,
    RawDecidedValueView, ResponseView, Round, SignedConsensusMsgView, SignedMessageView,
    StreamContent, Validity, VoteSetView,
};
use crate::votes::{decode_vote_set_spec, decode_vote_spec, encode_vote_set_spec, encode_vote_spec};
use crate::sync::{decode_sync_request_spec, encode_sync_request_spec};
use crate::messages::{decode_status_spec, encode_status_spec};
use crate::peer::peer_id_from_bytes;
use crate::error::other;
use crate::types::{Request, ValueRequest};

verus! {

/// Writing a set of votes gives one message per vote, in order: the k-th message holds the
/// k-th vote (as converted) and its signature. It succeeds exactly when every vote
/// converted, and otherwise fails with the error of the first vote that did not.
pub proof fn law_vote_set_one_message_per_vote<P, V>(vs: VoteSetView<Result<V, ProtoError>>)
    ensures
        encode_vote_set_spec::<P, V>(vs) is Ok <==> forall|k: int|
            0 <= k < vs.votes.len() ==> (#[trigger] vs.votes[k]).message is Ok,
        encode_vote_set_spec::<P, V>(vs) matches Ok(p) ==> {
            &&& p.signed_votes.len() == vs.votes.len()
            &&& forall|k: int|
                0 <= k < vs.votes.len() ==> #[trigger] p.signed_votes[k] == proto::SignedMessageView::<P, V> {
                    message: Some(proto::SignedMessageBody::Vote(vs.votes[k].message->Ok_0)),
                    signature: Some(vs.votes[k].signature),
                }
        },
        encode_vote_set_spec::<P, V>(vs) matches Err(e) ==> exists|k: int|
            0 <= k < vs.votes.len() && (#[trigger] vs.votes[k]).message is Err
                && vs.votes[k].message->Err_0@ == e
                && forall|j: int| 0 <= j < k ==> (#[trigger] vs.votes[j]).message is Ok,
{
    let f = |v: SignedMessageView<Result<V, ProtoError>>| encode_vote_spec::<P, V>(v);
    lemma_collect_ok_iff(vs.votes, f);
    assert forall|k: int| 0 <= k < vs.votes.len() implies (f(#[trigger] vs.votes[k]) is Ok
        <==> vs.votes[k].message is Ok) by {}
    match encode_vote_set_spec::<P, V>(vs) {
        Ok(p) => {
            lemma_collect_ok_items(vs.votes, f, p.signed_votes);
            assert forall|k: int| 0 <= k < vs.votes.len() implies #[trigger] p.signed_votes[k]
                == proto::SignedMessageView::<P, V> {
                message: Some(proto::SignedMessageBody::Vote(vs.votes[k].message->Ok_0)),
                signature: Some(vs.votes[k].signature),
            } by {
                assert(f(vs.votes[k]) == Ok::<proto::SignedMessageView<P, V>, ProtoErrorView>(
                    p.signed_votes[k],
                ));
            }
        },
        Err(e) => {
            lemma_collect_err_first(vs.votes, f);
            let k = choose|k: int|
                0 <= k < vs.votes.len() && f(#[trigger] vs.votes[k]) == Err::<
                    proto::SignedMessageView<P, V>,
                    ProtoErrorView,
                >(e) && forall|j: int| 0 <= j < k ==> f(#[trigger] vs.votes[j]) is Ok;
            assert(vs.votes[k].message is Err && vs.votes[k].message->Err_0@ == e);
            assert forall|j: int| 0 <= j < k implies (#[trigger] vs.votes[j]).message is Ok by {
                assert(f(vs.votes[j]) is Ok);
            }
        },
    }
}

/// Reading a stream message keeps its stream and position; a data message whose part did
/// not read fails with that part's error; the end of the stream is read only from an end
/// message, and data only from a data message that read, unchanged.
pub proof fn law_stream_message_reading<T>(msg: proto::StreamMessageView<Result<T, ProtoError>>)
    ensures
        msg.content matches Some(proto::StreamBody::Data(Err(e))) ==> decode_stream_message_spec(msg)
            == Err::<crate::types::StreamMessageView<T>, ProtoErrorView>(e@),
        msg.content is None ==> decode_stream_message_spec(msg) is Err,
        decode_stream_message_spec(msg) matches Ok(m) ==> {
            &&& m.stream_id == msg.stream_id
            &&& m.sequence == msg.sequence
            &&& (m.content is Fin <==> msg.content matches Some(proto::StreamBody::Fin(_)))
            &&& (m.content matches StreamContent::Data(t) ==> msg.content == Some(
                proto::StreamBody::Data(Ok::<T, ProtoError>(t)),
            ))
        },
        msg.content matches Some(proto::StreamBody::Data(Ok(t))) ==> decode_stream_message_spec(msg)
            matches Ok(m) && m.content == StreamContent::Data(t),
{
}

/// Writing a stream message keeps its stream and position and always holds a content:
/// data written as the part's bytes, the end of the stream as `Fin(true)`; a part that did
/// not write fails with its error.
pub proof fn law_stream_message_writing<D>(m: crate::types::StreamMessageView<Result<D, ProtoError>>)
    ensures
        m.content matches StreamContent::Data(Err(e)) ==> encode_stream_message_spec(m) == Err::<
            proto::StreamMessageView<D>,
            ProtoErrorView,
        >(e@),
        encode_stream_message_spec(m) matches Ok(p) ==> {
            &&& p.stream_id == m.stream_id
            &&& p.sequence == m.sequence
            &&& (m.content is Fin ==> p.content == Some(proto::StreamBody::<D>::Fin(true)))
            &&& (m.content matches StreamContent::Data(d) ==> d is Ok && p.content == Some(
                proto::StreamBody::Data(d->Ok_0),
            ))
        },
        !(m.content matches StreamContent::Data(Err(_))) ==> encode_stream_message_spec(m) is Ok,
{
}

/// Writing a signed proposal or vote fails with its body's error where the body did not
/// convert; otherwise it holds a body of the same kind, as converted, and the signature.
pub proof fn law_consensus_message_writing<P, V>(
    m: SignedConsensusMsgView<Result<P, ProtoError>, Result<V, ProtoError>>,
)
    ensures
        m matches SignedConsensusMsgView::Vote(v) ==> match v.message {
            Err(e) => encode_consensus_message_spec(m) == Err::<proto::SignedMessageView<P, V>, ProtoErrorView>(e@),
            Ok(b) => encode_consensus_message_spec(m) == Ok::<proto::SignedMessageView<P, V>, ProtoErrorView>(
                proto::SignedMessageView {
                    message: Some(proto::SignedMessageBody::Vote(b)),
                    signature: Some(v.signature),
                },
            ),
        },
        m matches SignedConsensusMsgView::Proposal(q) ==> match q.message {
            Err(e) => encode_consensus_message_spec(m) == Err::<proto::SignedMessageView<P, V>, ProtoErrorView>(e@),
            Ok(b) => encode_consensus_message_spec(m) == Ok::<proto::SignedMessageView<P, V>, ProtoErrorView>(
                proto::SignedMessageView {
                    message: Some(proto::SignedMessageBody::Proposal(b)),
                    signature: Some(q.signature),
                },
            ),
        },
        encode_consensus_message_spec(m) matches Ok(p) ==> p.message is Some && p.signature is Some,
{
}

/// Reading a signed proposal or vote gives a message of the kind the body has, with the
/// body as converted and the 64 signature bytes of the message.
pub proof fn law_consensus_message_reading<P, V>(
    msg: proto::SignedMessageView<Result<P, ProtoError>, Result<V, ProtoError>>,
)
    ensures
        decode_consensus_message_spec(msg) matches Ok(m) ==> match m {
            SignedConsensusMsgView::Vote(v) => msg.message == Some(
                proto::SignedMessageBody::<Result<P, ProtoError>, Result<V, ProtoError>>::Vote(Ok(v.message)),
            ) && msg.signature == Some(v.signature) && v.signature.len() == 64,
            SignedConsensusMsgView::Proposal(q) => msg.message == Some(
                proto::SignedMessageBody::<Result<P, ProtoError>, Result<V, ProtoError>>::Proposal(Ok(q.message)),
            ) && msg.signature == Some(q.signature) && q.signature.len() == 64,
        },
        msg.signature is None || msg.message is None ==> decode_consensus_message_spec(msg) is Err,
{
}

/// Writing a proposed value fails with the proposer's error, else with the value's; a
/// message that is written holds the proposer and the value, as converted, and every other
/// field of the proposed value.
pub proof fn law_proposed_value_writing<A, T>(v: ProposedValue<Result<A, ProtoError>, Result<T, ProtoError>>)
    ensures
        v.proposer matches Err(e) ==> encode_proposed_value_spec(v) == Err::<proto::ProposedValue<A, T>, ProtoErrorView>(e@),
        (v.proposer is Ok && v.value is Err) ==> encode_proposed_value_spec(v) == Err::<
            proto::ProposedValue<A, T>,
            ProtoErrorView,
        >(v.value->Err_0@),
        encode_proposed_value_spec(v) is Ok <==> v.proposer is Ok && v.value is Ok,
        encode_proposed_value_spec(v) matches Ok(p) ==> {
            &&& p.proposer == Some(v.proposer->Ok_0)
            &&& p.value == Some(v.value->Ok_0)
            &&& p.height == v.height.0
            &&& Some(p.round) == round_number(v.round) || v.round == Round::Nil
            &&& p.valid_round == round_number(v.valid_round)
            &&& p.validity == (v.validity == Validity::Valid)
        },
{
}

/// Reading a proposed value needs the proposer and the value to be there and to have
/// converted; what is read holds them and every other field of the message.
pub proof fn law_proposed_value_reading<A, T>(
    msg: proto::ProposedValue<Result<A, ProtoError>, Result<T, ProtoError>>,
)
    ensures
        decode_proposed_value_spec(msg) is Ok <==> (msg.proposer matches Some(Ok(_)) && msg.value matches Some(Ok(_))),
        decode_proposed_value_spec(msg) matches Ok(v) ==> {
            &&& msg.proposer == Some(Ok::<A, ProtoError>(v.proposer))
            &&& msg.value == Some(Ok::<T, ProtoError>(v.value))
            &&& v.height == Height(msg.height)
            &&& v.round == Round::Defined(msg.round)
            &&& round_number(v.valid_round) == msg.valid_round
            &&& (v.validity == Validity::Valid) == msg.validity
        },
{
}

/// Reading a value response keeps its height, and holds a value exactly when the message
/// does: the value read from it, or else the response fails with that value's error.
pub proof fn law_sync_response_value_presence<I, A, R>(
    p: proto::SyncResponseView<Result<I, ProtoError>, Result<A, ProtoError>, R>,
)
    ensures
        p.response matches Some(proto::SyncResponseBodyView::ValueResponse(v)) ==> {
            &&& ((v.value is Some && decode_synced_value_spec(v.value->Some_0) is Err)
                ==> decode_sync_response_spec(p) == Err::<ResponseView<I, A>, ProtoErrorView>(
                decode_synced_value_spec(v.value->Some_0)->Err_0,
            ))
            &&& (decode_sync_response_spec(p) matches Ok(ResponseView::ValueResponse(r)) ==> {
                &&& r.height == Height(v.height)
                &&& (r.value is None <==> v.value is None)
                &&& (r.value matches Some(d) ==> decode_synced_value_spec(v.value->Some_0) == Ok::<
                    crate::types::RawDecidedValueView<I, A>,
                    ProtoErrorView,
                >(d))
            })
        },
        !(p.response matches Some(proto::SyncResponseBodyView::ValueResponse(_))) ==> decode_sync_response_spec(p) is Err,
{
    match p.response {
        Some(proto::SyncResponseBodyView::ValueResponse(v)) => match v.value {
            Some(s) => match decode_synced_value_spec(s) {
                Ok(d) => {
                    assert(decode_sync_response_spec(p) == Ok::<ResponseView<I, A>, ProtoErrorView>(
                        ResponseView::ValueResponse(crate::types::ValueResponseView { height: Height(v.height), value: Some(d) }),
                    ));
                },
                Err(e) => {
                    assert(decode_sync_response_spec(p) == Err::<ResponseView<I, A>, ProtoErrorView>(e));
                },
            },
            None => {},
        },
        _ => {},
    }
}

/// A signature message that reads: 64 signature bytes and an address that converted.
pub open spec fn commit_signature_reads<A>(s: proto::CommitSignatureView<Result<A, ProtoError>>) -> bool {
    &&& s.signature is Some
    &&& s.signature->Some_0.len() == 64
    &&& s.validator_address matches Some(Ok(_))
}

/// Reading a certificate needs its value id (converted), its signatures, and every
/// signature to read; what is read holds the message's height and round, its value id,
/// and one signature per signature message, in order, with the same address and bytes.
pub proof fn law_certificate_reading<I, A>(
    p: proto::CommitCertificateView<Result<I, ProtoError>, Result<A, ProtoError>>,
)
    ensures
        p.value_id is None ==> decode_certificate_spec(p) == Err::<CommitCertificateView<I, A>, ProtoErrorView>(
            missing("CommitCertificate", "value_id"),
        ),
        p.value_id matches Some(Err(e)) ==> decode_certificate_spec(p) == Err::<
            CommitCertificateView<I, A>,
            ProtoErrorView,
        >(e@),
        (p.value_id matches Some(Ok(_)) && p.aggregated_signature is None) ==> decode_certificate_spec(p)
            == Err::<CommitCertificateView<I, A>, ProtoErrorView>(
            missing("CommitCertificate", "aggregated_signature"),
        ),
        decode_certificate_spec(p) is Ok <==> {
            &&& p.value_id matches Some(Ok(_))
            &&& p.aggregated_signature is Some
            &&& forall|k: int|
                0 <= k < p.aggregated_signature->Some_0.signatures.len() ==> commit_signature_reads(
                    #[trigger] p.aggregated_signature->Some_0.signatures[k],
                )
        },
        decode_certificate_spec(p) matches Ok(c) ==> {
            let ms = p.aggregated_signature->Some_0.signatures;
            &&& p.value_id == Some(Ok::<I, ProtoError>(c.value_id))
            &&& c.height == Height(p.height)
            &&& c.round == Round::Defined(p.round)
            &&& c.commit_signatures.len() == ms.len()
            &&& forall|k: int|
                0 <= k < ms.len() ==> {
                    &&& (#[trigger] ms[k]).validator_address == Some(
                        Ok::<A, ProtoError>(c.commit_signatures[k].address),
                    )
                    &&& ms[k].signature == Some(c.commit_signatures[k].signature)
                }
        },
{
    if p.value_id matches Some(Ok(_)) && p.aggregated_signature is Some {
        let ms = p.aggregated_signature->Some_0.signatures;
        let f = |s: proto::CommitSignatureView<Result<A, ProtoError>>| decode_commit_signature_spec(s);
        lemma_collect_ok_iff(ms, f);
        assert forall|k: int| 0 <= k < ms.len() implies (f(#[trigger] ms[k]) is Ok
            <==> commit_signature_reads(ms[k])) by {}
        if decode_certificate_spec(p) is Ok {
            let c = decode_certificate_spec(p)->Ok_0;
            lemma_collect_ok_items(ms, f, c.commit_signatures);
            assert forall|k: int| 0 <= k < ms.len() implies {
                &&& (#[trigger] ms[k]).validator_address == Some(
                    Ok::<A, ProtoError>(c.commit_signatures[k].address),
                )
                &&& ms[k].signature == Some(c.commit_signatures[k].signature)
            } by {
                assert(f(ms[k]) == Ok::<CommitSignatureView<A>, ProtoErrorView>(c.commit_signatures[k]));
            }
        }
    }
}

/// Writing a certificate gives one signature message per signature, in order, with its
/// address (as converted) and its bytes, then the value id (as converted), the height and
/// the round. It fails with the first address that did not convert, else with the value
/// id's error.
pub proof fn law_certificate_writing<I, A>(
    c: CommitCertificateView<Result<I, ProtoError>, Result<A, ProtoError>>,
)
    ensures
        encode_certificate_spec(c) is Ok <==> c.value_id is Ok && forall|k: int|
            0 <= k < c.commit_signatures.len() ==> (#[trigger] c.commit_signatures[k]).address is Ok,
        encode_certificate_spec(c) matches Err(e) ==> (exists|k: int|
            0 <= k < c.commit_signatures.len() && (#[trigger] c.commit_signatures[k]).address is Err
                && c.commit_signatures[k].address->Err_0@ == e
                && forall|j: int| 0 <= j < k ==> (#[trigger] c.commit_signatures[j]).address is Ok) || (
        c.value_id is Err && c.value_id->Err_0@ == e && forall|j: int|
            0 <= j < c.commit_signatures.len() ==> (#[trigger] c.commit_signatures[j]).address is Ok),
        encode_certificate_spec(c) matches Ok(p) ==> {
            &&& p.height == c.height.0
            &&& (c.round != Round::Nil ==> Some(p.round) == round_number(c.round))
            &&& p.value_id == Some(c.value_id->Ok_0)
            &&& p.aggregated_signature is Some
            &&& p.aggregated_signature->Some_0.signatures.len() == c.commit_signatures.len()
            &&& forall|k: int|
                0 <= k < c.commit_signatures.len() ==> #[trigger] p.aggregated_signature->Some_0.signatures[k]
                    == proto::CommitSignatureView {
                    validator_address: Some(c.commit_signatures[k].address->Ok_0),
                    signature: Some(c.commit_signatures[k].signature),
                }
        },
{
    let ss = c.commit_signatures;
    let f = |s: CommitSignatureView<Result<A, ProtoError>>| encode_commit_signature_spec(s);
    lemma_collect_ok_iff(ss, f);
    assert forall|k: int| 0 <= k < ss.len() implies (f(#[trigger] ss[k]) is Ok <==> ss[k].address is Ok) by {}
    match crate::certificate::encode_commit_signatures_spec(ss) {
        Ok(t) => {
            lemma_collect_ok_items(ss, f, t);
            assert forall|k: int| 0 <= k < ss.len() implies #[trigger] t[k] == proto::CommitSignatureView {
                validator_address: Some(ss[k].address->Ok_0),
                signature: Some(ss[k].signature),
            } by {
                assert(f(ss[k]) == Ok::<proto::CommitSignatureView<A>, ProtoErrorView>(t[k]));
            }
            assert forall|j: int| 0 <= j < ss.len() implies (#[trigger] ss[j]).address is Ok by {
                assert(f(ss[j]) is Ok);
            }
        },
        Err(e) => {
            lemma_collect_err_first(ss, f);
            let k = choose|k: int|
                0 <= k < ss.len() && f(#[trigger] ss[k]) == Err::<proto::CommitSignatureView<A>, ProtoErrorView>(e)
                    && forall|j: int| 0 <= j < k ==> f(#[trigger] ss[j]) is Ok;
            assert(ss[k].address is Err && ss[k].address->Err_0@ == e);
            assert forall|j: int| 0 <= j < k implies (#[trigger] ss[j]).address is Ok by {
                assert(f(ss[j]) is Ok);
            }
        },
    }
}

/// Reading a decided value needs its certificate, which must read; what is read keeps the
/// value's bytes and holds the certificate read.
pub proof fn law_synced_value_reading<I, A>(v: proto::SyncedValueView<Result<I, ProtoError>, Result<A, ProtoError>>)
    ensures
        v.certificate is None ==> decode_synced_value_spec(v) == Err::<RawDecidedValueView<I, A>, ProtoErrorView>(
            missing("SyncedValue", "certificate"),
        ),
        (v.certificate is Some && decode_certificate_spec(v.certificate->Some_0) is Err) ==> decode_synced_value_spec(v)
            == Err::<RawDecidedValueView<I, A>, ProtoErrorView>(decode_certificate_spec(v.certificate->Some_0)->Err_0),
        decode_synced_value_spec(v) matches Ok(d) ==> {
            &&& d.value_bytes == v.value_bytes
            &&& v.certificate is Some
            &&& decode_certificate_spec(v.certificate->Some_0) == Ok::<CommitCertificateView<I, A>, ProtoErrorView>(
                d.certificate,
            )
        },
{
}

/// Writing a decided value keeps its bytes and holds its certificate as written, or fails
/// with the certificate's error.
pub proof fn law_synced_value_writing<I, A>(d: RawDecidedValueView<Result<I, ProtoError>, Result<A, ProtoError>>)
    ensures
        encode_certificate_spec(d.certificate) matches Err(e) ==> encode_synced_value_spec(d) == Err::<
            proto::SyncedValueView<I, A>,
            ProtoErrorView,
        >(e),
        encode_synced_value_spec(d) matches Ok(v) ==> {
            &&& v.value_bytes == d.value_bytes
            &&& v.certificate is Some
            &&& encode_certificate_spec(d.certificate) == Ok::<proto::CommitCertificateView<I, A>, ProtoErrorView>(
                v.certificate->Some_0,
            )
        },
        encode_certificate_spec(d.certificate) is Ok ==> encode_synced_value_spec(d) is Ok,
{
}

/// Writing a response keeps its height and holds a value exactly when the response does:
/// the value as written, or else it fails with that value's error.
pub proof fn law_sync_response_writing<I, A, R>(r: ResponseView<Result<I, ProtoError>, Result<A, ProtoError>>)
    ensures
        match r {
            ResponseView::ValueResponse(v) => {
                &&& ((v.value is Some && encode_synced_value_spec(v.value->Some_0) is Err)
                    ==> encode_sync_response_spec::<I, A, R>(r) == Err::<proto::SyncResponseView<I, A, R>, ProtoErrorView>(
                    encode_synced_value_spec(v.value->Some_0)->Err_0,
                ))
                &&& (encode_sync_response_spec::<I, A, R>(r) matches Ok(p) ==> {
                    &&& p.response matches Some(proto::SyncResponseBodyView::ValueResponse(w))
                    &&& p.response->Some_0->ValueResponse_0.height == v.height.0
                    &&& (p.response->Some_0->ValueResponse_0.value is None <==> v.value is None)
                    &&& (v.value is Some ==> encode_synced_value_spec(v.value->Some_0) == Ok::<
                        proto::SyncedValueView<I, A>,
                        ProtoErrorView,
                    >(p.response->Some_0->ValueResponse_0.value->Some_0))
                })
            },
        },
{
}

/// Reading a vote extension needs a signature of 64 bytes; what is read holds the
/// message's data and those bytes.
pub proof fn law_extension_reading(e: proto::ExtensionView)
    ensures
        decode_extension_spec(e) is Ok <==> (e.signature is Some && e.signature->Some_0.len() == 64),
        e.signature is None ==> decode_extension_spec(e) == Err::<crate::types::SignedExtensionView, ProtoErrorView>(
            missing("Extension", "signature"),
        ),
        decode_extension_spec(e) matches Ok(x) ==> x.message == e.data && e.signature == Some(x.signature),
{
}

/// Reading a sync request: an absent request and a vote-set request are refused; a value
/// request reads as the request for its height.
pub proof fn law_sync_request_reading<R>(p: proto::SyncRequest<R>)
    ensures
        p.request is None ==> decode_sync_request_spec(p) == Err::<Request, ProtoErrorView>(
            missing("SyncRequest", "request"),
        ),
        p.request matches Some(proto::SyncRequestBody::VoteSetRequest(_)) ==> decode_sync_request_spec(p)
            == Err::<Request, ProtoErrorView>(other("VoteSetRequest not supported")),
        p.request matches Some(proto::SyncRequestBody::ValueRequest(v)) ==> decode_sync_request_spec(p)
            == Ok::<Request, ProtoErrorView>(Request::ValueRequest(ValueRequest { height: Height(v.height) })),
{
}

/// Writing a sync request gives the value request for the request's height.
pub proof fn law_sync_request_writing<R>(r: Request)
    ensures
        match r {
            Request::ValueRequest(v) => encode_sync_request_spec::<R>(r).request == Some(
                proto::SyncRequestBody::<R>::ValueRequest(proto::ValueRequest { height: v.height.0 }),
            ),
        },
{
}

/// A signed vote reads from a message exactly when it holds 64 signature bytes and a vote
/// that converted; what is read holds that vote and those bytes.
pub proof fn law_vote_reading<P, V>(msg: proto::SignedMessageView<P, Result<V, ProtoError>>)
    ensures
        decode_vote_spec(msg) is Some <==> {
            &&& msg.signature is Some
            &&& msg.signature->Some_0.len() == 64
            &&& msg.message matches Some(proto::SignedMessageBody::Vote(Ok(_)))
        },
        decode_vote_spec(msg) matches Some(v) ==> msg.signature == Some(v.signature) && msg.message == Some(
            proto::SignedMessageBody::<P, Result<V, ProtoError>>::Vote(Ok(v.message)),
        ),
{
}

/// Writing a signed vote gives its vote (as converted) and its signature, or fails with
/// the vote's error.
pub proof fn law_vote_writing<P, V>(v: SignedMessageView<Result<V, ProtoError>>)
    ensures
        encode_vote_spec::<P, V>(v) is Ok <==> v.message is Ok,
        v.message matches Err(e) ==> encode_vote_spec::<P, V>(v) == Err::<proto::SignedMessageView<P, V>, ProtoErrorView>(e@),
        encode_vote_spec::<P, V>(v) matches Ok(m) ==> m == (proto::SignedMessageView::<P, V> {
            message: Some(proto::SignedMessageBody::Vote(v.message->Ok_0)),
            signature: Some(v.signature),
        }),
{
}

/// Reading a vote set keeps no more votes than messages; each vote kept is the one read
/// from some message, every vote that reads is kept, and when every message reads the
/// votes are exactly theirs, in order.
pub proof fn law_vote_set_reading<P, V>(vs: proto::VoteSetView<P, Result<V, ProtoError>>)
    ensures
        ({
            let r = decode_vote_set_spec(vs).votes;
            let ms = vs.signed_votes;
            &&& r.len() <= ms.len()
            &&& forall|i: int| 0 <= i < r.len() ==> exists|k: int|
                0 <= k < ms.len() && decode_vote_spec(#[trigger] ms[k]) == Some(#[trigger] r[i])
            &&& forall|k: int| 0 <= k < ms.len() && (#[trigger] decode_vote_spec(ms[k])) is Some ==> r.contains(
                decode_vote_spec(ms[k])->Some_0,
            )
            &&& (forall|k: int| 0 <= k < ms.len() ==> (#[trigger] decode_vote_spec(ms[k])) is Some) ==> {
                &&& r.len() == ms.len()
                &&& forall|k: int| 0 <= k < ms.len() ==> Some(#[trigger] r[k]) == decode_vote_spec(ms[k])
            }
        }),
{
    let f = |m: proto::SignedMessageView<P, Result<V, ProtoError>>| decode_vote_spec(m);
    let ms = vs.signed_votes;
    let r = decode_vote_set_spec(vs).votes;
    assert(r == filter_some(ms, f));
    lemma_filter_members(ms, f);
    assert forall|i: int| 0 <= i < r.len() implies exists|k: int|
        0 <= k < ms.len() && decode_vote_spec(#[trigger] ms[k]) == Some(#[trigger] r[i]) by {
        let k = choose|k: int| 0 <= k < ms.len() && f(#[trigger] ms[k]) == Some(#[trigger] r[i]);
        assert(decode_vote_spec(ms[k]) == Some(r[i]));
    }
    assert forall|k: int| 0 <= k < ms.len() && (#[trigger] decode_vote_spec(ms[k])) is Some implies r.contains(
        decode_vote_spec(ms[k])->Some_0,
    ) by {
        assert(f(ms[k]) is Some);
    }
    if forall|k: int| 0 <= k < ms.len() ==> (#[trigger] decode_vote_spec(ms[k])) is Some {
        let t = ms.map_values(|m: proto::SignedMessageView<P, Result<V, ProtoError>>| decode_vote_spec(m)->Some_0);
        assert forall|k: int| 0 <= k < ms.len() implies f(#[trigger] ms[k]) == Some(t[k]) by {
            assert(decode_vote_spec(ms[k]) is Some);
        }
        lemma_filter_all_some(ms, f, t);
        assert forall|k: int| 0 <= k < ms.len() implies Some(#[trigger] r[k]) == decode_vote_spec(ms[k]) by {
            assert(f(ms[k]) == Some(t[k]));
        }
    }
}

/// Reading a peer status needs a peer identity; what is read holds the identity parsed
/// from it and the message's two heights, each in its place.
pub proof fn law_status_reading(p: proto::StatusView)
    ensures
        p.peer_id is None ==> decode_status_spec(p) == Err::<crate::types::StatusView, ProtoErrorView>(
            missing("Status", "peer_id"),
        ),
        decode_status_spec(p) matches Ok(s) ==> {
            &&& p.peer_id is Some
            &&& (peer_id_from_bytes(p.peer_id->Some_0) is Some ==> peer_id_from_bytes(p.peer_id->Some_0)
                == Some(s.peer_id))
            &&& s.tip_height == Height(p.height)
            &&& s.history_min_height == Height(p.earliest_height)
        },
{
}

/// Writing a peer status holds its identity's bytes, its tip height as the height and its
/// lowest height as the earliest height.
pub proof fn law_status_writing(s: crate::types::StatusView)
    ensures
        encode_status_spec(s).peer_id == Some(s.peer_id),
        encode_status_spec(s).height == s.tip_height.0,
        encode_status_spec(s).earliest_height == s.history_min_height.0,
{
}

/// A signature is read from exactly 64 bytes, as those bytes; other lengths are refused
/// as an invalid signature length.
pub proof fn law_signature_reading(bytes: Seq<u8>)
    ensures
        bytes.len() == 64 ==> crate::certificate::decode_signature_spec(bytes) == Ok::<Seq<u8>, ProtoErrorView>(bytes),
        bytes.len() != 64 ==> crate::certificate::decode_signature_spec(bytes) == Err::<Seq<u8>, ProtoErrorView>(
            other("Invalid signature length"),
        ),
{
}

/// The error of a signature message that does not read: its signature absent, then its
/// signature of a length other than 64, then its address absent, then its address's own
/// error.
pub open spec fn commit_signature_error<A>(s: proto::CommitSignatureView<Result<A, ProtoError>>) -> ProtoErrorView {
    if s.signature is None {
        missing("CommitSignature", "signature")
    } else if s.signature->Some_0.len() != 64 {
        other("Invalid signature length")
    } else if s.validator_address is None {
        missing("CommitSignature", "validator_address")
    } else {
        s.validator_address->Some_0->Err_0@
    }
}

/// A certificate with its value id and signatures whose signatures do not all read fails
/// with the error of the first signature message that does not read.
pub proof fn law_certificate_signature_errors<I, A>(
    p: proto::CommitCertificateView<Result<I, ProtoError>, Result<A, ProtoError>>,
    k: int,
)
    requires
        p.value_id matches Some(Ok(_)),
        p.aggregated_signature is Some,
        0 <= k < p.aggregated_signature->Some_0.signatures.len(),
        !commit_signature_reads(p.aggregated_signature->Some_0.signatures[k]),
        forall|j: int| 0 <= j < k ==> commit_signature_reads(#[trigger] p.aggregated_signature->Some_0.signatures[j]),
    ensures
        decode_certificate_spec(p) == Err::<CommitCertificateView<I, A>, ProtoErrorView>(
            commit_signature_error(p.aggregated_signature->Some_0.signatures[k]),
        ),
{
    let ms = p.aggregated_signature->Some_0.signatures;
    let f = |s: proto::CommitSignatureView<Result<A, ProtoError>>| decode_commit_signature_spec(s);
    assert forall|j: int| 0 <= j <= k implies (f(#[trigger] ms[j]) is Ok <==> commit_signature_reads(ms[j])) by {}
    assert(f(ms[k]) == Err::<CommitSignatureView<A>, ProtoErrorView>(commit_signature_error(ms[k])));
    lemma_collect_ok_iff(ms, f);
    let e = crate::seqs::collect_results(ms, f)->Err_0;
    lemma_collect_err_first(ms, f);
    let k2 = choose|k2: int|
        0 <= k2 < ms.len() && f(#[trigger] ms[k2]) == Err::<CommitSignatureView<A>, ProtoErrorView>(e)
            && forall|j: int| 0 <= j < k2 ==> f(#[trigger] ms[j]) is Ok;
    if k2 < k {
        assert(commit_signature_reads(ms[k2]));
        assert(f(ms[k2]) is Ok);
    } else if k2 > k {
        assert(f(ms[k]) is Ok);
    }
}

/// Reading a sync response refuses an absent response and a vote-set response.
pub proof fn law_sync_response_refusals<I, A, R>(
    p: proto::SyncResponseView<Result<I, ProtoError>, Result<A, ProtoError>, R>,
)
    ensures
        p.response is None ==> decode_sync_response_spec(p) == Err::<ResponseView<I, A>, ProtoErrorView>(
            missing("SyncResponse", "response"),
        ),
        p.response matches Some(proto::SyncResponseBodyView::VoteSetResponse(_)) ==> decode_sync_response_spec(p)
            == Err::<ResponseView<I, A>, ProtoErrorView>(other("VoteSetResponse not supported")),
{
}

/// Reading a signed proposal or vote succeeds exactly when the message holds 64 signature
/// bytes and a body that converted; it fails first on the signature (absent, then of the
/// wrong length), then on an absent body, then with the body's own error.
pub proof fn law_consensus_message_errors<P, V>(
    msg: proto::SignedMessageView<Result<P, ProtoError>, Result<V, ProtoError>>,
)
    ensures
        decode_consensus_message_spec(msg) is Ok <==> {
            &&& msg.signature is Some
            &&& msg.signature->Some_0.len() == 64
            &&& (msg.message matches Some(proto::SignedMessageBody::Proposal(Ok(_)))
                || msg.message matches Some(proto::SignedMessageBody::Vote(Ok(_))))
        },
        msg.signature is None ==> decode_consensus_message_spec(msg) == Err::<SignedConsensusMsgView<P, V>, ProtoErrorView>(
            missing("SignedMessage", "signature"),
        ),
        (msg.signature is Some && msg.signature->Some_0.len() != 64) ==> decode_consensus_message_spec(msg) == Err::<
            SignedConsensusMsgView<P, V>,
            ProtoErrorView,
        >(other("Invalid signature length")),
        (msg.signature is Some && msg.signature->Some_0.len() == 64 && msg.message is None)
            ==> decode_consensus_message_spec(msg) == Err::<SignedConsensusMsgView<P, V>, ProtoErrorView>(
            missing("SignedMessage", "message"),
        ),
        msg.message matches Some(proto::SignedMessageBody::Vote(Err(e))) ==> ((msg.signature is Some
            && msg.signature->Some_0.len() == 64) ==> decode_consensus_message_spec(msg) == Err::<
            SignedConsensusMsgView<P, V>,
            ProtoErrorView,
        >(e@)),
        msg.message matches Some(proto::SignedMessageBody::Proposal(Err(e))) ==> ((msg.signature is Some
            && msg.signature->Some_0.len() == 64) ==> decode_consensus_message_spec(msg) == Err::<
            SignedConsensusMsgView<P, V>,
            ProtoErrorView,
        >(e@)),
{
}

/// Reading a proposed value fails on an absent proposer, then on an absent value, then
/// with the proposer's error, then with the value's; a stream message without content is
/// refused as such.
pub proof fn law_proposed_value_and_stream_errors<A, T>(
    msg: proto::ProposedValue<Result<A, ProtoError>, Result<T, ProtoError>>,
    s: proto::StreamMessageView<Result<T, ProtoError>>,
)
    ensures
        msg.proposer is None ==> decode_proposed_value_spec(msg) == Err::<ProposedValue<A, T>, ProtoErrorView>(
            missing("ProposedValue", "proposer"),
        ),
        (msg.proposer is Some && msg.value is None) ==> decode_proposed_value_spec(msg) == Err::<
            ProposedValue<A, T>,
            ProtoErrorView,
        >(missing("ProposedValue", "value")),
        msg.proposer matches Some(Err(e)) ==> (msg.value is Some ==> decode_proposed_value_spec(msg) == Err::<
            ProposedValue<A, T>,
            ProtoErrorView,
        >(e@)),
        msg.value matches Some(Err(e)) ==> ((msg.proposer matches Some(Ok(_))) ==> decode_proposed_value_spec(msg)
            == Err::<ProposedValue<A, T>, ProtoErrorView>(e@)),
        s.content is None ==> decode_stream_message_spec(s) == Err::<crate::types::StreamMessageView<T>, ProtoErrorView>(
            missing("StreamMessage", "content"),
        ),
{
}

/// The error of an absent field names the message and the field, in that order; the
/// error with a description carries it.
pub proof fn law_error_views(type_url: &str, field: &str, message: &str)
    ensures
        missing(type_url, field) == (ProtoErrorView::MissingField { type_url: type_url@, field: field@ }),
        other(message) == ProtoErrorView::Other(message@),
{
}

/// The number of round `n` is `n`; the nil round has none. Only `true` is valid.
pub proof fn law_round_and_validity(n: u32, b: bool)
    ensures
        round_number(Round::Defined(n)) == Some(n),
        round_number(Round::Nil) is None,
        (crate::types::validity_of(b) == Validity::Valid) == b,
{
}

} // verus!
