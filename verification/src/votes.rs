//! Signed votes and vote sets, to and from their messages.
//!
//! The vote itself is converted by the application's own `from_proto` / `to_proto`;
//! these functions receive the result of that conversion where the message holds the vote.

use vstd::prelude::*;
use crate::certificate::{decode_signature, decode_signature_spec, encode_signature};
use crate::error::{result_deep_view, ProtoError, ProtoErrorView};
use crate::proto;
use crate::seqs::{
    collect_results, filter_some, lemma_collect_prefix_error, lemma_collect_step, lemma_filter_step,
    lemma_take_all,
};
use crate::types::{option_view, SignedMessage, SignedMessageView, VoteSet, VoteSetView};

verus! {

/// The signed vote read from a message, if it is one: the message must hold a signature
/// of 64 bytes and a vote that converts.
pub open spec fn decode_vote_spec<P, V>(
    msg: proto::SignedMessageView<P, Result<V, ProtoError>>,
) -> Option<SignedMessageView<V>> {
    match msg.signature {
        None => None,
        Some(bytes) => match msg.message {
            Some(proto::SignedMessageBody::Vote(vote)) => match decode_signature_spec(bytes) {
                Err(_) => None,
                Ok(signature) => match vote {
                    Err(_) => None,
                    Ok(message) => Some(SignedMessageView { message, signature }),
                },
            },
            _ => None,
        },
    }
}

/// The signed votes read from a set of messages: those that read, in order.
pub open spec fn decode_vote_set_spec<P, V>(
    vote_set: proto::VoteSetView<P, Result<V, ProtoError>>,
) -> VoteSetView<V> {
    VoteSetView {
        votes: filter_some(
            vote_set.signed_votes,
            |m: proto::SignedMessageView<P, Result<V, ProtoError>>| decode_vote_spec(m),
        ),
    }
}

/// A signed vote written into its message: the vote (as converted), then the signature.
pub open spec fn encode_vote_spec<P, V>(
    vote: SignedMessageView<Result<V, ProtoError>>,
) -> Result<proto::SignedMessageView<P, V>, ProtoErrorView> {
    match vote.message {
        Err(e) => Err(e@),
        Ok(v) => Ok(
            proto::SignedMessageView {
                message: Some(proto::SignedMessageBody::Vote(v)),
                signature: Some(vote.signature),
            },
        ),
    }
}

/// A set of signed votes written into its message, in order.
pub open spec fn encode_vote_set_spec<P, V>(
    vote_set: VoteSetView<Result<V, ProtoError>>,
) -> Result<proto::VoteSetView<P, V>, ProtoErrorView> {
    match collect_results(
        vote_set.votes,
        |v: SignedMessageView<Result<V, ProtoError>>| encode_vote_spec::<P, V>(v),
    ) {
        Err(e) => Err(e),
        Ok(signed_votes) => Ok(proto::VoteSetView { signed_votes }),
    }
}

/// Writes a signed vote into its message; the vote arrives as the result of its own
/// conversion, whose error is returned.
pub fn encode_vote<P, V>(vote: SignedMessage<Result<V, ProtoError>>) -> (r: Result<
    proto::SignedMessage<P, V>,
    ProtoError,
>)
    ensures
        result_deep_view(r) == encode_vote_spec::<P, V>(vote@),
{
    let message = match vote.message {
        Err(e) => return Err(e),
        Ok(m) => m,
    };
    Ok(
        proto::SignedMessage {
            message: Some(proto::SignedMessageBody::Vote(message)),
            signature: Some(encode_signature(&vote.signature)),
        },
    )
}

/// Reads a signed vote from a message; `None` where the message holds no signature,
/// holds a proposal or nothing in place of a vote, or where the signature or the vote
/// does not read.
pub fn decode_vote<P, V>(msg: proto::SignedMessage<P, Result<V, ProtoError>>) -> (r: Option<
    SignedMessage<V>,
>)
    ensures
        option_view(r) == decode_vote_spec(msg@),
{
    let signature = match msg.signature {
        None => return None,
        Some(s) => s,
    };
    let vote = match msg.message {
        Some(proto::SignedMessageBody::Vote(v)) => v,
        _ => return None,
    };
    let signature = match decode_signature(signature) {
        Err(_) => return None,
        Ok(s) => s,
    };
    match vote {
        Err(_) => None,
        Ok(message) => Some(SignedMessage::new(message, signature)),
    }
}

/// Writes a set of signed votes into its message; each vote arrives as the result of its
/// own conversion, and the first that failed gives the error.
pub fn encode_vote_set<P, V>(vote_set: VoteSet<Result<V, ProtoError>>) -> (r: Result<
    proto::VoteSet<P, V>,
    ProtoError,
>)
    ensures
        result_deep_view(r) == encode_vote_set_spec::<P, V>(vote_set@),
{
    let ghost f = |v: SignedMessageView<Result<V, ProtoError>>| encode_vote_spec::<P, V>(v);
    let ghost views = vote_set.votes@.map_values(|v: SignedMessage<Result<V, ProtoError>>| v@);
    let mut out: Vec<proto::SignedMessage<P, V>> = Vec::new();
    assert(views.take(0) =~= Seq::<SignedMessageView<Result<V, ProtoError>>>::empty());
    assert(out@.map_values(|m: proto::SignedMessage<P, V>| m@) =~= Seq::<
        proto::SignedMessageView<P, V>,
    >::empty());
    for v in it: vote_set.votes.into_iter()
        invariant
            it.seq() == vote_set.votes@,
            views == vote_set.votes@.map_values(|v: SignedMessage<Result<V, ProtoError>>| v@),
            f == (|v: SignedMessageView<Result<V, ProtoError>>| encode_vote_spec::<P, V>(v)),
            collect_results(views.take(it.index() as int), f) == Ok::<
                Seq<proto::SignedMessageView<P, V>>,
                ProtoErrorView,
            >(out@.map_values(|m: proto::SignedMessage<P, V>| m@)),
    {
        let ghost i = it.index() as int;
        proof {
            lemma_collect_step(views, f, i);
        }
        match encode_vote(v) {
            Err(e) => {
                proof {
                    lemma_collect_prefix_error(views, f, i + 1);
                }
                return Err(e);
            },
            Ok(m) => {
                let ghost before = out@;
                out.push(m);
                assert(out@.map_values(|m: proto::SignedMessage<P, V>| m@) =~= before.map_values(
                    |m: proto::SignedMessage<P, V>| m@,
                ).push(m@));
            },
        }
    }
    proof {
        lemma_take_all(views);
    }
    Ok(proto::VoteSet { signed_votes: out })
}

/// Reads a set of signed votes from its message, keeping, in order, the votes that read
/// and dropping the others; this always succeeds.
pub fn decode_vote_set<P, V>(vote_set: proto::VoteSet<P, Result<V, ProtoError>>) -> (r: Result<
    VoteSet<V>,
    ProtoError,
>)
    ensures
        r matches Ok(s) && s@ == decode_vote_set_spec(vote_set@),
{
    let ghost f = |m: proto::SignedMessageView<P, Result<V, ProtoError>>| decode_vote_spec(m);
    let ghost views = vote_set.signed_votes@.map_values(
        |m: proto::SignedMessage<P, Result<V, ProtoError>>| m@,
    );
    let mut votes: Vec<SignedMessage<V>> = Vec::new();
    assert(views.take(0) =~= Seq::<proto::SignedMessageView<P, Result<V, ProtoError>>>::empty());
    assert(votes@.map_values(|v: SignedMessage<V>| v@) =~= Seq::<SignedMessageView<V>>::empty());
    for m in it: vote_set.signed_votes.into_iter()
        invariant
            it.seq() == vote_set.signed_votes@,
            views == vote_set.signed_votes@.map_values(
                |m: proto::SignedMessage<P, Result<V, ProtoError>>| m@,
            ),
            f == (|m: proto::SignedMessageView<P, Result<V, ProtoError>>| decode_vote_spec(m)),
            filter_some(views.take(it.index() as int), f) == votes@.map_values(
                |v: SignedMessage<V>| v@,
            ),
    {
        let ghost i = it.index() as int;
        proof {
            lemma_filter_step(views, f, i);
        }
        let ghost before = votes@;
        match decode_vote(m) {
            None => {},
            Some(v) => {
                votes.push(v);
                assert(votes@.map_values(|v: SignedMessage<V>| v@) =~= before.map_values(
                    |v: SignedMessage<V>| v@,
                ).push(v@));
            },
        }
    }
    proof {
        lemma_take_all(views);
    }
    Ok(VoteSet { votes })
}

} // verus!
