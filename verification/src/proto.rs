//! The protobuf messages that the codec reads and writes, as plain values.
//!
//! Each message is the tree of fields that the wire bytes carry. A `Vec` stands for a
//! repeated field or a `bytes` field, an `Option` for a field that may be absent. The
//! messages that an application defines (value ids, addresses, votes, proposals, values,
//! the bodies of vote-set requests and responses) are type parameters.
//!
//! Messages that hold a `Vec` have a view in which each `Vec` is taken as a `Seq`.

use vstd::prelude::*;

verus! {

/// A signature in a message: its bytes, of any length.
#[derive(Debug, Clone, PartialEq, Eq)]
pub struct Signature {
    pub bytes: Vec<u8>,
}

impl View for Signature {
    type V = Seq<u8>;

    open spec fn view(&self) -> Seq<u8> {
        self.bytes@
    }
}

/// The view of an optional signature.
pub open spec fn signature_opt_view(s: Option<Signature>) -> Option<Seq<u8>> {
    match s {
        Some(s) => Some(s@),
        None => None,
    }
}

/// One validator's signature in a commit certificate.
#[derive(Debug, Clone, PartialEq, Eq)]
pub struct CommitSignature<A> {
    pub validator_address: Option<A>,
    pub signature: Option<Signature>,
}

pub struct CommitSignatureView<A> {
    pub validator_address: Option<A>,
    pub signature: Option<Seq<u8>>,
}

impl<A> View for CommitSignature<A> {
    type V = CommitSignatureView<A>;

    open spec fn view(&self) -> CommitSignatureView<A> {
        CommitSignatureView {
            validator_address: self.validator_address,
            signature: signature_opt_view(self.signature),
        }
    }
}

/// The signatures of a commit certificate.
#[derive(Debug, Clone, PartialEq, Eq)]
pub struct AggregatedSignature<A> {
    pub signatures: Vec<CommitSignature<A>>,
}

pub struct AggregatedSignatureView<A> {
    pub signatures: Seq<CommitSignatureView<A>>,
}

impl<A> View for AggregatedSignature<A> {
    type V = AggregatedSignatureView<A>;

    open spec fn view(&self) -> AggregatedSignatureView<A> {
        AggregatedSignatureView {
            signatures: self.signatures@.map_values(|s: CommitSignature<A>| s@),
        }
    }
}

/// A commit certificate.
#[derive(Debug, Clone, PartialEq, Eq)]
pub struct CommitCertificate<I, A> {
    pub height: u64,
    pub round: u32,
    pub value_id: Option<I>,
    pub aggregated_signature: Option<AggregatedSignature<A>>,
}

pub struct CommitCertificateView<I, A> {
    pub height: u64,
    pub round: u32,
    pub value_id: Option<I>,
    pub aggregated_signature: Option<AggregatedSignatureView<A>>,
}

impl<I, A> View for CommitCertificate<I, A> {
    type V = CommitCertificateView<I, A>;

    open spec fn view(&self) -> CommitCertificateView<I, A> {
        CommitCertificateView {
            height: self.height,
            round: self.round,
            value_id: self.value_id,
            aggregated_signature: match self.aggregated_signature {
                Some(a) => Some(a@),
                None => None,
            },
        }
    }
}

/// A decided value with its certificate.
#[derive(Debug, Clone, PartialEq, Eq)]
pub struct SyncedValue<I, A> {
    pub value_bytes: Vec<u8>,
    pub certificate: Option<CommitCertificate<I, A>>,
}

pub struct SyncedValueView<I, A> {
    pub value_bytes: Seq<u8>,
    pub certificate: Option<CommitCertificateView<I, A>>,
}

impl<I, A> View for SyncedValue<I, A> {
    type V = SyncedValueView<I, A>;

    open spec fn view(&self) -> SyncedValueView<I, A> {
        SyncedValueView {
            value_bytes: self.value_bytes@,
            certificate: match self.certificate {
                Some(c) => Some(c@),
                None => None,
            },
        }
    }
}

/// A request for the value decided at `height`.
#[derive(Debug, Clone, Copy, PartialEq, Eq)]
pub struct ValueRequest {
    pub height: u64,
}

/// The body of a sync request: a value request, or a vote-set request of body `R`.
#[derive(Debug, Clone, PartialEq, Eq)]
pub enum SyncRequestBody<R> {
    ValueRequest(ValueRequest),
    VoteSetRequest(R),
}

/// A sync request.
#[derive(Debug, Clone, PartialEq, Eq)]
pub struct SyncRequest<R> {
    pub request: Option<SyncRequestBody<R>>,
}

/// The answer to a value request.
#[derive(Debug, Clone, PartialEq, Eq)]
pub struct ValueResponse<I, A> {
    pub height: u64,
    pub value: Option<SyncedValue<I, A>>,
}

pub struct ValueResponseView<I, A> {
    pub height: u64,
    pub value: Option<SyncedValueView<I, A>>,
}

impl<I, A> View for ValueResponse<I, A> {
    type V = ValueResponseView<I, A>;

    open spec fn view(&self) -> ValueResponseView<I, A> {
        ValueResponseView {
            height: self.height,
            value: match self.value {
                Some(v) => Some(v@),
                None => None,
            },
        }
    }
}

/// The body of a sync response: a value response, or a vote-set response of body `R`.
#[derive(Debug, Clone, PartialEq, Eq)]
pub enum SyncResponseBody<I, A, R> {
    ValueResponse(ValueResponse<I, A>),
    VoteSetResponse(R),
}

pub enum SyncResponseBodyView<I, A, R> {
    ValueResponse(ValueResponseView<I, A>),
    VoteSetResponse(R),
}

/// A sync response.
#[derive(Debug, Clone, PartialEq, Eq)]
pub struct SyncResponse<I, A, R> {
    pub response: Option<SyncResponseBody<I, A, R>>,
}

pub struct SyncResponseView<I, A, R> {
    pub response: Option<SyncResponseBodyView<I, A, R>>,
}

impl<I, A, R> View for SyncResponse<I, A, R> {
    type V = SyncResponseView<I, A, R>;

    open spec fn view(&self) -> SyncResponseView<I, A, R> {
        SyncResponseView {
            response: match self.response {
                Some(SyncResponseBody::ValueResponse(v)) => Some(
                    SyncResponseBodyView::ValueResponse(v@),
                ),
                Some(SyncResponseBody::VoteSetResponse(r)) => Some(
                    SyncResponseBodyView::VoteSetResponse(r),
                ),
                None => None,
            },
        }
    }
}

/// A vote extension with its signature.
#[derive(Debug, Clone, PartialEq, Eq)]
pub struct Extension {
    pub data: Vec<u8>,
    pub signature: Option<Signature>,
}

pub struct ExtensionView {
    pub data: Seq<u8>,
    pub signature: Option<Seq<u8>>,
}

impl View for Extension {
    type V = ExtensionView;

    open spec fn view(&self) -> ExtensionView {
        ExtensionView { data: self.data@, signature: signature_opt_view(self.signature) }
    }
}

/// The body of a signed message: a proposal or a vote.
#[derive(Debug, Clone, PartialEq, Eq)]
pub enum SignedMessageBody<P, V> {
    Proposal(P),
    Vote(V),
}

/// A signed proposal or vote.
#[derive(Debug, Clone, PartialEq, Eq)]
pub struct SignedMessage<P, V> {
    pub message: Option<SignedMessageBody<P, V>>,
    pub signature: Option<Signature>,
}

pub struct SignedMessageView<P, V> {
    pub message: Option<SignedMessageBody<P, V>>,
    pub signature: Option<Seq<u8>>,
}

impl<P, V> View for SignedMessage<P, V> {
    type V = SignedMessageView<P, V>;

    open spec fn view(&self) -> SignedMessageView<P, V> {
        SignedMessageView { message: self.message, signature: signature_opt_view(self.signature) }
    }
}

/// A set of signed votes.
#[derive(Debug, Clone, PartialEq, Eq)]
pub struct VoteSet<P, V> {
    pub signed_votes: Vec<SignedMessage<P, V>>,
}

pub struct VoteSetView<P, V> {
    pub signed_votes: Seq<SignedMessageView<P, V>>,
}

impl<P, V> View for VoteSet<P, V> {
    type V = VoteSetView<P, V>;

    open spec fn view(&self) -> VoteSetView<P, V> {
        VoteSetView { signed_votes: self.signed_votes@.map_values(|m: SignedMessage<P, V>| m@) }
    }
}

/// What a stream message carries: the encoded data `D`, or the end of the stream.
#[derive(Debug, Clone, PartialEq, Eq)]
pub enum StreamBody<D> {
    Data(D),
    Fin(bool),
}

/// A message of a stream of proposal parts.
#[derive(Debug, Clone, PartialEq, Eq)]
pub struct StreamMessage<D> {
    pub stream_id: Vec<u8>,
    pub sequence: u64,
    pub content: Option<StreamBody<D>>,
}

pub struct StreamMessageView<D> {
    pub stream_id: Seq<u8>,
    pub sequence: u64,
    pub content: Option<StreamBody<D>>,
}

impl<D> View for StreamMessage<D> {
    type V = StreamMessageView<D>;

    open spec fn view(&self) -> StreamMessageView<D> {
        StreamMessageView {
            stream_id: self.stream_id@,
            sequence: self.sequence,
            content: self.content,
        }
    }
}

/// A proposed value.
#[derive(Debug, Clone, PartialEq, Eq)]
pub struct ProposedValue<A, T> {
    pub height: u64,
    pub round: u32,
    pub valid_round: Option<u32>,
    pub proposer: Option<A>,
    pub value: Option<T>,
    pub validity: bool,
}

/// The identity of a peer, in its encoded form.
#[derive(Debug, Clone, PartialEq, Eq)]
pub struct PeerId {
    pub id: Vec<u8>,
}

/// The sync status of a peer: its identity and the range of heights it holds.
#[derive(Debug, Clone, PartialEq, Eq)]
pub struct Status {
    pub peer_id: Option<PeerId>,
    pub height: u64,
    pub earliest_height: u64,
}

pub struct StatusView {
    pub peer_id: Option<Seq<u8>>,
    pub height: u64,
    pub earliest_height: u64,
}

impl View for Status {
    type V = StatusView;

    open spec fn view(&self) -> StatusView {
        StatusView {
            peer_id: match self.peer_id {
                Some(p) => Some(p.id@),
                None => None,
            },
            height: self.height,
            earliest_height: self.earliest_height,
        }
    }
}

} // verus!
