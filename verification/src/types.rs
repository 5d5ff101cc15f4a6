//! The values that the codec reads and writes: heights, rounds, signatures, commit
//! certificates, sync requests and responses, and the signed messages of consensus.
//!
//! Types that hold a `Vec` have a view in which each `Vec` is taken as a `Seq` and each
//! signature as its 64 bytes; the contracts of the codec are stated over these views.
//! The payloads that an application defines (value ids, addresses, votes, proposals,
//! values, proposal parts) are type parameters and are kept as they are.

use vstd::prelude::*;
use crate::peer::PeerId;

verus! {

/// An optional value taken by its view.
pub open spec fn option_view<T: View>(o: Option<T>) -> Option<T::V> {
    match o {
        Some(t) => Some(t@),
        None => None,
    }
}

/// A height of the chain.
#[derive(Debug, Clone, Copy, PartialEq, Eq)]
pub struct Height(pub u64);

impl Height {
    /// The height with number `height`.
    pub fn new(height: u64) -> (h: Height)
        ensures
            h == Height(height),
    {
        Height(height)
    }

    /// The number of this height.
    pub fn as_u64(&self) -> (n: u64)
        ensures
            n == self.0,
    {
        self.0
    }
}

/// A round of consensus: either no round at all, or round number `r`.
#[derive(Debug, Clone, Copy, PartialEq, Eq)]
pub enum Round {
    /// No round (`-1`).
    Nil,
    /// Round number `r`.
    Defined(u32),
}

impl Round {
    /// Round number `round`.
    pub fn new(round: u32) -> (r: Round)
        ensures
            r == Round::Defined(round),
    {
        Round::Defined(round)
    }

    /// The number of this round, `None` for the nil round.
    pub fn as_u32(&self) -> (n: Option<u32>)
        ensures
            n == round_number(*self),
    {
        match self {
            Round::Nil => None,
            Round::Defined(r) => Some(*r),
        }
    }
}

/// The number of a round, `None` for the nil round.
pub open spec fn round_number(r: Round) -> Option<u32> {
    match r {
        Round::Nil => None,
        Round::Defined(n) => Some(n),
    }
}

/// Whether a proposed value was found valid.
#[derive(Debug, Clone, Copy, PartialEq, Eq)]
pub enum Validity {
    Valid,
    Invalid,
}

impl Validity {
    /// `Valid` for `true`, `Invalid` for `false`.
    pub fn from_bool(valid: bool) -> (v: Validity)
        ensures
            v == validity_of(valid),
    {
        if valid {
            Validity::Valid
        } else {
            Validity::Invalid
        }
    }

    /// `true` exactly for `Valid`.
    pub fn to_bool(&self) -> (b: bool)
        ensures
            b == (*self == Validity::Valid),
    {
        match self {
            Validity::Valid => true,
            Validity::Invalid => false,
        }
    }
}

/// `Valid` for `true`, `Invalid` for `false`.
pub open spec fn validity_of(valid: bool) -> Validity {
    if valid {
        Validity::Valid
    } else {
        Validity::Invalid
    }
}

/// An Ed25519 signature: its 64 bytes.
#[derive(Debug, Clone, Copy, PartialEq, Eq)]
pub struct Signature {
    pub bytes: [u8; 64],
}

impl View for Signature {
    type V = Seq<u8>;

    open spec fn view(&self) -> Seq<u8> {
        self.bytes@
    }
}

impl Signature {
    /// The signature made of `bytes`.
    pub fn from_bytes(bytes: [u8; 64]) -> (s: Signature)
        ensures
            s@ == bytes@,
    {
        Signature { bytes }
    }

    /// The 64 bytes of this signature.
    pub fn to_bytes(&self) -> (b: [u8; 64])
        ensures
            b@ == self@,
    {
        self.bytes
    }
}

/// The signature of one validator in a commit certificate.
#[derive(Debug, Clone, PartialEq, Eq)]
pub struct CommitSignature<A> {
    pub address: A,
    pub signature: Signature,
}

pub struct CommitSignatureView<A> {
    pub address: A,
    pub signature: Seq<u8>,
}

impl<A> View for CommitSignature<A> {
    type V = CommitSignatureView<A>;

    open spec fn view(&self) -> CommitSignatureView<A> {
        CommitSignatureView { address: self.address, signature: self.signature@ }
    }
}

/// A certificate that the value with id `value_id` was decided at `height` and `round`,
/// with the signatures of the validators that committed it.
#[derive(Debug, Clone, PartialEq, Eq)]
pub struct CommitCertificate<I, A> {
    pub height: Height,
    pub round: Round,
    pub value_id: I,
    pub commit_signatures: Vec<CommitSignature<A>>,
}

pub struct CommitCertificateView<I, A> {
    pub height: Height,
    pub round: Round,
    pub value_id: I,
    pub commit_signatures: Seq<CommitSignatureView<A>>,
}

impl<I, A> View for CommitCertificate<I, A> {
    type V = CommitCertificateView<I, A>;

    open spec fn view(&self) -> CommitCertificateView<I, A> {
        CommitCertificateView {
            height: self.height,
            round: self.round,
            value_id: self.value_id,
            commit_signatures: self.commit_signatures@.map_values(|s: CommitSignature<A>| s@),
        }
    }
}

/// A decided value in its encoded form, with the certificate that decided it.
#[derive(Debug, Clone, PartialEq, Eq)]
pub struct RawDecidedValue<I, A> {
    pub value_bytes: Vec<u8>,
    pub certificate: CommitCertificate<I, A>,
}

pub struct RawDecidedValueView<I, A> {
    pub value_bytes: Seq<u8>,
    pub certificate: CommitCertificateView<I, A>,
}

impl<I, A> View for RawDecidedValue<I, A> {
    type V = RawDecidedValueView<I, A>;

    open spec fn view(&self) -> RawDecidedValueView<I, A> {
        RawDecidedValueView { value_bytes: self.value_bytes@, certificate: self.certificate@ }
    }
}

/// A request for the value decided at `height`.
#[derive(Debug, Clone, Copy, PartialEq, Eq)]
pub struct ValueRequest {
    pub height: Height,
}

/// A request of the sync protocol.
#[derive(Debug, Clone, Copy, PartialEq, Eq)]
pub enum Request {
    ValueRequest(ValueRequest),
}

/// The answer to a value request: the value decided at `height`, if the peer has it.
#[derive(Debug, Clone, PartialEq, Eq)]
pub struct ValueResponse<I, A> {
    pub height: Height,
    pub value: Option<RawDecidedValue<I, A>>,
}

pub struct ValueResponseView<I, A> {
    pub height: Height,
    pub value: Option<RawDecidedValueView<I, A>>,
}

impl<I, A> View for ValueResponse<I, A> {
    type V = ValueResponseView<I, A>;

    open spec fn view(&self) -> ValueResponseView<I, A> {
        ValueResponseView {
            height: self.height,
            value: match self.value {
                Some(v) => Some(v@),
                None => None,
            },
        }
    }
}

/// A response of the sync protocol.
#[derive(Debug, Clone, PartialEq, Eq)]
pub enum Response<I, A> {
    ValueResponse(ValueResponse<I, A>),
}

pub enum ResponseView<I, A> {
    ValueResponse(ValueResponseView<I, A>),
}

impl<I, A> View for Response<I, A> {
    type V = ResponseView<I, A>;

    open spec fn view(&self) -> ResponseView<I, A> {
        match self {
            Response::ValueResponse(r) => ResponseView::ValueResponse(r@),
        }
    }
}

/// A vote extension with the signature of its author.
#[derive(Debug, Clone, PartialEq, Eq)]
pub struct SignedExtension {
    pub message: Vec<u8>,
    pub signature: Signature,
}

pub struct SignedExtensionView {
    pub message: Seq<u8>,
    pub signature: Seq<u8>,
}

impl View for SignedExtension {
    type V = SignedExtensionView;

    open spec fn view(&self) -> SignedExtensionView {
        SignedExtensionView { message: self.message@, signature: self.signature@ }
    }
}

impl SignedExtension {
    /// The extension `message` signed with `signature`.
    pub fn new(message: Vec<u8>, signature: Signature) -> (e: SignedExtension)
        ensures
            e.message == message,
            e.signature == signature,
    {
        SignedExtension { message, signature }
    }
}

/// A message of consensus (a vote, a proposal) with the signature of its author.
#[derive(Debug, Clone, PartialEq, Eq)]
pub struct SignedMessage<M> {
    pub message: M,
    pub signature: Signature,
}

pub struct SignedMessageView<M> {
    pub message: M,
    pub signature: Seq<u8>,
}

impl<M> View for SignedMessage<M> {
    type V = SignedMessageView<M>;

    open spec fn view(&self) -> SignedMessageView<M> {
        SignedMessageView { message: self.message, signature: self.signature@ }
    }
}

impl<M> SignedMessage<M> {
    /// The message `message` signed with `signature`.
    pub fn new(message: M, signature: Signature) -> (m: SignedMessage<M>)
        ensures
            m.message == message,
            m.signature == signature,
    {
        SignedMessage { message, signature }
    }
}

/// A collection of signed votes.
#[derive(Debug, Clone, PartialEq, Eq)]
pub struct VoteSet<V> {
    pub votes: Vec<SignedMessage<V>>,
}

pub struct VoteSetView<V> {
    pub votes: Seq<SignedMessageView<V>>,
}

impl<V> View for VoteSet<V> {
    type V = VoteSetView<V>;

    open spec fn view(&self) -> VoteSetView<V> {
        VoteSetView { votes: self.votes@.map_values(|v: SignedMessage<V>| v@) }
    }
}

/// A signed message of consensus: a signed proposal or a signed vote.
#[derive(Debug, Clone, PartialEq, Eq)]
pub enum SignedConsensusMsg<P, V> {
    Vote(SignedMessage<V>),
    Proposal(SignedMessage<P>),
}

pub enum SignedConsensusMsgView<P, V> {
    Vote(SignedMessageView<V>),
    Proposal(SignedMessageView<P>),
}

impl<P, V> View for SignedConsensusMsg<P, V> {
    type V = SignedConsensusMsgView<P, V>;

    open spec fn view(&self) -> SignedConsensusMsgView<P, V> {
        match self {
            SignedConsensusMsg::Vote(v) => SignedConsensusMsgView::Vote(v@),
            SignedConsensusMsg::Proposal(p) => SignedConsensusMsgView::Proposal(p@),
        }
    }
}

/// The identifier of a stream of proposal parts.
#[derive(Debug, Clone, PartialEq, Eq)]
pub struct StreamId(pub Vec<u8>);

impl View for StreamId {
    type V = Seq<u8>;

    open spec fn view(&self) -> Seq<u8> {
        self.0@
    }
}

impl StreamId {
    /// The stream identified by `bytes`.
    pub fn new(bytes: Vec<u8>) -> (s: StreamId)
        ensures
            s@ == bytes@,
    {
        StreamId(bytes)
    }

    /// The bytes that identify this stream.
    pub fn to_bytes(&self) -> (b: Vec<u8>)
        ensures
            b@ == self@,
    {
        vstd::slice::slice_to_vec(self.0.as_slice())
    }
}

/// What a stream message carries: a piece of data, or the end of the stream.
#[derive(Debug, Clone, PartialEq, Eq)]
pub enum StreamContent<T> {
    Data(T),
    Fin,
}

/// The message at position `sequence` of the stream `stream_id`.
#[derive(Debug, Clone, PartialEq, Eq)]
pub struct StreamMessage<T> {
    pub stream_id: StreamId,
    pub sequence: u64,
    pub content: StreamContent<T>,
}

pub struct StreamMessageView<T> {
    pub stream_id: Seq<u8>,
    pub sequence: u64,
    pub content: StreamContent<T>,
}

impl<T> View for StreamMessage<T> {
    type V = StreamMessageView<T>;

    open spec fn view(&self) -> StreamMessageView<T> {
        StreamMessageView {
            stream_id: self.stream_id@,
            sequence: self.sequence,
            content: self.content,
        }
    }
}

/// A value proposed at `height` and `round` by `proposer`, with the round in which it was
/// last seen valid and whether it was found valid.
#[derive(Debug, Clone, PartialEq, Eq)]
pub struct ProposedValue<A, T> {
    pub height: Height,
    pub round: Round,
    pub valid_round: Round,
    pub proposer: A,
    pub value: T,
    pub validity: Validity,
}

/// The sync status of a peer: its identity, the height of its tip and the lowest height
/// whose value it still holds.
#[derive(Debug, PartialEq, Eq)]
pub struct Status {
    pub peer_id: PeerId,
    pub tip_height: Height,
    pub history_min_height: Height,
}

pub struct StatusView {
    pub peer_id: Seq<u8>,
    pub tip_height: Height,
    pub history_min_height: Height,
}

impl View for Status {
    type V = StatusView;

    open spec fn view(&self) -> StatusView {
        StatusView {
            peer_id: self.peer_id@,
            tip_height: self.tip_height,
            history_min_height: self.history_min_height,
        }
    }
}

} // verus!
