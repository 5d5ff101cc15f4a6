//! Signatures, commit certificates and decided values, to and from their messages.
//!
//! The value id and the validator addresses are converted by the application's own
//! `from_proto` / `to_proto`; these functions receive the results of those conversions
//! in the places where the messages hold them, and report the first failure in the
//! order in which the fields are read.

use vstd::prelude::*;
use crate::error::{
    missing, missing_field, other, other_error, result_deep_view, ProtoError, ProtoErrorView,
};
use crate::proto;
use crate::seqs::{collect_results, lemma_collect_prefix_error, lemma_collect_step, lemma_take_all};
use crate::types::{
    round_number, CommitCertificate, CommitCertificateView, CommitSignature, CommitSignatureView,
    Height, RawDecidedValue, RawDecidedValueView, Round, Signature, SignedExtension,
    SignedExtensionView,
};

verus! {

/// The signature decoded from the bytes `bytes`: they must be exactly 64.
pub open spec fn decode_signature_spec(bytes: Seq<u8>) -> Result<Seq<u8>, ProtoErrorView> {
    if bytes.len() == 64 {
        Ok(bytes)
    } else {
        Err(other("Invalid signature length"))
    }
}

/// Writes a signature into its message.
pub fn encode_signature(signature: &Signature) -> (r: proto::Signature)
    ensures
        r@ == signature@,
{
    proto::Signature { bytes: vstd::slice::slice_to_vec(signature.bytes.as_slice()) }
}

/// Reads a signature from its message: the message must hold exactly 64 bytes.
pub fn decode_signature(signature: proto::Signature) -> (r: Result<Signature, ProtoError>)
    ensures
        result_deep_view(r) == decode_signature_spec(signature@),
{
    if signature.bytes.len() != 64 {
        return Err(other_error("Invalid signature length"));
    }
    let mut bytes = [0u8; 64];
    let mut i: usize = 0;
    while i < 64
        invariant
            signature.bytes@.len() == 64,
            0 <= i <= 64,
            forall|j: int| 0 <= j < i ==> bytes@[j] == signature.bytes@[j],
        decreases 64 - i,
    {
        bytes[i] = signature.bytes[i];
        i = i + 1;
    }
    assert(bytes@ =~= signature.bytes@);
    Ok(Signature { bytes })
}

/// One validator's signature read from its message: its signature, then its address.
pub open spec fn decode_commit_signature_spec<A>(
    s: proto::CommitSignatureView<Result<A, ProtoError>>,
) -> Result<CommitSignatureView<A>, ProtoErrorView> {
    match s.signature {
        None => Err(missing("CommitSignature", "signature")),
        Some(bytes) => match decode_signature_spec(bytes) {
            Err(e) => Err(e),
            Ok(signature) => match s.validator_address {
                None => Err(missing("CommitSignature", "validator_address")),
                Some(Err(e)) => Err(e@),
                Some(Ok(address)) => Ok(CommitSignatureView { address, signature }),
            },
        },
    }
}

/// The certificate read from its message: value id, signatures, then each signature in order.
pub open spec fn decode_certificate_spec<I, A>(
    c: proto::CommitCertificateView<Result<I, ProtoError>, Result<A, ProtoError>>,
) -> Result<CommitCertificateView<I, A>, ProtoErrorView> {
    match c.value_id {
        None => Err(missing("CommitCertificate", "value_id")),
        Some(Err(e)) => Err(e@),
        Some(Ok(value_id)) => match c.aggregated_signature {
            None => Err(missing("CommitCertificate", "aggregated_signature")),
            Some(agg) => match collect_results(
                agg.signatures,
                |s: proto::CommitSignatureView<Result<A, ProtoError>>|
                    decode_commit_signature_spec(s),
            ) {
                Err(e) => Err(e),
                Ok(commit_signatures) => Ok(
                    CommitCertificateView {
                        height: Height(c.height),
                        round: Round::Defined(c.round),
                        value_id,
                        commit_signatures,
                    },
                ),
            },
        },
    }
}

fn decode_commit_signature<A>(s: proto::CommitSignature<Result<A, ProtoError>>) -> (r: Result<
    CommitSignature<A>,
    ProtoError,
>)
    ensures
        result_deep_view(r) == decode_commit_signature_spec(s@),
{
    let signature = match s.signature {
        None => return Err(missing_field("CommitSignature", "signature")),
        Some(bytes) => decode_signature(bytes),
    };
    let signature = match signature {
        Err(e) => return Err(e),
        Ok(signature) => signature,
    };
    match s.validator_address {
        None => Err(missing_field("CommitSignature", "validator_address")),
        Some(Err(e)) => Err(e),
        Some(Ok(address)) => Ok(CommitSignature { address, signature }),
    }
}

fn decode_commit_signatures<A>(signatures: Vec<proto::CommitSignature<Result<A, ProtoError>>>) -> (r:
    Result<Vec<CommitSignature<A>>, ProtoError>)
    ensures
        ({
            let f = |s: proto::CommitSignatureView<Result<A, ProtoError>>|
                decode_commit_signature_spec(s);
            let views = signatures@.map_values(
                |s: proto::CommitSignature<Result<A, ProtoError>>| s@,
            );
            match r {
                Ok(v) => collect_results(views, f) == Ok::<Seq<CommitSignatureView<A>>, ProtoErrorView>(
                    v@.map_values(|s: CommitSignature<A>| s@),
                ),
                Err(e) => collect_results(views, f) == Err::<Seq<CommitSignatureView<A>>, ProtoErrorView>(e@),
            }
        }),
{
    let ghost f = |s: proto::CommitSignatureView<Result<A, ProtoError>>|
        decode_commit_signature_spec(s);
    let ghost views = signatures@.map_values(
        |s: proto::CommitSignature<Result<A, ProtoError>>| s@,
    );
    let mut out: Vec<CommitSignature<A>> = Vec::new();
    assert(views.take(0) =~= Seq::<proto::CommitSignatureView<Result<A, ProtoError>>>::empty());
    assert(out@.map_values(|s: CommitSignature<A>| s@) =~= Seq::<CommitSignatureView<A>>::empty());
    for s in it: signatures.into_iter()
        invariant
            it.seq() == signatures@,
            views == signatures@.map_values(|s: proto::CommitSignature<Result<A, ProtoError>>| s@),
            f == (|s: proto::CommitSignatureView<Result<A, ProtoError>>|
                decode_commit_signature_spec(s)),
            collect_results(views.take(it.index() as int), f) == Ok::<
                Seq<CommitSignatureView<A>>,
                ProtoErrorView,
            >(out@.map_values(|s: CommitSignature<A>| s@)),
    {
        let ghost i = it.index() as int;
        proof {
            lemma_collect_step(views, f, i);
        }
        match decode_commit_signature(s) {
            Err(e) => {
                proof {
                    lemma_collect_prefix_error(views, f, i + 1);
                }
                return Err(e);
            },
            Ok(c) => {
                let ghost before = out@;
                out.push(c);
                assert(out@.map_values(|s: CommitSignature<A>| s@) =~= before.map_values(
                    |s: CommitSignature<A>| s@,
                ).push(c@));
            },
        }
    }
    proof {
        lemma_take_all(views);
    }
    Ok(out)
}

/// Reads a commit certificate from its message.
///
/// The value id and each validator address arrive as the results of their own
/// conversions. The message must hold a value id and a set of signatures, and every
/// signature must hold 64 signature bytes and an address; the first field that fails,
/// in that order, gives the error.
pub fn decode_certificate<I, A>(
    certificate: proto::CommitCertificate<Result<I, ProtoError>, Result<A, ProtoError>>,
) -> (r: Result<CommitCertificate<I, A>, ProtoError>)
    ensures
        result_deep_view(r) == decode_certificate_spec(certificate@),
{
    let value_id = match certificate.value_id {
        None => return Err(missing_field("CommitCertificate", "value_id")),
        Some(Err(e)) => return Err(e),
        Some(Ok(value_id)) => value_id,
    };
    let agg = match certificate.aggregated_signature {
        None => return Err(missing_field("CommitCertificate", "aggregated_signature")),
        Some(agg) => agg,
    };
    let commit_signatures = match decode_commit_signatures(agg.signatures) {
        Err(e) => return Err(e),
        Ok(s) => s,
    };
    Ok(
        CommitCertificate {
            height: Height::new(certificate.height),
            round: Round::new(certificate.round),
            value_id,
            commit_signatures,
        },
    )
}

/// One validator's signature written into its message: its address (as converted), then
/// its signature bytes.
pub open spec fn encode_commit_signature_spec<A>(
    s: CommitSignatureView<Result<A, ProtoError>>,
) -> Result<proto::CommitSignatureView<A>, ProtoErrorView> {
    match s.address {
        Err(e) => Err(e@),
        Ok(address) => Ok(
            proto::CommitSignatureView {
                validator_address: Some(address),
                signature: Some(s.signature),
            },
        ),
    }
}

/// The signatures of a certificate written into their messages, in order.
pub open spec fn encode_commit_signatures_spec<A>(
    signatures: Seq<CommitSignatureView<Result<A, ProtoError>>>,
) -> Result<Seq<proto::CommitSignatureView<A>>, ProtoErrorView> {
    collect_results(
        signatures,
        |s: CommitSignatureView<Result<A, ProtoError>>| encode_commit_signature_spec(s),
    )
}

/// Writing a certificate stops on a nil round once all its signatures are written.
pub open spec fn encode_certificate_panics<I, A>(
    c: CommitCertificateView<Result<I, ProtoError>, Result<A, ProtoError>>,
) -> bool {
    encode_commit_signatures_spec(c.commit_signatures) is Ok && c.round == Round::Nil
}

/// The certificate written into its message: the signatures first, then the value id.
pub open spec fn encode_certificate_spec<I, A>(
    c: CommitCertificateView<Result<I, ProtoError>, Result<A, ProtoError>>,
) -> Result<proto::CommitCertificateView<I, A>, ProtoErrorView> {
    match encode_commit_signatures_spec(c.commit_signatures) {
        Err(e) => Err(e),
        Ok(signatures) => match c.value_id {
            Err(e) => Err(e@),
            Ok(value_id) => Ok(
                proto::CommitCertificateView {
                    height: c.height.0,
                    round: round_number(c.round).unwrap(),
                    value_id: Some(value_id),
                    aggregated_signature: Some(proto::AggregatedSignatureView { signatures }),
                },
            ),
        },
    }
}

fn encode_commit_signature<A>(s: CommitSignature<Result<A, ProtoError>>) -> (r: Result<
    proto::CommitSignature<A>,
    ProtoError,
>)
    ensures
        result_deep_view(r) == encode_commit_signature_spec(s@),
{
    let address = match s.address {
        Err(e) => return Err(e),
        Ok(address) => address,
    };
    Ok(
        proto::CommitSignature {
            validator_address: Some(address),
            signature: Some(encode_signature(&s.signature)),
        },
    )
}

fn encode_commit_signatures<A>(signatures: Vec<CommitSignature<Result<A, ProtoError>>>) -> (r:
    Result<Vec<proto::CommitSignature<A>>, ProtoError>)
    ensures
        ({
            let views = signatures@.map_values(|s: CommitSignature<Result<A, ProtoError>>| s@);
            match r {
                Ok(v) => encode_commit_signatures_spec(views) == Ok::<
                    Seq<proto::CommitSignatureView<A>>,
                    ProtoErrorView,
                >(v@.map_values(|s: proto::CommitSignature<A>| s@)),
                Err(e) => encode_commit_signatures_spec(views) == Err::<
                    Seq<proto::CommitSignatureView<A>>,
                    ProtoErrorView,
                >(e@),
            }
        }),
{
    let ghost f = |s: CommitSignatureView<Result<A, ProtoError>>| encode_commit_signature_spec(s);
    let ghost views = signatures@.map_values(|s: CommitSignature<Result<A, ProtoError>>| s@);
    let mut out: Vec<proto::CommitSignature<A>> = Vec::new();
    assert(views.take(0) =~= Seq::<CommitSignatureView<Result<A, ProtoError>>>::empty());
    assert(out@.map_values(|s: proto::CommitSignature<A>| s@) =~= Seq::<
        proto::CommitSignatureView<A>,
    >::empty());
    for s in it: signatures.into_iter()
        invariant
            it.seq() == signatures@,
            views == signatures@.map_values(|s: CommitSignature<Result<A, ProtoError>>| s@),
            f == (|s: CommitSignatureView<Result<A, ProtoError>>| encode_commit_signature_spec(s)),
            collect_results(views.take(it.index() as int), f) == Ok::<
                Seq<proto::CommitSignatureView<A>>,
                ProtoErrorView,
            >(out@.map_values(|s: proto::CommitSignature<A>| s@)),
    {
        let ghost i = it.index() as int;
        proof {
            lemma_collect_step(views, f, i);
        }
        match encode_commit_signature(s) {
            Err(e) => {
                proof {
                    lemma_collect_prefix_error(views, f, i + 1);
                }
                return Err(e);
            },
            Ok(c) => {
                let ghost before = out@;
                out.push(c);
                assert(out@.map_values(|s: proto::CommitSignature<A>| s@) =~= before.map_values(
                    |s: proto::CommitSignature<A>| s@,
                ).push(c@));
            },
        }
    }
    proof {
        lemma_take_all(views);
    }
    Ok(out)
}

/// Writes a commit certificate into its message.
///
/// The value id and each validator address arrive as the results of their own
/// conversions. The signatures are written first, in order, then the value id; the first
/// conversion that failed gives the error. A certificate of nil round cannot be written.
pub fn encode_certificate<I, A>(
    certificate: CommitCertificate<Result<I, ProtoError>, Result<A, ProtoError>>,
) -> (r: Result<proto::CommitCertificate<I, A>, ProtoError>)
    requires
        !encode_certificate_panics(certificate@),
    ensures
        result_deep_view(r) == encode_certificate_spec(certificate@),
{
    let signatures = match encode_commit_signatures(certificate.commit_signatures) {
        Err(e) => return Err(e),
        Ok(s) => s,
    };
    let round = match certificate.round {
        Round::Defined(r) => r,
        Round::Nil => 0,
    };
    let value_id = match certificate.value_id {
        Err(e) => return Err(e),
        Ok(v) => v,
    };
    Ok(
        proto::CommitCertificate {
            height: certificate.height.as_u64(),
            round,
            value_id: Some(value_id),
            aggregated_signature: Some(proto::AggregatedSignature { signatures }),
        },
    )
}

/// A decided value read from its message: it must hold a certificate that reads.
pub open spec fn decode_synced_value_spec<I, A>(
    v: proto::SyncedValueView<Result<I, ProtoError>, Result<A, ProtoError>>,
) -> Result<RawDecidedValueView<I, A>, ProtoErrorView> {
    match v.certificate {
        None => Err(missing("SyncedValue", "certificate")),
        Some(c) => match decode_certificate_spec(c) {
            Err(e) => Err(e),
            Ok(certificate) => Ok(RawDecidedValueView { value_bytes: v.value_bytes, certificate }),
        },
    }
}

/// A decided value written into its message.
pub open spec fn encode_synced_value_spec<I, A>(
    v: RawDecidedValueView<Result<I, ProtoError>, Result<A, ProtoError>>,
) -> Result<proto::SyncedValueView<I, A>, ProtoErrorView> {
    match encode_certificate_spec(v.certificate) {
        Err(e) => Err(e),
        Ok(c) => Ok(proto::SyncedValueView { value_bytes: v.value_bytes, certificate: Some(c) }),
    }
}

/// Writes a decided value and its certificate into their message.
pub fn encode_synced_value<I, A>(
    synced_value: RawDecidedValue<Result<I, ProtoError>, Result<A, ProtoError>>,
) -> (r: Result<proto::SyncedValue<I, A>, ProtoError>)
    requires
        !encode_certificate_panics(synced_value.certificate@),
    ensures
        result_deep_view(r) == encode_synced_value_spec(synced_value@),
{
    let certificate = match encode_certificate(synced_value.certificate) {
        Err(e) => return Err(e),
        Ok(c) => c,
    };
    Ok(proto::SyncedValue { value_bytes: synced_value.value_bytes, certificate: Some(certificate) })
}

/// Reads a decided value and its certificate from their message.
pub fn decode_synced_value<I, A>(
    proto: proto::SyncedValue<Result<I, ProtoError>, Result<A, ProtoError>>,
) -> (r: Result<RawDecidedValue<I, A>, ProtoError>)
    ensures
        result_deep_view(r) == decode_synced_value_spec(proto@),
{
    let certificate = match proto.certificate {
        None => return Err(missing_field("SyncedValue", "certificate")),
        Some(c) => c,
    };
    match decode_certificate(certificate) {
        Err(e) => Err(e),
        Ok(certificate) => Ok(RawDecidedValue { value_bytes: proto.value_bytes, certificate }),
    }
}

/// A vote extension read from its message: it must hold a signature of 64 bytes.
pub open spec fn decode_extension_spec(e: proto::ExtensionView) -> Result<SignedExtensionView, ProtoErrorView> {
    match e.signature {
        None => Err(missing("Extension", "signature")),
        Some(bytes) => match decode_signature_spec(bytes) {
            Err(err) => Err(err),
            Ok(signature) => Ok(SignedExtensionView { message: e.data, signature }),
        },
    }
}

/// Reads a signed vote extension from its message.
pub fn decode_extension(ext: proto::Extension) -> (r: Result<SignedExtension, ProtoError>)
    ensures
        result_deep_view(r) == decode_extension_spec(ext@),
{
    let extension = ext.data;
    let signature = match ext.signature {
        None => return Err(missing_field("Extension", "signature")),
        Some(s) => decode_signature(s),
    };
    match signature {
        Err(e) => Err(e),
        Ok(signature) => Ok(SignedExtension::new(extension, signature)),
    }
}

/// Writes a signed vote extension into its message; this always succeeds.
pub fn encode_extension(ext: &SignedExtension) -> (r: Result<proto::Extension, ProtoError>)
    ensures
        r matches Ok(e) && e@ == (proto::ExtensionView {
            data: ext.message@,
            signature: Some(ext.signature@),
        }),
{
    Ok(
        proto::Extension {
            data: vstd::slice::slice_to_vec(ext.message.as_slice()),
            signature: Some(encode_signature(&ext.signature)),
        },
    )
}

} // verus!
