//! Quote verification: signature, freshness and measurement match, rendered
//! as an accept/reject decision with a machine-checkable reason.
//!
//! Verification is pure with respect to its inputs: the decision is a
//! function of the quote, the expected nonce and identity, the registry
//! contents and the attestation key.

use vstd::prelude::*;

use crate::bytes::bytes_eq;
use crate::quote::{compute_tag, quote_body_bytes, Quote, QuoteInfo};
use crate::registry::{lookup, MeasurementInfo, MeasurementRegistry};

verus! {

/// Why a quote, or a whole attestation cycle, was rejected.
#[derive(Clone, Copy, Debug, PartialEq, Eq, Structural)]
pub enum RejectReason {
    /// The signature over the quote does not validate under the trust
    /// module's attestation key.
    BadSignature,
    /// The nonce embedded in the quote is not the challenge this cycle
    /// expected: a replayed or substituted quote.
    NonceMismatch,
    /// The measured register value is not what the registry expects of the
    /// claimed identity: an unauthorized or tampered module is running.
    MeasurementMismatch,
    /// The hardware trust module could not produce a quote at all.
    HardwareUnavailable,
    /// The challenge nonce of this cycle was already consumed, or expired
    /// before the quote came back.
    ReplayedOrExpiredNonce,
}

/// The outcome of one quote verification, bound by the caller to the
/// session and nonce it was derived from.
#[derive(Clone, Copy, Debug, PartialEq, Eq, Structural)]
pub enum Decision {
    Accepted,
    Rejected(RejectReason),
}

/// Whether the quoted measurement is exactly what the registry expects of
/// the claimed identity: the identity is authorized, was measured into the
/// selected register, and produced the expected register digest.
pub open spec fn measurement_matches(
    registry: Seq<MeasurementInfo>,
    identity: Seq<u8>,
    pcr_index: u64,
    register_value: Seq<u8>,
) -> bool {
    match lookup(registry, identity) {
        Some(m) => m.pcr_index == pcr_index && m.expected_value == register_value,
        None => false,
    }
}

/// The decision over a quote: every check must hold for acceptance, and the
/// first failed check names the reason.  Checked in order: signature under
/// `key`, embedded nonce against `expected_nonce` byte for byte, measured
/// register value against the registry record for `expected_identity`.
pub open spec fn spec_verify(
    q: QuoteInfo,
    key: Seq<u8>,
    expected_nonce: Seq<u8>,
    expected_identity: Seq<u8>,
    registry: Seq<MeasurementInfo>,
) -> Decision {
    if !q.signed_with(key) {
        Decision::Rejected(RejectReason::BadSignature)
    } else if q.nonce != expected_nonce {
        Decision::Rejected(RejectReason::NonceMismatch)
    } else if !measurement_matches(registry, expected_identity, q.pcr_index, q.register_value) {
        Decision::Rejected(RejectReason::MeasurementMismatch)
    } else {
        Decision::Accepted
    }
}

/// Validate `quote` against the challenge `expected_nonce` and the registry
/// record for `expected_identity`, under the trust module's attestation
/// `key`.
pub fn verify(
    quote: &Quote,
    key: &Vec<u8>,
    expected_nonce: &Vec<u8>,
    expected_identity: &Vec<u8>,
    registry: &MeasurementRegistry,
) -> (d: Decision)
    requires
        quote@.wf(),
    ensures
        d == spec_verify(quote@, key@, expected_nonce@, expected_identity@, registry@),
{
    let body = quote_body_bytes(quote.pcr_index, &quote.register_value, &quote.nonce);
    let tag = compute_tag(key, &body);
    if !bytes_eq(&quote.signature, &tag) {
        return Decision::Rejected(RejectReason::BadSignature);
    }
    if !bytes_eq(&quote.nonce, expected_nonce) {
        return Decision::Rejected(RejectReason::NonceMismatch);
    }
    let matches_registry = match registry.expected(expected_identity) {
        Some(record) => record.pcr_index == quote.pcr_index && bytes_eq(
            &record.expected_value,
            &quote.register_value,
        ),
        None => false,
    };
    if !matches_registry {
        return Decision::Rejected(RejectReason::MeasurementMismatch);
    }
    Decision::Accepted
}

/// Law: any change to the signature field of a quote whose signature
/// validates turns the decision into `BadSignature`, whatever the other
/// checks would have said.
pub proof fn lemma_signature_tamper(
    q: QuoteInfo,
    tampered: QuoteInfo,
    key: Seq<u8>,
    expected_nonce: Seq<u8>,
    expected_identity: Seq<u8>,
    registry: Seq<MeasurementInfo>,
)
    requires
        q.signed_with(key),
        tampered.pcr_index == q.pcr_index,
        tampered.register_value == q.register_value,
        tampered.nonce == q.nonce,
        tampered.signature != q.signature,
    ensures
        spec_verify(tampered, key, expected_nonce, expected_identity, registry)
            == Decision::Rejected(RejectReason::BadSignature),
{
    assert(tampered.body() == q.body());
}

/// Law: a correctly signed quote whose embedded nonce matches the challenge
/// but whose measured register value is not what the registry expects of
/// the claimed identity — a tampered or substituted module, honestly quoted
/// by the hardware — is rejected as `MeasurementMismatch`.
pub proof fn lemma_measurement_tamper(
    q: QuoteInfo,
    key: Seq<u8>,
    expected_nonce: Seq<u8>,
    expected_identity: Seq<u8>,
    registry: Seq<MeasurementInfo>,
)
    requires
        q.signed_with(key),
        q.nonce == expected_nonce,
        !measurement_matches(registry, expected_identity, q.pcr_index, q.register_value),
    ensures
        spec_verify(q, key, expected_nonce, expected_identity, registry) == Decision::Rejected(
            RejectReason::MeasurementMismatch,
        ),
{
}

/// Law: a quote embedding one nonce never verifies against a challenge
/// expecting another, even with a valid signature and a matching
/// measurement.
pub proof fn lemma_nonce_binding(
    q: QuoteInfo,
    key: Seq<u8>,
    expected_nonce: Seq<u8>,
    expected_identity: Seq<u8>,
    registry: Seq<MeasurementInfo>,
)
    requires
        q.nonce != expected_nonce,
    ensures
        spec_verify(q, key, expected_nonce, expected_identity, registry) != Decision::Accepted,
{
}

} // verus!
