//! The attestation cycle, driven step by step.
//!
//! The hardware trust module itself is an external collaborator: the host
//! dispatches the quote request and hands whatever came back — a quote or a
//! hardware fault — to `settle_quote_outcome`, which consumes the session's
//! challenge, verifies the evidence and records the decision.  Every fault
//! fails closed: the session's decision becomes a rejection, never a retry
//! passed off as success.

use vstd::prelude::*;

use crate::bytes::copy_bytes;
use crate::decision::{measurement_matches, spec_verify, verify, Decision, RejectReason};
use crate::nonce::{
    consume_ok, has_value, issued_entry, mark_used, table_wf, NonceInfo, NonceManager, NONCE_LEN,
};
use crate::quote::{Quote, QuoteInfo};
use crate::registry::{MeasurementInfo, MeasurementRegistry};
use crate::session::{after_decision, Session, SessionInfo, SessionState};

verus! {

/// A fault of the hardware trust module: the device could not be reached,
/// or the quote operation timed out.  Either way no evidence exists.
#[derive(Clone, Copy, Debug, PartialEq, Eq, Structural)]
pub enum HardwareError {
    DeviceUnreachable,
    Timeout,
}

/// The model of a quote request's outcome.
pub open spec fn outcome_view(outcome: Result<Quote, HardwareError>) -> Result<
    QuoteInfo,
    HardwareError,
> {
    match outcome {
        Result::Ok(q) => Result::Ok(q@),
        Result::Err(e) => Result::Err(e),
    }
}

/// The decision a settled quote outcome yields: a hardware fault fails
/// closed; a quote first consumes the session's challenge — a missing,
/// expired or already-consumed challenge rejects — and is then verified
/// against that challenge, the claimed identity and the registry.
pub open spec fn settle_decision(
    s: SessionInfo,
    table: Seq<NonceInfo>,
    registry: Seq<MeasurementInfo>,
    key: Seq<u8>,
    expected_identity: Seq<u8>,
    outcome: Result<QuoteInfo, HardwareError>,
    now: u64,
) -> Decision {
    match outcome {
        Result::Err(_) => Decision::Rejected(RejectReason::HardwareUnavailable),
        Result::Ok(q) => match s.nonce {
            None => Decision::Rejected(RejectReason::ReplayedOrExpiredNonce),
            Some(n) => if !consume_ok(table, s.id, n, now) {
                Decision::Rejected(RejectReason::ReplayedOrExpiredNonce)
            } else {
                spec_verify(q, key, n, expected_identity, registry)
            },
        },
    }
}

/// The outstanding-nonce table after a quote outcome is settled: a quote
/// spends the session's challenge — one verification attempt, whatever its
/// outcome — while a hardware fault leaves the challenge untouched.
pub open spec fn settle_table(
    s: SessionInfo,
    table: Seq<NonceInfo>,
    outcome: Result<QuoteInfo, HardwareError>,
) -> Seq<NonceInfo> {
    match outcome {
        Result::Err(_) => table,
        Result::Ok(_) => match s.nonce {
            None => table,
            Some(n) => mark_used(table, n),
        },
    }
}

/// Start an attestation cycle: record `nonce_value` — freshly drawn by the
/// caller from a cryptographically secure source — as the outstanding
/// challenge for the session and attach it as the session's challenge.
/// Refuses a session that is not unattested, and a challenge value that is
/// already outstanding — two sessions never hold the same challenge.
pub fn begin_attestation(
    session: &mut Session,
    nonces: &mut NonceManager,
    nonce_value: Vec<u8>,
    now: u64,
    ttl: u64,
) -> (r: bool)
    requires
        old(session)@.wf(),
        table_wf(old(nonces)@),
        nonce_value@.len() == NONCE_LEN,
        now + ttl <= u64::MAX,
    ensures
        final(session)@.wf(),
        table_wf(final(nonces)@),
        r == (old(session)@.state == SessionState::Unattested && !has_value(
            old(nonces)@,
            nonce_value@,
        )),
        r ==> final(nonces)@ == old(nonces)@.push(
            issued_entry(nonce_value@, old(session)@.id, now, (now + ttl) as u64),
        ) && final(session)@ == (SessionInfo {
            id: old(session)@.id,
            state: SessionState::ChallengeIssued,
            nonce: Some(nonce_value@),
            decision: old(session)@.decision,
        }),
        !r ==> final(nonces)@ == old(nonces)@ && final(session)@ == old(session)@,
{
    match session.state {
        SessionState::Unattested => {},
        _ => {
            return false;
        },
    }
    let recorded = nonces.issue(session.id, copy_bytes(&nonce_value), now, ttl);
    if !recorded {
        return false;
    }
    let attached = session.issue_challenge(nonce_value);
    proof {
        assert(attached);
    }
    true
}

/// Settle the outcome of this session's quote request: consume the
/// challenge, verify the evidence under the trust module's `key` against
/// the registry record for `expected_identity`, and record the decision on
/// the session.  A session that was closed while the request was in flight
/// discards the decision.
pub fn settle_quote_outcome(
    session: &mut Session,
    nonces: &mut NonceManager,
    registry: &MeasurementRegistry,
    key: &Vec<u8>,
    expected_identity: &Vec<u8>,
    outcome: Result<Quote, HardwareError>,
    now: u64,
) -> (d: Decision)
    requires
        old(session)@.wf(),
        table_wf(old(nonces)@),
        outcome matches Result::Ok(q) ==> q@.wf(),
    ensures
        final(session)@.wf(),
        table_wf(final(nonces)@),
        d == settle_decision(
            old(session)@,
            old(nonces)@,
            registry@,
            key@,
            expected_identity@,
            outcome_view(outcome),
            now,
        ),
        final(nonces)@ == settle_table(old(session)@, old(nonces)@, outcome_view(outcome)),
        final(session)@ == after_decision(old(session)@, d),
{
    let d = match outcome {
        Result::Err(_) => Decision::Rejected(RejectReason::HardwareUnavailable),
        Result::Ok(q) => match &session.nonce {
            None => Decision::Rejected(RejectReason::ReplayedOrExpiredNonce),
            Some(n) => {
                let fresh = nonces.consume(session.id, n, now);
                if !fresh {
                    Decision::Rejected(RejectReason::ReplayedOrExpiredNonce)
                } else {
                    verify(&q, key, n, expected_identity, registry)
                }
            },
        },
    };
    session.record_decision(d);
    d
}

/// Law: the protocol accepts only fresh, valid evidence.  A settled outcome
/// is `Accepted` only when the hardware returned a quote whose signature
/// validates under the key, that embeds exactly the session's outstanding
/// challenge — unexpired, and consumed by this very attempt — and whose
/// measured register value is what the registry expects of the claimed
/// identity.
pub proof fn lemma_accept_needs_fresh_valid_evidence(
    s: SessionInfo,
    table: Seq<NonceInfo>,
    registry: Seq<MeasurementInfo>,
    key: Seq<u8>,
    expected_identity: Seq<u8>,
    outcome: Result<QuoteInfo, HardwareError>,
    now: u64,
)
    requires
        settle_decision(s, table, registry, key, expected_identity, outcome, now)
            == Decision::Accepted,
    ensures
        outcome matches Result::Ok(q) && s.nonce matches Some(n) && consume_ok(table, s.id, n, now)
            && q.signed_with(key) && q.nonce == n && measurement_matches(
            registry,
            expected_identity,
            q.pcr_index,
            q.register_value,
        ),
{
}

} // verus!
