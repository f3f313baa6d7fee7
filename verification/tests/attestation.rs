//! End-to-end behaviour of the attestation-and-gating protocol.

use attest_gate::decision::{verify, Decision, RejectReason};
use attest_gate::report::{decode_report, encode_report, report_of_quote, AttestationReport};
use attest_gate::nonce::NonceManager;
use attest_gate::protocol::{begin_attestation, settle_quote_outcome, HardwareError};
use attest_gate::quote::{compute_tag, quote_body_bytes, sign_quote, Quote};
use attest_gate::registry::{MeasurementRecord, MeasurementRegistry};
use attest_gate::session::{submit_status, Session, SessionState};

const PCR: u64 = 10;

fn digest(fill: u8) -> Vec<u8> {
    vec![fill; 32]
}

fn nonce_bytes(fill: u8) -> Vec<u8> {
    vec![fill; 32]
}

fn registry_with(identity: &[u8], expected_value: &[u8]) -> MeasurementRegistry {
    let mut registry = MeasurementRegistry::new();
    let ok = registry.register(MeasurementRecord {
        identity: identity.to_vec(),
        pcr_index: PCR,
        expected_value: expected_value.to_vec(),
    });
    assert!(ok);
    registry
}

#[test]
fn accepted_end_to_end() {
    // Scenario: identity M1 registered with expected register value V1, the
    // module really measures to V1, the quote is honestly signed and embeds
    // the session's challenge: the decision is `accepted`, one payload is
    // forwarded with the session id attached, and the boundary reports 0.
    let m1 = digest(0x11);
    let v1 = digest(0x51);
    let registry = registry_with(&m1, &v1);
    let key = vec![9u8, 8, 7];

    let mut session = Session::new(42);
    let mut nonces = NonceManager::new();
    assert!(begin_attestation(&mut session, &mut nonces, nonce_bytes(0xA0), 100, 30));
    assert!(session.mark_quote_requested());

    let quote = sign_quote(&key, PCR, v1.clone(), nonce_bytes(0xA0));
    let d = settle_quote_outcome(
        &mut session,
        &mut nonces,
        &registry,
        &key,
        &m1,
        Ok(quote),
        110,
    );
    assert_eq!(d, Decision::Accepted);
    assert_eq!(session.state, SessionState::Accepted);

    let payload = vec![1u8, 2, 3];
    let outcome = session.submit(payload.clone());
    assert_eq!(submit_status(&outcome), 0);
    let submission = outcome.unwrap();
    assert_eq!(submission.session_id, 42);
    assert_eq!(submission.payload, payload);
    assert_eq!(session.state, SessionState::Closed);
}

#[test]
fn tampered_module_is_dropped() {
    // Same setup, but the module was tampered with: the platform honestly
    // measures V2 != V1 and the quote says so.  The decision is a
    // measurement mismatch and the submission is dropped with a nonzero
    // status.
    let m1 = digest(0x11);
    let v1 = digest(0x51);
    let v2 = digest(0x52);
    let registry = registry_with(&m1, &v1);
    let key = vec![9u8, 8, 7];

    let mut session = Session::new(43);
    let mut nonces = NonceManager::new();
    assert!(begin_attestation(&mut session, &mut nonces, nonce_bytes(0xA1), 100, 30));
    assert!(session.mark_quote_requested());

    let quote = sign_quote(&key, PCR, v2, nonce_bytes(0xA1));
    let d = settle_quote_outcome(
        &mut session,
        &mut nonces,
        &registry,
        &key,
        &m1,
        Ok(quote),
        110,
    );
    assert_eq!(d, Decision::Rejected(RejectReason::MeasurementMismatch));
    assert_eq!(session.state, SessionState::Rejected);

    let outcome = session.submit(vec![1u8, 2, 3]);
    assert!(outcome.is_none());
    assert_ne!(submit_status(&outcome), 0);
}

#[test]
fn nonce_consumed_at_most_once() {
    // A second consumption attempt with the same value always rejects, even
    // when the first attempt itself failed.
    let mut nonces = NonceManager::new();
    let n = nonce_bytes(0xB0);
    assert!(nonces.issue(1, n.clone(), 100, 30));

    // First attempt succeeds, second is a replay.
    assert!(nonces.consume(1, &n, 110));
    assert!(!nonces.consume(1, &n, 110));

    // A failed first attempt (wrong session) still burns the value.
    let m = nonce_bytes(0xB1);
    assert!(nonces.issue(2, m.clone(), 100, 30));
    assert!(!nonces.consume(1, &m, 110));
    assert!(!nonces.consume(2, &m, 110));

    // An expired nonce rejects, and keeps rejecting.
    let e = nonce_bytes(0xB2);
    assert!(nonces.issue(3, e.clone(), 100, 30));
    assert!(!nonces.consume(3, &e, 200));
    assert!(!nonces.consume(3, &e, 120));

    // A value that was never issued rejects.
    assert!(!nonces.consume(1, &nonce_bytes(0xB3), 110));
}

#[test]
fn nonce_values_are_unique_per_issue() {
    let mut nonces = NonceManager::new();
    let n = nonce_bytes(0xC0);
    assert!(nonces.issue(1, n.clone(), 100, 30));
    // The same value can never be handed to a second session.
    assert!(!nonces.issue(2, n.clone(), 105, 30));
}

#[test]
fn signature_bit_flips_reject() {
    // Flipping any bit of the signature field turns a verifying quote into
    // a `BadSignature` rejection.
    let m1 = digest(0x11);
    let v1 = digest(0x51);
    let registry = registry_with(&m1, &v1);
    let key = vec![4u8, 5, 6];
    let n = nonce_bytes(0xD0);

    let quote = sign_quote(&key, PCR, v1.clone(), n.clone());
    assert_eq!(verify(&quote, &key, &n, &m1, &registry), Decision::Accepted);

    for byte in 0..quote.signature.len() {
        for bit in 0..8 {
            let mut tampered = Quote {
                pcr_index: quote.pcr_index,
                register_value: quote.register_value.clone(),
                nonce: quote.nonce.clone(),
                signature: quote.signature.clone(),
            };
            tampered.signature[byte] ^= 1 << bit;
            assert_eq!(
                verify(&tampered, &key, &n, &m1, &registry),
                Decision::Rejected(RejectReason::BadSignature)
            );
        }
    }
}

#[test]
fn register_value_bit_flips_reject() {
    // Flipping any bit of the measured register value — with the quote
    // honestly re-signed over the flipped value, as a real trust module
    // would — yields `MeasurementMismatch`, since no flipped value matches
    // the registry record.
    let m1 = digest(0x11);
    let v1 = digest(0x51);
    let registry = registry_with(&m1, &v1);
    let key = vec![4u8, 5, 6];
    let n = nonce_bytes(0xD1);

    for byte in 0..v1.len() {
        for bit in 0..8 {
            let mut flipped = v1.clone();
            flipped[byte] ^= 1 << bit;
            let quote = sign_quote(&key, PCR, flipped, n.clone());
            assert_eq!(
                verify(&quote, &key, &n, &m1, &registry),
                Decision::Rejected(RejectReason::MeasurementMismatch)
            );
        }
    }
}

#[test]
fn quote_never_verifies_against_other_challenge() {
    // A quote generated for nonce N1 never verifies against a challenge
    // expecting N2, even with a valid signature and matching measurement.
    let m1 = digest(0x11);
    let v1 = digest(0x51);
    let registry = registry_with(&m1, &v1);
    let key = vec![4u8, 5, 6];
    let n1 = nonce_bytes(0xE1);
    let n2 = nonce_bytes(0xE2);

    let quote = sign_quote(&key, PCR, v1.clone(), n1.clone());
    assert_eq!(verify(&quote, &key, &n1, &m1, &registry), Decision::Accepted);
    assert_eq!(
        verify(&quote, &key, &n2, &m1, &registry),
        Decision::Rejected(RejectReason::NonceMismatch)
    );
}

#[test]
fn unauthorized_identity_rejects() {
    // An identity the registry does not know is a measurement mismatch.
    let m1 = digest(0x11);
    let m2 = digest(0x12);
    let v1 = digest(0x51);
    let registry = registry_with(&m1, &v1);
    let key = vec![4u8, 5, 6];
    let n = nonce_bytes(0xE3);

    let quote = sign_quote(&key, PCR, v1.clone(), n.clone());
    assert_eq!(
        verify(&quote, &key, &n, &m2, &registry),
        Decision::Rejected(RejectReason::MeasurementMismatch)
    );
}

#[test]
fn wrong_register_selection_rejects() {
    // A quote over the wrong register index does not match the record.
    let m1 = digest(0x11);
    let v1 = digest(0x51);
    let registry = registry_with(&m1, &v1);
    let key = vec![4u8, 5, 6];
    let n = nonce_bytes(0xE4);

    let quote = sign_quote(&key, PCR + 1, v1.clone(), n.clone());
    assert_eq!(
        verify(&quote, &key, &n, &m1, &registry),
        Decision::Rejected(RejectReason::MeasurementMismatch)
    );
}

#[test]
fn submissions_drop_in_every_state_but_accepted() {
    // The submission gate drops payloads in every state other than `Accepted`.
    let payload = vec![0xF0u8];

    let mut fresh = Session::new(1);
    assert!(fresh.submit(payload.clone()).is_none());

    let mut challenged = Session::new(2);
    assert!(challenged.issue_challenge(nonce_bytes(1)));
    assert!(challenged.submit(payload.clone()).is_none());

    let mut requested = Session::new(3);
    assert!(requested.issue_challenge(nonce_bytes(2)));
    assert!(requested.mark_quote_requested());
    assert!(requested.submit(payload.clone()).is_none());

    let mut closed = Session::new(4);
    closed.close();
    assert!(closed.submit(payload.clone()).is_none());
}

#[test]
fn acceptance_covers_exactly_one_submission() {
    // After one successful submission the session is closed: a second
    // submission in the same session, without a fresh attestation cycle,
    // is rejected.
    let m1 = digest(0x11);
    let v1 = digest(0x51);
    let registry = registry_with(&m1, &v1);
    let key = vec![9u8, 8, 7];

    let mut session = Session::new(7);
    let mut nonces = NonceManager::new();
    assert!(begin_attestation(&mut session, &mut nonces, nonce_bytes(0xF1), 100, 30));
    assert!(session.mark_quote_requested());
    let quote = sign_quote(&key, PCR, v1.clone(), nonce_bytes(0xF1));
    let d = settle_quote_outcome(&mut session, &mut nonces, &registry, &key, &m1, Ok(quote), 105);
    assert_eq!(d, Decision::Accepted);

    assert!(session.submit(vec![1u8]).is_some());
    let second = session.submit(vec![2u8]);
    assert!(second.is_none());
    assert_ne!(submit_status(&second), 0);
    assert_eq!(session.state, SessionState::Closed);
}

#[test]
fn challenge_only_from_unattested() {
    let mut session = Session::new(5);
    assert!(session.issue_challenge(nonce_bytes(1)));
    // A session already holding a challenge refuses another.
    assert!(!session.issue_challenge(nonce_bytes(2)));
    let mut nonces = NonceManager::new();
    assert!(!begin_attestation(&mut session, &mut nonces, nonce_bytes(3), 100, 30));
}

#[test]
fn quote_request_needs_a_challenge() {
    let mut session = Session::new(6);
    assert!(!session.mark_quote_requested());
    assert!(session.issue_challenge(nonce_bytes(1)));
    assert!(session.mark_quote_requested());
    // And only once per challenge.
    assert!(!session.mark_quote_requested());
}

#[test]
fn hardware_fault_fails_closed() {
    // A hardware fault becomes a `HardwareUnavailable` rejection on the
    // session, never a silent retry as success.
    let m1 = digest(0x11);
    let v1 = digest(0x51);
    let registry = registry_with(&m1, &v1);
    let key = vec![9u8, 8, 7];

    let mut session = Session::new(8);
    let mut nonces = NonceManager::new();
    assert!(begin_attestation(&mut session, &mut nonces, nonce_bytes(0xF2), 100, 30));
    assert!(session.mark_quote_requested());
    let d = settle_quote_outcome(
        &mut session,
        &mut nonces,
        &registry,
        &key,
        &m1,
        Err(HardwareError::DeviceUnreachable),
        105,
    );
    assert_eq!(d, Decision::Rejected(RejectReason::HardwareUnavailable));
    assert_eq!(session.state, SessionState::Rejected);
    assert!(session.submit(vec![1u8]).is_none());
}

#[test]
fn replayed_quote_settles_as_replay() {
    // Settling a second quote for a cycle whose challenge was already
    // consumed yields a replay rejection, and the recorded decision of the
    // finished cycle stands.
    let m1 = digest(0x11);
    let v1 = digest(0x51);
    let registry = registry_with(&m1, &v1);
    let key = vec![9u8, 8, 7];

    let mut session = Session::new(11);
    let mut nonces = NonceManager::new();
    assert!(begin_attestation(&mut session, &mut nonces, nonce_bytes(0xF5), 100, 30));
    assert!(session.mark_quote_requested());
    let quote = sign_quote(&key, PCR, v1.clone(), nonce_bytes(0xF5));
    let d = settle_quote_outcome(&mut session, &mut nonces, &registry, &key, &m1, Ok(quote), 105);
    assert_eq!(d, Decision::Accepted);

    let replay = sign_quote(&key, PCR, v1.clone(), nonce_bytes(0xF5));
    let d2 = settle_quote_outcome(&mut session, &mut nonces, &registry, &key, &m1, Ok(replay), 106);
    assert_eq!(d2, Decision::Rejected(RejectReason::ReplayedOrExpiredNonce));
    assert_eq!(session.state, SessionState::Accepted);
    assert_eq!(session.decision, Some(Decision::Accepted));
}

#[test]
fn consumed_value_cannot_be_reissued() {
    // A challenge value that was ever outstanding stays burned: no later
    // session can be issued the same value.
    let m1 = digest(0x11);
    let v1 = digest(0x51);
    let registry = registry_with(&m1, &v1);
    let key = vec![9u8, 8, 7];

    let mut session = Session::new(12);
    let mut nonces = NonceManager::new();
    assert!(begin_attestation(&mut session, &mut nonces, nonce_bytes(0xF6), 100, 30));
    assert!(session.mark_quote_requested());
    let quote = sign_quote(&key, PCR, v1.clone(), nonce_bytes(0xF6));
    settle_quote_outcome(&mut session, &mut nonces, &registry, &key, &m1, Ok(quote), 105);

    let mut later = Session::new(13);
    assert!(!begin_attestation(&mut later, &mut nonces, nonce_bytes(0xF6), 200, 30));
}

#[test]
fn expired_challenge_rejects_quote() {
    // Expiry while the quote request is in flight resolves to rejection.
    let m1 = digest(0x11);
    let v1 = digest(0x51);
    let registry = registry_with(&m1, &v1);
    let key = vec![9u8, 8, 7];

    let mut session = Session::new(9);
    let mut nonces = NonceManager::new();
    assert!(begin_attestation(&mut session, &mut nonces, nonce_bytes(0xF3), 100, 30));
    assert!(session.mark_quote_requested());
    let quote = sign_quote(&key, PCR, v1.clone(), nonce_bytes(0xF3));
    let d = settle_quote_outcome(&mut session, &mut nonces, &registry, &key, &m1, Ok(quote), 131);
    assert_eq!(d, Decision::Rejected(RejectReason::ReplayedOrExpiredNonce));
    assert_eq!(session.state, SessionState::Rejected);
}

#[test]
fn closed_session_discards_late_decision() {
    // A session torn down while its quote request is outstanding lets the
    // request complete but discards the eventual decision.
    let m1 = digest(0x11);
    let v1 = digest(0x51);
    let registry = registry_with(&m1, &v1);
    let key = vec![9u8, 8, 7];

    let mut session = Session::new(10);
    let mut nonces = NonceManager::new();
    assert!(begin_attestation(&mut session, &mut nonces, nonce_bytes(0xF4), 100, 30));
    assert!(session.mark_quote_requested());
    session.close();

    let quote = sign_quote(&key, PCR, v1.clone(), nonce_bytes(0xF4));
    let d = settle_quote_outcome(&mut session, &mut nonces, &registry, &key, &m1, Ok(quote), 105);
    assert_eq!(d, Decision::Accepted);
    assert_eq!(session.state, SessionState::Closed);
    assert_eq!(session.decision, None);
    assert!(session.submit(vec![1u8]).is_none());
}

#[test]
fn registry_refuses_duplicate_identity() {
    let m1 = digest(0x11);
    let v1 = digest(0x51);
    let v2 = digest(0x52);
    let mut registry = registry_with(&m1, &v1);
    let ok = registry.register(MeasurementRecord {
        identity: m1.clone(),
        pcr_index: PCR,
        expected_value: v2,
    });
    assert!(!ok);

    let record = registry.expected(&m1).unwrap();
    assert_eq!(record.expected_value, v1);
    assert_eq!(record.pcr_index, PCR);
    assert!(registry.expected(&digest(0x13)).is_none());
}

#[test]
fn tag_has_exact_known_values() {
    // The keyed tag, pinned on concrete inputs.
    assert_eq!(compute_tag(&vec![], &vec![]), vec![71u8, 84, 95, 65]);
    assert_eq!(compute_tag(&vec![1u8], &vec![2u8]), vec![168u8, 94, 219, 102]);
}

#[test]
fn report_round_trip() {
    let report = AttestationReport { quote: vec![1u8, 2, 3], signature: vec![9u8, 9] };
    let wire = encode_report(&report);
    assert_eq!(wire, vec![3u8, 0, 0, 0, 1, 2, 3, 2, 0, 0, 0, 9, 9]);
    let back = decode_report(&wire).unwrap();
    assert_eq!(back.quote, vec![1u8, 2, 3]);
    assert_eq!(back.signature, vec![9u8, 9]);
}

#[test]
fn report_decode_rejects_malformed_wire() {
    // Too short for a length prefix.
    assert!(decode_report(&vec![1u8, 2]).is_none());
    // First field length runs past the end.
    assert!(decode_report(&vec![3u8, 0, 0, 0, 1]).is_none());
    // Trailing bytes after the second field.
    assert!(decode_report(&vec![0u8, 0, 0, 0, 1, 0, 0, 0, 5, 7]).is_none());
    // Second length prefix missing.
    assert!(decode_report(&vec![1u8, 0, 0, 0, 5]).is_none());
}

#[test]
fn report_carries_quote_body_and_signature() {
    let key = vec![4u8, 5, 6];
    let quote = sign_quote(&key, PCR, digest(0x51), nonce_bytes(0xD2));
    let report = report_of_quote(&quote);
    assert_eq!(
        report.quote,
        quote_body_bytes(PCR, &quote.register_value, &quote.nonce)
    );
    assert_eq!(report.signature, quote.signature);
}

#[test]
fn quote_body_has_exact_wire_form() {
    let body = quote_body_bytes(10, &vec![0xAAu8, 0xBB], &vec![7u8, 8, 9]);
    assert_eq!(
        body,
        vec![10u8, 0, 0, 0, 2, 0, 0, 0, 0xAA, 0xBB, 3, 0, 0, 0, 7, 8, 9]
    );
    let tag = compute_tag(&vec![1u8, 2, 3], &body);
    assert_eq!(tag, vec![171u8, 174, 206, 84]);
}
