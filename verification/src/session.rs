//! Sessions and the submission gate.
//!
//! A session groups one running module instance with its challenge nonce
//! and its attestation decision, and advances through
//! `Unattested -> ChallengeIssued -> QuoteRequested -> {Accepted, Rejected}
//! -> Closed`.  Only from `Accepted` does a payload pass the submission gate, and one
//! acceptance admits exactly one submission: forwarding closes the session.

use vstd::prelude::*;

use crate::decision::Decision;

verus! {

/// The monotonically advancing state of a session.
#[derive(Clone, Copy, Debug, PartialEq, Eq, Structural)]
pub enum SessionState {
    Unattested,
    ChallengeIssued,
    QuoteRequested,
    Accepted,
    Rejected,
    Closed,
}

/// Mathematical model of a session.
pub ghost struct SessionInfo {
    pub id: u64,
    pub state: SessionState,
    pub nonce: Option<Seq<u8>>,
    pub decision: Option<Decision>,
}

impl SessionInfo {
    /// The state is consistent with the recorded challenge and decision: a
    /// decision exists from the decided states on, carries the matching
    /// verdict, and a challenge exists from issuance on.
    pub open spec fn wf(self) -> bool {
        &&& self.state == SessionState::Accepted ==> self.decision == Some(Decision::Accepted)
        &&& self.state == SessionState::Rejected ==> (self.decision matches Some(
            Decision::Rejected(_),
        ))
        &&& (self.state == SessionState::ChallengeIssued || self.state
            == SessionState::QuoteRequested || self.state == SessionState::Accepted) ==> self.nonce
            is Some
        &&& (self.state == SessionState::Unattested || self.state == SessionState::ChallengeIssued)
            ==> self.decision is None
    }
}

/// Whether the submission gate admits a payload from a session in this state.
pub open spec fn submit_admits(s: SessionInfo) -> bool {
    s.state == SessionState::Accepted
}

/// The session after one submission attempt: a forwarded submission closes
/// the session — acceptance is valid for exactly one submission window —
/// and a dropped one changes nothing.
pub open spec fn after_submit(s: SessionInfo) -> SessionInfo {
    if submit_admits(s) {
        SessionInfo { id: s.id, state: SessionState::Closed, nonce: s.nonce, decision: s.decision }
    } else {
        s
    }
}

/// The session after a decision is recorded: only a session still awaiting
/// its quote takes the decision; in particular a session that was closed
/// while the quote request was in flight discards it.
pub open spec fn after_decision(s: SessionInfo, d: Decision) -> SessionInfo {
    if s.state == SessionState::QuoteRequested {
        SessionInfo {
            id: s.id,
            state: if d == Decision::Accepted {
                SessionState::Accepted
            } else {
                SessionState::Rejected
            },
            nonce: s.nonce,
            decision: Some(d),
        }
    } else {
        s
    }
}

/// A payload the submission gate admitted, bound to the session it originated
/// from, ready to be handed to the external aggregation pipeline.
pub struct Submission {
    pub session_id: u64,
    pub payload: Vec<u8>,
}

/// One running module instance with its challenge, decision and state.
pub struct Session {
    pub id: u64,
    pub state: SessionState,
    pub nonce: Option<Vec<u8>>,
    pub decision: Option<Decision>,
}

impl View for Session {
    type V = SessionInfo;

    open spec fn view(&self) -> SessionInfo {
        SessionInfo {
            id: self.id,
            state: self.state,
            nonce: match self.nonce {
                Some(v) => Some(v@),
                None => None,
            },
            decision: self.decision,
        }
    }
}

impl Session {
    /// A fresh, unattested session for one module instance.
    pub fn new(id: u64) -> (s: Session)
        ensures
            s@ == (SessionInfo {
                id,
                state: SessionState::Unattested,
                nonce: None,
                decision: None,
            }),
            s@.wf(),
    {
        Session { id, state: SessionState::Unattested, nonce: None, decision: None }
    }

    /// Attach a freshly issued challenge.  Only an unattested session takes
    /// one; any other state refuses, unchanged.
    pub fn issue_challenge(&mut self, nonce: Vec<u8>) -> (r: bool)
        requires
            old(self)@.wf(),
        ensures
            final(self)@.wf(),
            r == (old(self)@.state == SessionState::Unattested),
            r ==> final(self)@ == (SessionInfo {
                id: old(self)@.id,
                state: SessionState::ChallengeIssued,
                nonce: Some(nonce@),
                decision: old(self)@.decision,
            }),
            !r ==> final(self)@ == old(self)@,
    {
        match self.state {
            SessionState::Unattested => {
                self.state = SessionState::ChallengeIssued;
                self.nonce = Some(nonce);
                true
            },
            _ => false,
        }
    }

    /// Note that the quote request for this session's challenge has been
    /// handed to the hardware.  Only a session holding a fresh challenge
    /// advances; any other state refuses, unchanged.
    pub fn mark_quote_requested(&mut self) -> (r: bool)
        requires
            old(self)@.wf(),
        ensures
            final(self)@.wf(),
            r == (old(self)@.state == SessionState::ChallengeIssued),
            r ==> final(self)@ == (SessionInfo {
                id: old(self)@.id,
                state: SessionState::QuoteRequested,
                nonce: old(self)@.nonce,
                decision: old(self)@.decision,
            }),
            !r ==> final(self)@ == old(self)@,
    {
        match self.state {
            SessionState::ChallengeIssued => {
                self.state = SessionState::QuoteRequested;
                true
            },
            _ => false,
        }
    }

    /// Record the decision of this session's attestation cycle.  Only a
    /// session awaiting its quote takes it; a session that was closed or
    /// never asked discards the decision, unchanged.  Returns whether the
    /// decision was taken.
    pub fn record_decision(&mut self, d: Decision) -> (r: bool)
        requires
            old(self)@.wf(),
        ensures
            final(self)@.wf(),
            final(self)@ == after_decision(old(self)@, d),
            r == (old(self)@.state == SessionState::QuoteRequested),
    {
        match self.state {
            SessionState::QuoteRequested => {
                self.state = match d {
                    Decision::Accepted => SessionState::Accepted,
                    Decision::Rejected(_) => SessionState::Rejected,
                };
                self.decision = Some(d);
                true
            },
            _ => false,
        }
    }

    /// Tear the session down: module termination, decision expiry or
    /// explicit teardown.  No further submission is accepted afterwards,
    /// whatever decision was recorded before.
    pub fn close(&mut self)
        requires
            old(self)@.wf(),
        ensures
            final(self)@.wf(),
            final(self)@ == (SessionInfo {
                id: old(self)@.id,
                state: SessionState::Closed,
                nonce: old(self)@.nonce,
                decision: old(self)@.decision,
            }),
    {
        self.state = SessionState::Closed;
    }

    /// The submission gate: the boundary the running module hands its
    /// computed output to.  The payload is admitted — returned, bound to
    /// this session's id, for forwarding to the aggregation pipeline — only
    /// from a session holding a currently valid `Accepted` decision, and
    /// admission closes the session.  In every other state the payload is
    /// dropped and the session is unchanged; the module learns nothing but
    /// the drop itself.
    pub fn submit(&mut self, payload: Vec<u8>) -> (r: Option<Submission>)
        requires
            old(self)@.wf(),
        ensures
            final(self)@.wf(),
            final(self)@ == after_submit(old(self)@),
            r is Some <==> submit_admits(old(self)@),
            r matches Some(sub) ==> sub.session_id == old(self)@.id && sub.payload@ == payload@
                && old(self)@.decision == Some(Decision::Accepted),
    {
        match self.state {
            SessionState::Accepted => {
                self.state = SessionState::Closed;
                Some(Submission { session_id: self.id, payload })
            },
            _ => None,
        }
    }
}

/// The status word returned across the module boundary: 0 for
/// admitted-and-forwarded, nonzero for dropped.  No richer error surface
/// crosses the boundary: the module must not learn why it was rejected.
pub fn submit_status(outcome: &Option<Submission>) -> (code: u32)
    ensures
        (code == 0) <==> (outcome is Some),
{
    match outcome {
        Some(_) => 0,
        None => 1,
    }
}

/// Law: a payload is forwarded only out of a session whose recorded
/// decision is `Accepted`: no state without that decision admits a payload.
pub proof fn lemma_no_forward_without_acceptance(s: SessionInfo)
    requires
        s.wf(),
        submit_admits(s),
    ensures
        s.decision == Some(Decision::Accepted),
{
}

/// Law: one acceptance admits at most one submission.  After any
/// submission attempt — forwarded or dropped — no further attempt on the
/// same session is admitted until a fresh attestation cycle produces a new
/// accepted session.
pub proof fn lemma_single_submission_window(s: SessionInfo)
    ensures
        !submit_admits(after_submit(s)),
        submit_admits(s) ==> after_submit(s).state == SessionState::Closed,
{
}

} // verus!
