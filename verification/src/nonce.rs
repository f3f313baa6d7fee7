//! Challenge nonce lifecycle: single-use freshness tokens bound to a session.
//!
//! A nonce is issued once, recorded as outstanding with an expiry, and is
//! consumed by at most one verification attempt.  Any attempt against a
//! value that was already the subject of an attempt is rejected.

use vstd::prelude::*;

use crate::bytes::bytes_eq;

verus! {

/// Number of bytes in a challenge nonce.
pub const NONCE_LEN: usize = 32;

/// Mathematical model of one outstanding challenge nonce.
pub ghost struct NonceInfo {
    pub value: Seq<u8>,
    pub session: u64,
    pub issued_at: u64,
    pub expires_at: u64,
    pub used: bool,
}

/// One outstanding challenge nonce, bound to the session it was issued for.
pub struct NonceEntry {
    pub value: Vec<u8>,
    pub session: u64,
    pub issued_at: u64,
    pub expires_at: u64,
    pub used: bool,
}

impl View for NonceEntry {
    type V = NonceInfo;

    open spec fn view(&self) -> NonceInfo {
        NonceInfo {
            value: self.value@,
            session: self.session,
            issued_at: self.issued_at,
            expires_at: self.expires_at,
            used: self.used,
        }
    }
}

/// The model of a table of entries.
pub open spec fn table_view(entries: Seq<NonceEntry>) -> Seq<NonceInfo> {
    Seq::new(entries.len(), |i: int| entries[i]@)
}

/// A well-formed table: every value has nonce length, and no value is held
/// by two entries, so a value identifies at most one outstanding challenge.
pub open spec fn table_wf(s: Seq<NonceInfo>) -> bool {
    &&& forall|i: int| 0 <= i < s.len() ==> (#[trigger] s[i]).value.len() == NONCE_LEN
    &&& forall|i: int, j: int|
        0 <= i < s.len() && 0 <= j < s.len() && i != j ==> (#[trigger] s[i]).value != (
        #[trigger] s[j]).value
}

/// Whether some entry of the table holds value `v`.
pub open spec fn has_value(s: Seq<NonceInfo>, v: Seq<u8>) -> bool {
    exists|i: int| 0 <= i < s.len() && (#[trigger] s[i]).value == v
}

/// A single entry admits a consumption attempt for `(session, v)` at `now`
/// when it holds the value, belongs to the session, is unexpired and was
/// never the subject of an earlier attempt.
pub open spec fn entry_valid(e: NonceInfo, session: u64, v: Seq<u8>, now: u64) -> bool {
    &&& e.value == v
    &&& e.session == session
    &&& !e.used
    &&& now <= e.expires_at
}

/// A consumption attempt for `(session, v)` at time `now` succeeds exactly
/// when some entry admits it.
pub open spec fn consume_ok(s: Seq<NonceInfo>, session: u64, v: Seq<u8>, now: u64) -> bool {
    exists|i: int| 0 <= i < s.len() && entry_valid(#[trigger] s[i], session, v, now)
}

/// One entry after a consumption attempt for value `v`: an entry holding `v`
/// is burned whatever the attempt's outcome; other entries are untouched.
pub open spec fn mark_used_one(e: NonceInfo, v: Seq<u8>) -> NonceInfo {
    if e.value == v {
        NonceInfo {
            value: e.value,
            session: e.session,
            issued_at: e.issued_at,
            expires_at: e.expires_at,
            used: true,
        }
    } else {
        e
    }
}

/// The table after a consumption attempt for value `v`.
pub open spec fn mark_used(s: Seq<NonceInfo>, v: Seq<u8>) -> Seq<NonceInfo> {
    s.map_values(|e: NonceInfo| mark_used_one(e, v))
}

/// The entry recorded by a successful issuance.
pub open spec fn issued_entry(v: Seq<u8>, session: u64, now: u64, expiry: u64) -> NonceInfo {
    NonceInfo { value: v, session, issued_at: now, expires_at: expiry, used: false }
}

/// The outstanding-nonce table.  Its model is the sequence of entries, in
/// order of issuance.
pub struct NonceManager {
    entries: Vec<NonceEntry>,
}

impl View for NonceManager {
    type V = Seq<NonceInfo>;

    closed spec fn view(&self) -> Seq<NonceInfo> {
        table_view(self.entries@)
    }
}

impl NonceManager {
    /// A manager with no outstanding nonce.
    pub fn new() -> (m: NonceManager)
        ensures
            m@ == Seq::<NonceInfo>::empty(),
            table_wf(m@),
    {
        let m = NonceManager { entries: Vec::new() };
        proof {
            assert(m@ =~= Seq::<NonceInfo>::empty());
        }
        m
    }

    /// Record `value` as the outstanding challenge for `session`, valid from
    /// `now` until `now + ttl`.  Refuses a value some entry already holds, so
    /// two sessions can never be issued the same challenge.
    pub fn issue(&mut self, session: u64, value: Vec<u8>, now: u64, ttl: u64) -> (r: bool)
        requires
            table_wf(old(self)@),
            value@.len() == NONCE_LEN,
            now + ttl <= u64::MAX,
        ensures
            table_wf(final(self)@),
            r == !has_value(old(self)@, value@),
            r ==> final(self)@ == old(self)@.push(
                issued_entry(value@, session, now, (now + ttl) as u64),
            ),
            !r ==> final(self)@ == old(self)@,
    {
        let ghost s0 = self@;
        let n: usize = self.entries.len();
        let mut i: usize = 0;
        while i < n
            invariant
                self.entries@ == old(self).entries@,
                self@ == s0,
                s0 == old(self)@,
                table_wf(s0),
                value@.len() == NONCE_LEN,
                now + ttl <= u64::MAX,
                n == self.entries@.len(),
                i <= n,
                forall|k: int| 0 <= k < i ==> (#[trigger] s0[k]).value != value@,
            decreases n - i,
        {
            proof {
                assert(s0[i as int] == self.entries@[i as int]@);
            }
            if bytes_eq(&self.entries[i].value, &value) {
                proof {
                    assert(has_value(s0, value@));
                }
                return false;
            }
            i += 1;
        }
        let entry = NonceEntry {
            value,
            session,
            issued_at: now,
            expires_at: now + ttl,
            used: false,
        };
        self.entries.push(entry);
        proof {
            assert(self@ =~= s0.push(issued_entry(value@, session, now, (now + ttl) as u64)));
            assert(!has_value(s0, value@));
        }
        true
    }

    /// One consumption attempt for `(session, value)` at time `now`.  The
    /// entry holding `value`, if any, is burned whatever the outcome, so no
    /// second attempt with the same value can ever succeed.  Returns whether
    /// the attempt was valid: matching session, unexpired, never attempted.
    pub fn consume(&mut self, session: u64, value: &Vec<u8>, now: u64) -> (r: bool)
        requires
            table_wf(old(self)@),
        ensures
            table_wf(final(self)@),
            final(self)@ == mark_used(old(self)@, value@),
            r == consume_ok(old(self)@, session, value@, now),
    {
        let ghost s0 = self@;
        let n: usize = self.entries.len();
        let mut i: usize = 0;
        while i < n
            invariant
                self.entries@ == old(self).entries@,
                self@ == s0,
                s0 == old(self)@,
                table_wf(s0),
                n == self.entries@.len(),
                i <= n,
                forall|k: int| 0 <= k < i ==> (#[trigger] s0[k]).value != value@,
            decreases n - i,
        {
            proof {
                assert(s0[i as int] == self.entries@[i as int]@);
            }
            if bytes_eq(&self.entries[i].value, value) {
                let ghost entries0 = self.entries@;
                let e = self.entries.remove(i);
                let valid = e.session == session && !e.used && now <= e.expires_at;
                let burned = NonceEntry {
                    value: e.value,
                    session: e.session,
                    issued_at: e.issued_at,
                    expires_at: e.expires_at,
                    used: true,
                };
                self.entries.insert(i, burned);
                proof {
                    assert(self.entries@ =~= entries0.update(i as int, burned));
                    assert forall|k: int| 0 <= k < s0.len() implies self@[k] == mark_used_one(
                        s0[k],
                        value@,
                    ) by {
                        assert(self@[k] == self.entries@[k]@);
                        if k != i {
                            assert(self.entries@[k] == entries0[k]);
                            assert(s0[k].value != s0[i as int].value);
                        }
                    }
                    assert(self@ =~= mark_used(s0, value@));
                    if valid {
                        assert(entry_valid(s0[i as int], session, value@, now));
                    } else {
                        assert forall|j: int|
                            0 <= j < s0.len() implies !entry_valid(
                            s0[j],
                            session,
                            value@,
                            now,
                        ) by {
                            if j != i {
                                assert(s0[j].value != s0[i as int].value);
                            }
                        }
                    }
                }
                return valid;
            }
            i += 1;
        }
        proof {
            assert(forall|k: int|
                0 <= k < s0.len() ==> mark_used_one(#[trigger] s0[k], value@) == s0[k]);
            assert(self@ =~= mark_used(s0, value@));
            assert(!consume_ok(s0, session, value@, now));
        }
        false
    }
}

/// Law: a nonce value admits at most one consumption attempt.  After any
/// attempt for value `v` — successful or not — every further attempt for the
/// same value rejects, whatever session or time it names.
pub proof fn lemma_nonce_single_use(s: Seq<NonceInfo>, session: u64, v: Seq<u8>, now: u64)
    ensures
        !consume_ok(mark_used(s, v), session, v, now),
{
    let marked = mark_used(s, v);
    assert forall|j: int| 0 <= j < marked.len() implies !entry_valid(
        marked[j],
        session,
        v,
        now,
    ) by {
        assert(marked[j] == mark_used_one(s[j], v));
    }
}

} // verus!
