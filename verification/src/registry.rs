//! Measurement registry: the expected identity of each module version
//! authorized to run, with the platform-configuration-register value that
//! identity should produce.  Read-only to the attestation path.

use vstd::prelude::*;

use crate::bytes::bytes_eq;

verus! {

/// Mathematical model of one authorized-module record.
pub ghost struct MeasurementInfo {
    pub identity: Seq<u8>,
    pub pcr_index: u64,
    pub expected_value: Seq<u8>,
}

/// Maps a module identity (content digest) to the index of the platform
/// configuration register it is measured into and the register digest a
/// module of that identity should produce.
pub struct MeasurementRecord {
    pub identity: Vec<u8>,
    pub pcr_index: u64,
    pub expected_value: Vec<u8>,
}

impl View for MeasurementRecord {
    type V = MeasurementInfo;

    open spec fn view(&self) -> MeasurementInfo {
        MeasurementInfo {
            identity: self.identity@,
            pcr_index: self.pcr_index,
            expected_value: self.expected_value@,
        }
    }
}

/// The model of a sequence of records.
pub open spec fn records_view(records: Seq<MeasurementRecord>) -> Seq<MeasurementInfo> {
    Seq::new(records.len(), |i: int| records[i]@)
}

/// A well-formed registry holds at most one record per identity.
pub open spec fn registry_wf(s: Seq<MeasurementInfo>) -> bool {
    forall|i: int, j: int|
        0 <= i < s.len() && 0 <= j < s.len() && i != j ==> (#[trigger] s[i]).identity != (
        #[trigger] s[j]).identity
}

/// The record registered for `identity`, if that identity is authorized.
pub open spec fn lookup(s: Seq<MeasurementInfo>, identity: Seq<u8>) -> Option<MeasurementInfo>
    decreases s.len(),
{
    if s.len() == 0 {
        None
    } else if s[0].identity == identity {
        Some(s[0])
    } else {
        lookup(s.drop_first(), identity)
    }
}

/// An identity is authorized exactly when a lookup finds a record for it.
pub proof fn lemma_lookup_some(s: Seq<MeasurementInfo>, identity: Seq<u8>)
    ensures
        (lookup(s, identity) is Some) == exists|i: int|
            0 <= i < s.len() && (#[trigger] s[i]).identity == identity,
        lookup(s, identity) matches Some(m) ==> exists|i: int|
            0 <= i < s.len() && #[trigger] s[i] == m && m.identity == identity,
    decreases s.len(),
{
    if s.len() > 0 {
        if s[0].identity == identity {
        } else {
            lemma_lookup_some(s.drop_first(), identity);
            if exists|i: int| 0 <= i < s.len() && (#[trigger] s[i]).identity == identity {
                let i = choose|i: int|
                    0 <= i < s.len() && (#[trigger] s[i]).identity == identity;
                assert(s.drop_first()[i - 1] == s[i]);
            }
            match lookup(s.drop_first(), identity) {
                Some(m) => {
                    let i = choose|i: int|
                        0 <= i < s.drop_first().len() && #[trigger] s.drop_first()[i] == m
                            && m.identity == identity;
                    assert(s[i + 1] == s.drop_first()[i]);
                },
                None => {},
            }
        }
    }
}

/// The registry of authorized module measurements.  Its model is the
/// sequence of records, in order of registration.
pub struct MeasurementRegistry {
    records: Vec<MeasurementRecord>,
}

impl View for MeasurementRegistry {
    type V = Seq<MeasurementInfo>;

    closed spec fn view(&self) -> Seq<MeasurementInfo> {
        records_view(self.records@)
    }
}

impl MeasurementRegistry {
    /// A registry with no authorized identity.
    pub fn new() -> (r: MeasurementRegistry)
        ensures
            r@ == Seq::<MeasurementInfo>::empty(),
            registry_wf(r@),
    {
        let r = MeasurementRegistry { records: Vec::new() };
        proof {
            assert(r@ =~= Seq::<MeasurementInfo>::empty());
        }
        r
    }

    /// Administrative registration of an authorized identity.  Refuses an
    /// identity that is already registered, so a lookup is unambiguous.
    pub fn register(&mut self, record: MeasurementRecord) -> (r: bool)
        requires
            registry_wf(old(self)@),
        ensures
            registry_wf(final(self)@),
            r == (lookup(old(self)@, record@.identity) is None),
            r ==> final(self)@ == old(self)@.push(record@),
            !r ==> final(self)@ == old(self)@,
    {
        let ghost s0 = self@;
        let n: usize = self.records.len();
        let mut i: usize = 0;
        while i < n
            invariant
                self.records@ == old(self).records@,
                self@ == s0,
                s0 == old(self)@,
                registry_wf(s0),
                n == self.records@.len(),
                i <= n,
                forall|k: int| 0 <= k < i ==> (#[trigger] s0[k]).identity != record@.identity,
            decreases n - i,
        {
            proof {
                assert(s0[i as int] == self.records@[i as int]@);
            }
            if bytes_eq(&self.records[i].identity, &record.identity) {
                proof {
                    lemma_lookup_some(s0, record@.identity);
                }
                return false;
            }
            i += 1;
        }
        proof {
            lemma_lookup_some(s0, record@.identity);
        }
        self.records.push(record);
        proof {
            assert(self@ =~= s0.push(record@));
        }
        true
    }

    /// The register digest, with its register index, that a module of the
    /// given identity should have produced, or nothing if the identity is
    /// not authorized.
    pub fn expected(&self, identity: &Vec<u8>) -> (r: Option<&MeasurementRecord>)
        ensures
            match r {
                Some(record) => lookup(self@, identity@) == Some(record@),
                None => lookup(self@, identity@) is None,
            },
    {
        let n: usize = self.records.len();
        let mut i: usize = 0;
        proof {
            assert(self@.skip(0) =~= self@);
        }
        while i < n
            invariant
                n == self.records@.len(),
                i <= n,
                lookup(self@, identity@) == lookup(self@.skip(i as int), identity@),
            decreases n - i,
        {
            proof {
                assert(self@[i as int] == self.records@[i as int]@);
                assert(self@.skip(i as int)[0] == self@[i as int]);
            }
            if bytes_eq(&self.records[i].identity, identity) {
                proof {
                    assert(lookup(self@.skip(i as int), identity@) == Some(self@[i as int]));
                }
                return Some(&self.records[i]);
            }
            proof {
                assert(self@.skip(i as int).drop_first() =~= self@.skip(i as int + 1));
            }
            i += 1;
        }
        proof {
            assert(self@.skip(n as int) =~= Seq::<MeasurementInfo>::empty());
        }
        None
    }
}

} // verus!
