use vstd::prelude::*;
use crate::bytes::bytes32_eq;

verus! {

/// Error of [`ProcessedProofs::insert`]: the fingerprint is already recorded.
#[derive(Clone, Copy, Debug, PartialEq, Eq, Structural)]
pub struct AlreadyPresent;

/// Append-only set of processed proof fingerprints, one entry per completed
/// lock or unlock on this side of the bridge. Its well-formedness invariant
/// is the replay guarantee: no fingerprint is ever present twice.
#[derive(Clone)]
pub struct ProcessedProofs {
    pub proofs: Vec<[u8; 32]>,
}

impl ProcessedProofs {
    /// Some recorded fingerprint has exactly the bytes `d`.
    pub open spec fn spec_contains(self, d: Seq<u8>) -> bool {
        exists|i: int| 0 <= i < self.proofs@.len() && self.proofs@[i]@ == d
    }

    /// No fingerprint is recorded twice.
    pub open spec fn wf(self) -> bool {
        forall|i: int, j: int|
            0 <= i < j < self.proofs@.len() ==> self.proofs@[i]@ != self.proofs@[j]@
    }

    /// An empty store, as the bridge starts with.
    pub fn new() -> (r: Self)
        ensures
            r.proofs@.len() == 0,
            r.wf(),
    {
        ProcessedProofs { proofs: Vec::new() }
    }

    /// Membership check, mandatory before any new proof is accepted.
    pub fn contains(&self, d: &[u8; 32]) -> (r: bool)
        ensures
            r == self.spec_contains(d@),
    {
        let mut i: usize = 0;
        while i < self.proofs.len()
            invariant
                i <= self.proofs@.len(),
                forall|k: int| 0 <= k < i ==> self.proofs@[k]@ != d@,
            decreases self.proofs@.len() - i,
        {
            if bytes32_eq(&self.proofs[i], d) {
                return true;
            }
            i += 1;
        }
        false
    }

    /// Records a fingerprint, refusing one that is already present. The store
    /// only ever grows, and afterwards it always holds `d`.
    pub fn insert(&mut self, d: [u8; 32]) -> (r: Result<(), AlreadyPresent>)
        requires
            old(self).wf(),
        ensures
            final(self).wf(),
            r is Ok <==> !old(self).spec_contains(d@),
            r is Ok ==> final(self).proofs@ == old(self).proofs@.push(d),
            r is Err ==> *final(self) == *old(self),
            final(self).spec_contains(d@),
    {
        if self.contains(&d) {
            return Err(AlreadyPresent);
        }
        self.proofs.push(d);
        proof {
            let n = self.proofs@.len() - 1;
            assert(self.proofs@[n]@ == d@);
            assert forall|i: int, j: int|
                0 <= i < j < self.proofs@.len() implies self.proofs@[i]@ != self.proofs@[j]@ by {
                if j < n {
                    assert(old(self).proofs@[i]@ != old(self).proofs@[j]@);
                }
            }
        }
        Ok(())
    }

    /// How many fingerprints have been recorded.
    pub fn len(&self) -> (r: usize)
        ensures
            r == self.proofs@.len(),
    {
        self.proofs.len()
    }
}

} // verus!
