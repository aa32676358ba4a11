use vstd::prelude::*;
use crate::crypto::{sig_verifies, verify_dilithium};

verus! {

/// The views of a sequence of byte vectors.
pub open spec fn seq_views(s: Seq<Vec<u8>>) -> Seq<Seq<u8>> {
    s.map_values(|v: Vec<u8>| v@)
}

/// Index of the first validator key that verifies `sig` over `msg`. First
/// match wins: a signature is credited to at most one validator.
pub open spec fn first_match(sig: Seq<u8>, msg: Seq<u8>, validators: Seq<Seq<u8>>) -> Option<int>
    decreases validators.len(),
{
    if validators.len() == 0 {
        None
    } else if sig_verifies(sig, msg, validators[0]) {
        Some(0int)
    } else {
        match first_match(sig, msg, validators.skip(1)) {
            Some(j) => Some(j + 1),
            None => None,
        }
    }
}

/// Where a signature is credited, that validator's key verifies it, and where
/// none is, no validator's key does.
pub proof fn lemma_first_match_sound(sig: Seq<u8>, msg: Seq<u8>, validators: Seq<Seq<u8>>)
    ensures
        match first_match(sig, msg, validators) {
            Some(j) => 0 <= j < validators.len() && sig_verifies(sig, msg, validators[j]),
            None => forall|k: int| 0 <= k < validators.len() ==> !sig_verifies(sig, msg, validators[k]),
        },
    decreases validators.len(),
{
    if validators.len() == 0 {
    } else if sig_verifies(sig, msg, validators[0]) {
    } else {
        let rest = validators.skip(1);
        lemma_first_match_sound(sig, msg, rest);
        match first_match(sig, msg, rest) {
            Some(j) => {
                assert(rest[j] == validators[j + 1]);
            },
            None => {
                assert forall|k: int| 0 <= k < validators.len()
                    implies !sig_verifies(sig, msg, validators[k]) by {
                    if k > 0 {
                        assert(rest[k - 1] == validators[k]);
                    }
                }
            },
        }
    }
}

/// The credited validator is exactly the first whose key verifies.
pub proof fn lemma_first_match_is(sig: Seq<u8>, msg: Seq<u8>, validators: Seq<Seq<u8>>, j: int)
    requires
        0 <= j < validators.len(),
        sig_verifies(sig, msg, validators[j]),
        forall|k: int| 0 <= k < j ==> !sig_verifies(sig, msg, validators[k]),
    ensures
        first_match(sig, msg, validators) == Some(j),
    decreases j,
{
    if j == 0 {
    } else {
        assert(!sig_verifies(sig, msg, validators[0]));
        assert(forall|k: int|
            0 <= k < validators.skip(1).len() ==> validators.skip(1)[k] == validators[k + 1]);
        lemma_first_match_is(sig, msg, validators.skip(1), j - 1);
    }
}

/// Validator indices credited over a whole sequence of signatures: each
/// signature credits its first matching validator, and crediting the same
/// validator again adds nothing.
pub open spec fn credited_set(sigs: Seq<Seq<u8>>, msg: Seq<u8>, validators: Seq<Seq<u8>>) -> Set<int>
    decreases sigs.len(),
{
    if sigs.len() == 0 {
        Set::empty()
    } else {
        let prev = credited_set(sigs.drop_last(), msg, validators);
        match first_match(sigs.last(), msg, validators) {
            Some(j) => prev.insert(j),
            None => prev,
        }
    }
}

/// The credited set is finite and holds only validator indices.
pub proof fn lemma_credited_set_bounds(sigs: Seq<Seq<u8>>, msg: Seq<u8>, validators: Seq<Seq<u8>>)
    ensures
        credited_set(sigs, msg, validators).finite(),
        forall|j: int| credited_set(sigs, msg, validators).contains(j) ==> 0 <= j < validators.len(),
    decreases sigs.len(),
{
    if sigs.len() == 0 {
    } else {
        lemma_credited_set_bounds(sigs.drop_last(), msg, validators);
        lemma_first_match_sound(sigs.last(), msg, validators);
    }
}

/// The quorum decision: at least `quorum` distinct validators are credited.
pub open spec fn quorum_met(sigs: Seq<Seq<u8>>, msg: Seq<u8>, validators: Seq<Seq<u8>>, quorum: usize) -> bool {
    credited_set(sigs, msg, validators).len() >= quorum
}

/// Scans the validator set for the first key that verifies `sig` over
/// `message`.
pub fn first_matching_validator(sig: &Vec<u8>, message: &[u8; 32], validators: &Vec<Vec<u8>>) -> (r: Option<usize>)
    ensures
        match r {
            Some(j) => j < validators@.len()
                && first_match(sig@, message@, seq_views(validators@)) == Some(j as int),
            None => first_match(sig@, message@, seq_views(validators@)) is None,
        },
{
    let ghost vs = seq_views(validators@);
    let mut j: usize = 0;
    while j < validators.len()
        invariant
            j <= validators@.len(),
            vs == seq_views(validators@),
            vs.len() == validators@.len(),
            forall|k: int| 0 <= k < j ==> !sig_verifies(sig@, message@, vs[k]),
        decreases validators@.len() - j,
    {
        proof {
            assert(vs[j as int] == validators@[j as int]@);
        }
        if verify_dilithium(sig, message, &validators[j]) {
            proof {
                lemma_first_match_is(sig@, message@, vs, j as int);
            }
            return Some(j);
        }
        j += 1;
    }
    proof {
        lemma_first_match_sound(sig@, message@, vs);
    }
    None
}

/// Decides whether the supplied signatures carry at least `quorum` distinct
/// validators' approvals of `message`. Redundant signatures for the same
/// validator count once; signatures no validator key verifies count nothing.
pub fn verify_threshold(
    signatures: &Vec<Vec<u8>>,
    message: &[u8; 32],
    validators: &Vec<Vec<u8>>,
    quorum: usize,
) -> (r: bool)
    ensures
        r == quorum_met(seq_views(signatures@), message@, seq_views(validators@), quorum),
{
    let ghost sgs = seq_views(signatures@);
    let ghost vs = seq_views(validators@);
    let n = validators.len();
    let mut counted: Vec<bool> = Vec::new();
    let mut t: usize = 0;
    while t < n
        invariant
            t <= n,
            counted@.len() == t,
            forall|k: int| 0 <= k < t ==> counted@[k] == false,
        decreases n - t,
    {
        counted.push(false);
        t += 1;
    }

    let mut count: usize = 0;
    let mut i: usize = 0;
    proof {
        assert(sgs.take(0) =~= Seq::<Seq<u8>>::empty());
    }
    while i < signatures.len()
        invariant
            i <= signatures@.len(),
            sgs == seq_views(signatures@),
            vs == seq_views(validators@),
            sgs.len() == signatures@.len(),
            n == validators@.len(),
            vs.len() == n,
            counted@.len() == n,
            count <= i,
            credited_set(sgs.take(i as int), message@, vs).finite(),
            forall|j: int| #[trigger] credited_set(sgs.take(i as int), message@, vs).contains(j)
                ==> 0 <= j < n,
            forall|j: int| 0 <= j < n
                ==> counted@[j] == credited_set(sgs.take(i as int), message@, vs).contains(j),
            count == credited_set(sgs.take(i as int), message@, vs).len(),
        decreases signatures@.len() - i,
    {
        let ghost prev = credited_set(sgs.take(i as int), message@, vs);
        let m = first_matching_validator(&signatures[i], message, validators);
        proof {
            assert(sgs[i as int] == signatures@[i as int]@);
            assert(sgs.take(i + 1).drop_last() =~= sgs.take(i as int));
            assert(sgs.take(i + 1).last() == sgs[i as int]);
        }
        match m {
            Some(j) => {
                proof {
                    assert(credited_set(sgs.take(i + 1), message@, vs) == prev.insert(j as int));
                }
                if !counted[j] {
                    counted[j] = true;
                    count += 1;
                } else {
                    proof {
                        assert(prev.insert(j as int) =~= prev);
                    }
                }
            },
            None => {
                proof {
                    assert(credited_set(sgs.take(i + 1), message@, vs) == prev);
                }
            },
        }
        i += 1;
    }
    proof {
        assert(sgs.take(sgs.len() as int) =~= sgs);
    }
    count >= quorum
}

} // verus!
