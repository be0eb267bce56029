//! Capability interfaces the rule set depends on, with basic built-in
//! backends.
//!
//! The three capabilities — header hashing, commit validation and
//! voting-power calculation — are injected into the rule set rather than
//! hard-coded, so the rules are testable in isolation and pluggable with
//! different backends. Each capability pins its behaviour with a spec
//! function of its own, so a backend is deterministic by contract: the same
//! inputs always produce the same answer.

use vstd::prelude::*;
use crate::types::Commit;
use crate::types::CommitValidationError;
use crate::types::HashValue;
use crate::types::Header;
use crate::types::Power;
use crate::types::PowerError;
use crate::types::Validator;
use crate::types::ValidatorSet;

verus! {

/// Hashes headers into commitment digests.
pub trait HeaderHasher {
    /// The digest this hasher computes: a pure function of the header.
    spec fn hash_spec(&self, header: Header) -> HashValue;

    /// Compute the digest of `header`.
    fn hash(&self, header: &Header) -> (r: HashValue)
        ensures
            r == self.hash_spec(*header),
    ;
}

/// Checks that a commit's signatures are individually valid and attributable
/// to members of a validator set.
pub trait CommitValidator {
    /// The verdict this backend reaches: a pure function of commit and set.
    spec fn validate_spec(&self, commit: Commit, validators: ValidatorSet) -> Result<
        (),
        CommitValidationError,
    >;

    /// Validate `commit` against `validators`; the failure reason is opaque
    /// to the rule set.
    fn validate(&self, commit: &Commit, validators: &ValidatorSet) -> (r: Result<
        (),
        CommitValidationError,
    >)
        ensures
            r == self.validate_spec(*commit, *validators),
    ;
}

/// Computes total and commit-attested voting power over a validator set.
pub trait VotingPowerCalculator {
    /// The total power this backend reports for a validator set.
    spec fn total_power_spec(&self, validators: ValidatorSet) -> Result<Power, PowerError>;

    /// The power this backend attributes to a commit within a validator set.
    spec fn voting_power_spec(&self, commit: Commit, validators: ValidatorSet) -> Result<
        Power,
        PowerError,
    >;

    /// Compute the total voting power of `validators`.
    fn total_power_of(&self, validators: &ValidatorSet) -> (r: Result<Power, PowerError>)
        ensures
            r == self.total_power_spec(*validators),
    ;

    /// Compute the voting power represented in `commit` by valid,
    /// attributable signatures of members of `validators`.
    fn voting_power_in(&self, commit: &Commit, validators: &ValidatorSet) -> (r: Result<
        Power,
        PowerError,
    >)
        ensures
            r == self.voting_power_spec(*commit, *validators),
    ;
}

/// Seed of the folding digest.
pub const DIGEST_SEED: u64 = 0xcbf29ce484222325;

/// Multiplier of the folding digest.
pub const DIGEST_PRIME: u64 = 0x100000001b3;

/// One folding step of the digest: multiply by the prime and add the next
/// word, modulo two to the sixty-fourth.
pub open spec fn digest_step(acc: u64, x: u64) -> u64 {
    vstd::wrapping::u64_specs::wrapping_add(
        vstd::wrapping::u64_specs::wrapping_mul(acc, DIGEST_PRIME),
        x,
    )
}

/// The digest of a header: its four fields folded in order.
pub open spec fn header_digest(h: Header) -> u64 {
    digest_step(
        digest_step(digest_step(digest_step(DIGEST_SEED, h.height), h.bft_time), h.validators_hash),
        h.next_validators_hash,
    )
}

/// The digest of a validator sequence: identity and power of each member
/// folded in order.
pub open spec fn validators_digest(s: Seq<Validator>) -> u64
    decreases s.len(),
{
    if s.len() == 0 {
        DIGEST_SEED
    } else {
        digest_step(digest_step(validators_digest(s.drop_last()), s.last().id), s.last().power)
    }
}

/// Compute the digest of a validator sequence.
pub fn compute_validators_digest(validators: &Vec<Validator>) -> (r: u64)
    ensures
        r == validators_digest(validators@),
{
    let mut acc: u64 = DIGEST_SEED;
    let mut i: usize = 0;
    while i < validators.len()
        invariant
            i <= validators@.len(),
            acc == validators_digest(validators@.take(i as int)),
        decreases validators@.len() - i,
    {
        let v = validators[i];
        acc = acc.wrapping_mul(DIGEST_PRIME).wrapping_add(v.id);
        acc = acc.wrapping_mul(DIGEST_PRIME).wrapping_add(v.power);
        i = i + 1;
        proof {
            let taken = validators@.take(i as int);
            assert(taken.drop_last() =~= validators@.take(i - 1));
            assert(taken.last() == validators@[i - 1]);
        }
    }
    proof {
        assert(validators@.take(validators@.len() as int) =~= validators@);
    }
    acc
}

impl ValidatorSet {
    /// Build a validator set whose commitment digest is computed from the
    /// members, so that the digest is a pure function of the member
    /// sequence.
    pub fn new(validators: Vec<Validator>) -> (r: ValidatorSet)
        ensures
            r.hash == validators_digest(validators@),
            r.validators@ == validators@,
    {
        let hash = compute_validators_digest(&validators);
        ValidatorSet { hash, validators }
    }
}

/// A header hasher folding the header's fields into a 64-bit digest.
#[derive(Clone, Copy, Debug)]
pub struct BasicHasher;

impl HeaderHasher for BasicHasher {
    open spec fn hash_spec(&self, header: Header) -> HashValue {
        header_digest(header)
    }

    fn hash(&self, header: &Header) -> (r: HashValue) {
        let mut acc: u64 = DIGEST_SEED;
        acc = acc.wrapping_mul(DIGEST_PRIME).wrapping_add(header.height);
        acc = acc.wrapping_mul(DIGEST_PRIME).wrapping_add(header.bft_time);
        acc = acc.wrapping_mul(DIGEST_PRIME).wrapping_add(header.validators_hash);
        acc = acc.wrapping_mul(DIGEST_PRIME).wrapping_add(header.next_validators_hash);
        acc
    }
}

/// Whether some member of `vals` carries the identity `id`.
pub open spec fn has_member(vals: Seq<Validator>, id: u64) -> bool {
    exists|j: int| 0 <= j < vals.len() && vals[j].id == id
}

/// Whether `ids` lists the identity `id`.
pub open spec fn lists_id(ids: Seq<u64>, id: u64) -> bool {
    exists|j: int| 0 <= j < ids.len() && ids[j] == id
}

/// Whether every signer of `commit` is a member of `validators`.
pub open spec fn signers_all_members(commit: Commit, validators: ValidatorSet) -> bool {
    forall|i: int|
        0 <= i < commit.signers@.len() ==> has_member(validators.validators@, commit.signers@[i])
}

/// The failure code a [`BasicCommitValidator`] reports for a signer that is
/// not a member of the validator set.
pub const UNKNOWN_SIGNER: u64 = 1;

/// Check whether some member of `validators` carries the identity `id`.
pub fn contains_member(validators: &Vec<Validator>, id: u64) -> (r: bool)
    ensures
        r == has_member(validators@, id),
{
    let mut j: usize = 0;
    while j < validators.len()
        invariant
            j <= validators@.len(),
            forall|k: int| 0 <= k < j ==> validators@[k].id != id,
        decreases validators@.len() - j,
    {
        if validators[j].id == id {
            return true;
        }
        j = j + 1;
    }
    false
}

/// A commit validator accepting a commit exactly when every signer is a
/// member of the validator set.
#[derive(Clone, Copy, Debug)]
pub struct BasicCommitValidator;

impl CommitValidator for BasicCommitValidator {
    open spec fn validate_spec(&self, commit: Commit, validators: ValidatorSet) -> Result<
        (),
        CommitValidationError,
    > {
        if signers_all_members(commit, validators) {
            Ok(())
        } else {
            Err(CommitValidationError { code: UNKNOWN_SIGNER })
        }
    }

    fn validate(&self, commit: &Commit, validators: &ValidatorSet) -> (r: Result<
        (),
        CommitValidationError,
    >) {
        let mut i: usize = 0;
        while i < commit.signers.len()
            invariant
                i <= commit.signers@.len(),
                forall|k: int| 0 <= k < i ==> has_member(validators.validators@, commit.signers@[k]),
            decreases commit.signers@.len() - i,
        {
            if !contains_member(&validators.validators, commit.signers[i]) {
                return Err(CommitValidationError { code: UNKNOWN_SIGNER });
            }
            i = i + 1;
        }
        Ok(())
    }
}

/// The sum of the voting powers of all members, as an unbounded integer.
pub open spec fn sum_powers(s: Seq<Validator>) -> int
    decreases s.len(),
{
    if s.len() == 0 {
        0
    } else {
        sum_powers(s.drop_last()) + s.last().power
    }
}

/// The sum of the voting powers of the members whose identity is listed in
/// `signers`, as an unbounded integer.
pub open spec fn sum_signed_powers(s: Seq<Validator>, signers: Seq<u64>) -> int
    decreases s.len(),
{
    if s.len() == 0 {
        0
    } else {
        sum_signed_powers(s.drop_last(), signers) + if lists_id(signers, s.last().id) {
            s.last().power as int
        } else {
            0
        }
    }
}

/// A partial sum of powers never exceeds the whole sum.
proof fn lemma_sum_powers_prefix(s: Seq<Validator>, i: int)
    requires
        0 <= i <= s.len(),
    ensures
        sum_powers(s.take(i)) <= sum_powers(s),
    decreases s.len() - i,
{
    if i < s.len() {
        let t = s.take(i + 1);
        assert(t.drop_last() =~= s.take(i));
        lemma_sum_powers_prefix(s, i + 1);
    } else {
        assert(s.take(i) =~= s);
    }
}

/// A partial sum of signed powers never exceeds the whole sum.
proof fn lemma_sum_signed_powers_prefix(s: Seq<Validator>, signers: Seq<u64>, i: int)
    requires
        0 <= i <= s.len(),
    ensures
        sum_signed_powers(s.take(i), signers) <= sum_signed_powers(s, signers),
    decreases s.len() - i,
{
    if i < s.len() {
        let t = s.take(i + 1);
        assert(t.drop_last() =~= s.take(i));
        lemma_sum_signed_powers_prefix(s, signers, i + 1);
    } else {
        assert(s.take(i) =~= s);
    }
}

/// A voting-power calculator that sums the members' powers, reporting an
/// overflow instead of wrapping when a sum does not fit in 64 bits.
#[derive(Clone, Copy, Debug)]
pub struct BasicCalculator;

impl VotingPowerCalculator for BasicCalculator {
    open spec fn total_power_spec(&self, validators: ValidatorSet) -> Result<Power, PowerError> {
        if sum_powers(validators.validators@) <= u64::MAX {
            Ok(sum_powers(validators.validators@) as u64)
        } else {
            Err(PowerError::Overflow)
        }
    }

    open spec fn voting_power_spec(&self, commit: Commit, validators: ValidatorSet) -> Result<
        Power,
        PowerError,
    > {
        if sum_signed_powers(validators.validators@, commit.signers@) <= u64::MAX {
            Ok(sum_signed_powers(validators.validators@, commit.signers@) as u64)
        } else {
            Err(PowerError::Overflow)
        }
    }

    fn total_power_of(&self, validators: &ValidatorSet) -> (r: Result<Power, PowerError>) {
        let vals = &validators.validators;
        let mut acc: u64 = 0;
        let mut i: usize = 0;
        while i < vals.len()
            invariant
                vals == &validators.validators,
                i <= vals@.len(),
                acc == sum_powers(vals@.take(i as int)),
            decreases vals@.len() - i,
        {
            proof {
                let t = vals@.take(i + 1);
                assert(t.drop_last() =~= vals@.take(i as int));
                assert(t.last() == vals@[i as int]);
                assert(sum_powers(t) == acc + vals@[i as int].power);
                lemma_sum_powers_prefix(vals@, i + 1);
            }
            acc = match acc.checked_add(vals[i].power) {
                Some(a) => a,
                None => {
                    proof {
                        assert(acc + vals@[i as int].power > u64::MAX);
                        assert(sum_powers(vals@.take(i + 1)) > u64::MAX);
                        assert(sum_powers(vals@) > u64::MAX);
                    }
                    return Err(PowerError::Overflow);
                },
            };
            i = i + 1;
        }
        proof {
            assert(vals@.take(vals@.len() as int) =~= vals@);
        }
        Ok(acc)
    }

    fn voting_power_in(&self, commit: &Commit, validators: &ValidatorSet) -> (r: Result<
        Power,
        PowerError,
    >) {
        let vals = &validators.validators;
        let mut acc: u64 = 0;
        let mut i: usize = 0;
        while i < vals.len()
            invariant
                vals == &validators.validators,
                i <= vals@.len(),
                acc == sum_signed_powers(vals@.take(i as int), commit.signers@),
            decreases vals@.len() - i,
        {
            proof {
                let t = vals@.take(i + 1);
                assert(t.drop_last() =~= vals@.take(i as int));
                assert(t.last() == vals@[i as int]);
                assert(sum_signed_powers(t, commit.signers@) == acc + if lists_id(
                    commit.signers@,
                    vals@[i as int].id,
                ) {
                    vals@[i as int].power as int
                } else {
                    0
                });
                lemma_sum_signed_powers_prefix(vals@, commit.signers@, i + 1);
            }
            if contains_id(&commit.signers, vals[i].id) {
                acc = match acc.checked_add(vals[i].power) {
                    Some(a) => a,
                    None => {
                        return Err(PowerError::Overflow);
                    },
                };
            }
            i = i + 1;
        }
        proof {
            assert(vals@.take(vals@.len() as int) =~= vals@);
        }
        Ok(acc)
    }
}

/// Check whether `ids` lists the identity `id`.
pub fn contains_id(ids: &Vec<u64>, id: u64) -> (r: bool)
    ensures
        r == lists_id(ids@, id),
{
    let mut j: usize = 0;
    while j < ids.len()
        invariant
            j <= ids@.len(),
            forall|k: int| 0 <= k < j ==> ids@[k] != id,
        decreases ids@.len() - j,
    {
        if ids[j] == id {
            return true;
        }
        j = j + 1;
    }
    false
}

} // verus!
