//! Data model of the light-client core.
//!
//! Times and digests are carried as plain 64-bit values: a consensus
//! timestamp is a tick count, a hash is the 64-bit digest a header hasher
//! produced. Cryptographic material (signatures) is represented by the
//! identities of the validators whose signatures a commit carries; checking
//! the signatures themselves is the concern of the capability interfaces in
//! [`crate::operations`].

use vstd::prelude::*;

verus! {

/// A block height: a monotonic counter, starting at 1.
pub type Height = u64;

/// A digest committing to a header or a validator set.
pub type HashValue = u64;

/// Voting power of a validator, or a sum of such powers.
pub type Power = u64;

/// A consensus timestamp or a duration, in ticks.
pub type Timestamp = u64;

/// A block header.
#[derive(Clone, Copy, Debug, PartialEq, Eq, Structural)]
pub struct Header {
    /// The height this header was proposed at.
    pub height: Height,
    /// The consensus time this header carries.
    pub bft_time: Timestamp,
    /// Commitment to the validator set that signs this header.
    pub validators_hash: HashValue,
    /// Commitment to the validator set of the next height.
    pub next_validators_hash: HashValue,
}

/// A validator: an identity empowered with some voting power.
#[derive(Clone, Copy, Debug, PartialEq, Eq, Structural)]
pub struct Validator {
    /// The validator's identity.
    pub id: u64,
    /// The validator's voting power.
    pub power: Power,
}

/// The set of validators empowered to sign at some height.
#[derive(Debug)]
pub struct ValidatorSet {
    /// Commitment digest over the members.
    pub hash: HashValue,
    /// The members, in order.
    pub validators: Vec<Validator>,
}

impl Clone for ValidatorSet {
    fn clone(&self) -> (r: Self)
        ensures
            r.hash == self.hash,
            r.validators@ == self.validators@,
    {
        let validators = self.validators.clone();
        proof {
            assert(validators@ =~= self.validators@);
        }
        ValidatorSet { hash: self.hash, validators }
    }
}

/// The aggregated proof that a quorum of validators signed a header.
#[derive(Debug)]
pub struct Commit {
    /// Digest of the header this commit claims to certify.
    pub header_hash: HashValue,
    /// Identities of the validators whose signatures this commit carries.
    pub signers: Vec<u64>,
}

impl Clone for Commit {
    fn clone(&self) -> (r: Self)
        ensures
            r.header_hash == self.header_hash,
            r.signers@ == self.signers@,
    {
        let signers = self.signers.clone();
        proof {
            assert(signers@ =~= self.signers@);
        }
        Commit { header_hash: self.header_hash, signers }
    }
}

/// A header paired with the commit that is claimed to certify it.
///
/// Whether the commit's digest actually matches the header is checked by the
/// verification rules, never assumed.
#[derive(Clone, Debug)]
pub struct SignedHeader {
    /// The header.
    pub header: Header,
    /// Its accompanying commit.
    pub commit: Commit,
}

/// The minimum fraction of total voting power that a commit must represent
/// for a transition to be trusted.
///
/// Comparisons cross-multiply, so no fractional rounding is involved: a
/// voting power `v` meets the threshold against a total `t` exactly when
/// `v * denominator > t * numerator`.
#[derive(Clone, Copy, Debug, PartialEq, Eq, Structural)]
pub struct TrustThreshold {
    /// Numerator of the fraction.
    pub numerator: u64,
    /// Denominator of the fraction.
    pub denominator: u64,
}

impl TrustThreshold {
    /// Whether the fraction is a valid operator configuration:
    /// `0 < numerator <= denominator`.
    pub open spec fn is_valid(&self) -> bool {
        0 < self.numerator <= self.denominator
    }

    /// Build a threshold, rejecting fractions outside
    /// `0 < numerator <= denominator`.
    pub fn new(numerator: u64, denominator: u64) -> (r: Option<TrustThreshold>)
        ensures
            r is Some <==> 0 < numerator <= denominator,
            r matches Some(t) ==> t == (TrustThreshold { numerator, denominator }),
    {
        if 0 < numerator && numerator <= denominator {
            Some(TrustThreshold { numerator, denominator })
        } else {
            None
        }
    }
}

/// The client's last-accepted anchor: a header together with the validator
/// set that signed it.
#[derive(Debug)]
pub struct TrustedState {
    /// The last trusted header.
    pub header: Header,
    /// The validator set that signed it.
    pub validators: ValidatorSet,
}

impl Clone for TrustedState {
    fn clone(&self) -> (r: Self)
        ensures
            r.header == self.header,
            r.validators.hash == self.validators.hash,
            r.validators.validators@ == self.validators.validators@,
    {
        TrustedState { header: self.header, validators: self.validators.clone() }
    }
}

/// The opaque failure of a commit-validation backend.
///
/// The rule set wraps such a failure without interpreting it; the code is
/// preserved for diagnostics only.
#[derive(Clone, Copy, Debug, PartialEq, Eq, Structural)]
pub struct CommitValidationError {
    /// A backend-specific code describing the failure.
    pub code: u64,
}

/// The failure of a voting-power computation, folded to `false` at the
/// predicate boundary by the rule set.
#[derive(Clone, Copy, Debug, PartialEq, Eq, Structural)]
pub enum PowerError {
    /// The sum of the relevant voting powers does not fit in 64 bits.
    Overflow,
}

/// A typed verification failure: one variant per rule, carrying the
/// offending values.
#[derive(Clone, Copy, Debug, PartialEq, Eq, Structural)]
pub enum VerificationError {
    /// The header's declared validator-set commitment does not match the
    /// supplied validator set.
    InvalidValidatorSet { header_validators_hash: HashValue, validators_hash: HashValue },
    /// The header's declared next-validator-set commitment does not match
    /// the supplied next validator set.
    InvalidNextValidatorSet { header_next_validators_hash: HashValue, next_validators_hash: HashValue },
    /// The commit's referenced header digest does not match the actual
    /// header.
    InvalidCommitValue { header_hash: HashValue, commit_hash: HashValue },
    /// The commit-validation backend rejected the commit; its own failure is
    /// wrapped, not interpreted.
    ImplementationSpecific { detail: CommitValidationError },
    /// The trusted header is too old relative to `now` and the trusting
    /// period.
    NotWithinTrustPeriod { expires_at: Timestamp, now: Timestamp },
    /// The header's timestamp is ahead of `now`.
    HeaderFromTheFuture { header_bft_time: Timestamp, now: Timestamp },
    /// The untrusted header's consensus time is not strictly later than the
    /// trusted one's.
    NonMonotonicBftTime { header_bft_time: Timestamp, trusted_header_bft_time: Timestamp },
    /// The untrusted header's height is not strictly greater than the
    /// trusted one's.
    NonIncreasingHeight { got: Height, expected: Height },
    /// A commit's voting power does not exceed the trust threshold.
    InsufficientVotingPower { total_power: Power, voting_power: Power },
    /// Threshold failure measured against the trusted validator set.
    InsufficientValidatorsOverlap { total_power: Power, signed_power: Power },
    /// Threshold failure measured against the new validator set.
    InvalidCommit { total_power: Power, signed_power: Power },
}

} // verus!
