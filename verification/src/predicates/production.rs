//! The production rule implementations: each rule as a direct check that
//! returns `Ok` or the rule's typed failure, exactly as the rule's verdict
//! spec function states it.

use vstd::prelude::*;
use crate::operations::CommitValidator;
use crate::operations::HeaderHasher;
use crate::operations::VotingPowerCalculator;
use crate::predicates::check_header_matches_commit;
use crate::predicates::check_monotonic_bft_time;
use crate::predicates::check_monotonic_height;
use crate::predicates::check_next_validators_match;
use crate::predicates::check_sufficient_signers_overlap;
use crate::predicates::check_sufficient_validators_overlap;
use crate::predicates::check_valid_commit;
use crate::predicates::check_valid_next_validator_set;
use crate::predicates::check_validator_sets_match;
use crate::predicates::check_within_trust_period;
use crate::predicates::_has_sufficient_validators_overlap;
use crate::predicates::_has_sufficient_signers_overlap;
use crate::predicates::_has_sufficient_voting_power;
use crate::predicates::_invalid_next_validator_set;
use crate::predicates::_is_monotonic_bft_time;
use crate::predicates::_is_monotonic_height;
use crate::predicates::_is_within_trust_period;
use crate::predicates::_next_validators_match;
use crate::predicates::_validator_sets_match;
use crate::predicates::observed_powers;
use crate::predicates::sufficient_voting_power_holds;
use crate::types::Commit;
use crate::types::Header;
use crate::types::SignedHeader;
use crate::types::Timestamp;
use crate::types::TrustThreshold;
use crate::types::VerificationError;
use crate::types::ValidatorSet;

verus! {

/// The production implementation of the verification rules.
#[derive(Clone, Copy, Debug)]
pub struct ProductionPredicates;

impl ProductionPredicates {
    /// Rule 1: the header's validator-set commitment matches the supplied
    /// set.
    pub fn validator_sets_match(
        &self,
        signed_header: &SignedHeader,
        validators: &ValidatorSet,
    ) -> (r: Result<(), VerificationError>)
        ensures
            r == check_validator_sets_match(*signed_header, *validators),
    {
        if _validator_sets_match(signed_header, validators) {
            Ok(())
        } else {
            Err(VerificationError::InvalidValidatorSet {
                header_validators_hash: signed_header.header.validators_hash,
                validators_hash: validators.hash,
            })
        }
    }

    /// Rule 2: the header's next-validator-set commitment matches the
    /// supplied next set.
    pub fn next_validators_match(
        &self,
        signed_header: &SignedHeader,
        next_validators: &ValidatorSet,
    ) -> (r: Result<(), VerificationError>)
        ensures
            r == check_next_validators_match(*signed_header, *next_validators),
    {
        if _next_validators_match(signed_header, next_validators) {
            Ok(())
        } else {
            Err(VerificationError::InvalidNextValidatorSet {
                header_next_validators_hash: signed_header.header.next_validators_hash,
                next_validators_hash: next_validators.hash,
            })
        }
    }

    /// Rule 3: the header's digest matches the digest the commit claims to
    /// certify.
    pub fn header_matches_commit<H: HeaderHasher>(
        &self,
        header: &Header,
        commit: &Commit,
        header_hasher: &H,
    ) -> (r: Result<(), VerificationError>)
        ensures
            r == check_header_matches_commit(*header_hasher, *header, *commit),
    {
        let header_hash = header_hasher.hash(header);
        if header_hash == commit.header_hash {
            Ok(())
        } else {
            Err(VerificationError::InvalidCommitValue {
                header_hash,
                commit_hash: commit.header_hash,
            })
        }
    }

    /// Rule 4: the commit-validation backend accepts the commit; its own
    /// failure is wrapped, not interpreted.
    pub fn valid_commit<V: CommitValidator>(
        &self,
        commit: &Commit,
        validators: &ValidatorSet,
        validator: &V,
    ) -> (r: Result<(), VerificationError>)
        ensures
            r == check_valid_commit(*validator, *commit, *validators),
    {
        match validator.validate(commit, validators) {
            Ok(()) => Ok(()),
            Err(detail) => Err(VerificationError::ImplementationSpecific { detail }),
        }
    }

    /// The trust-period rule, under the stricter policy: a header whose time
    /// is ahead of `now` is reported as from the future, before the ordinary
    /// expiry check.
    pub fn is_within_trust_period(
        &self,
        header: &Header,
        trusting_period: Timestamp,
        now: Timestamp,
    ) -> (r: Result<(), VerificationError>)
        ensures
            r == check_within_trust_period(*header, trusting_period, now),
    {
        if header.bft_time > now {
            return Err(VerificationError::HeaderFromTheFuture {
                header_bft_time: header.bft_time,
                now,
            });
        }
        if _is_within_trust_period(header, trusting_period, now) {
            Ok(())
        } else {
            let expires_at = match header.bft_time.checked_add(trusting_period) {
                Some(at) => at,
                None => u64::MAX,
            };
            Err(VerificationError::NotWithinTrustPeriod { expires_at, now })
        }
    }

    /// Rule 5: the untrusted header's consensus time is strictly later than
    /// the trusted header's.
    pub fn is_monotonic_bft_time(
        &self,
        untrusted_header: &Header,
        trusted_header: &Header,
    ) -> (r: Result<(), VerificationError>)
        ensures
            r == check_monotonic_bft_time(*untrusted_header, *trusted_header),
    {
        if _is_monotonic_bft_time(untrusted_header, trusted_header) {
            Ok(())
        } else {
            Err(VerificationError::NonMonotonicBftTime {
                header_bft_time: untrusted_header.bft_time,
                trusted_header_bft_time: trusted_header.bft_time,
            })
        }
    }

    /// Rule 6: the untrusted header's height is strictly greater than the
    /// trusted header's; the failure reports the expected height, the
    /// trusted one plus one.
    pub fn is_monotonic_height(
        &self,
        untrusted_header: &Header,
        trusted_header: &Header,
    ) -> (r: Result<(), VerificationError>)
        ensures
            r == check_monotonic_height(*untrusted_header, *trusted_header),
    {
        if _is_monotonic_height(untrusted_header, trusted_header) {
            Ok(())
        } else {
            let expected = if trusted_header.height < u64::MAX {
                trusted_header.height + 1
            } else {
                u64::MAX
            };
            Err(VerificationError::NonIncreasingHeight {
                got: untrusted_header.height,
                expected,
            })
        }
    }

    /// The threshold test behind the two overlap rules: both power
    /// calculations must succeed and the commit's power must strictly exceed
    /// the threshold fraction of the total.
    pub fn has_sufficient_voting_power<C: VotingPowerCalculator>(
        &self,
        commit: &Commit,
        validators: &ValidatorSet,
        trust_threshold: &TrustThreshold,
        calculator: &C,
    ) -> (r: Result<(), VerificationError>)
        ensures
            r is Ok <==> sufficient_voting_power_holds(
                *calculator,
                *commit,
                *validators,
                *trust_threshold,
            ),
            r matches Err(e) ==> e == crate::predicates::sufficient_voting_power_failure(
                *calculator,
                *commit,
                *validators,
            ),
    {
        if _has_sufficient_voting_power(commit, validators, trust_threshold, calculator) {
            Ok(())
        } else {
            let (total_power, voting_power) = observed_powers(commit, validators, calculator);
            Err(VerificationError::InsufficientVotingPower { total_power, voting_power })
        }
    }

    /// Rule 8: the threshold test measured against the trusted validator
    /// set.
    pub fn has_sufficient_validators_overlap<C: VotingPowerCalculator>(
        &self,
        untrusted_commit: &Commit,
        trusted_validators: &ValidatorSet,
        trust_threshold: &TrustThreshold,
        calculator: &C,
    ) -> (r: Result<(), VerificationError>)
        ensures
            r == check_sufficient_validators_overlap(
                *calculator,
                *untrusted_commit,
                *trusted_validators,
                *trust_threshold,
            ),
    {
        if _has_sufficient_validators_overlap(
            untrusted_commit,
            trusted_validators,
            trust_threshold,
            calculator,
        ) {
            Ok(())
        } else {
            let (total_power, signed_power) = observed_powers(
                untrusted_commit,
                trusted_validators,
                calculator,
            );
            Err(VerificationError::InsufficientValidatorsOverlap { total_power, signed_power })
        }
    }

    /// Rule 9: the threshold test measured against the new validator set.
    pub fn has_sufficient_signers_overlap<C: VotingPowerCalculator>(
        &self,
        untrusted_commit: &Commit,
        untrusted_validators: &ValidatorSet,
        trust_threshold: &TrustThreshold,
        calculator: &C,
    ) -> (r: Result<(), VerificationError>)
        ensures
            r == check_sufficient_signers_overlap(
                *calculator,
                *untrusted_commit,
                *untrusted_validators,
                *trust_threshold,
            ),
    {
        if _has_sufficient_signers_overlap(
            untrusted_commit,
            untrusted_validators,
            trust_threshold,
            calculator,
        ) {
            Ok(())
        } else {
            let (total_power, signed_power) = observed_powers(
                untrusted_commit,
                untrusted_validators,
                calculator,
            );
            Err(VerificationError::InvalidCommit { total_power, signed_power })
        }
    }

    /// Rule 7: the untrusted header's next-validator-set commitment equals
    /// the hash of the supplied next validator set.
    pub fn valid_next_validator_set(
        &self,
        untrusted_sh: &SignedHeader,
        untrusted_next_vals: &ValidatorSet,
    ) -> (r: Result<(), VerificationError>)
        ensures
            r == check_valid_next_validator_set(*untrusted_sh, *untrusted_next_vals),
    {
        if _invalid_next_validator_set(untrusted_sh, untrusted_next_vals) {
            Err(VerificationError::InvalidNextValidatorSet {
                header_next_validators_hash: untrusted_sh.header.next_validators_hash,
                next_validators_hash: untrusted_next_vals.hash,
            })
        } else {
            Ok(())
        }
    }
}

} // verus!
