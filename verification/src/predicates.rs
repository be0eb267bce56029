//! The verification rule set: the named checks a light client must pass
//! before advancing trust to a new header.
//!
//! Each rule is given three ways: a spec function pinning its condition and
//! its failure, a boolean check (the functions prefixed with an underscore),
//! and a constructor producing a saturated assertion from the predicate
//! algebra. [`verify_pred`] composes nine rule assertions into the single
//! fail-fast conjunction whose evaluation order is part of the protocol's
//! failure-reporting contract.

pub mod production;

use vstd::prelude::*;
use crate::operations::CommitValidator;
use crate::operations::HeaderHasher;
use crate::operations::VotingPowerCalculator;
use crate::pred::AndPredicate;
use crate::pred::Assert;
use crate::pred::Assertion;
use crate::pred::ConstPredicate;
use crate::pred::NamedPredicate;
use crate::pred::Predicate;
use crate::pred::Pred;
use crate::pred::PredicateExt;
use crate::pred::always;
use crate::types::Commit;
use crate::types::Header;
use crate::types::Power;
use crate::types::PowerError;
use crate::types::SignedHeader;
use crate::types::Timestamp;
use crate::types::TrustThreshold;
use crate::types::VerificationError;
use crate::types::ValidatorSet;

verus! {

/// The saturated assertion a rule constructor produces.
pub type RulePred = Assert<NamedPredicate<ConstPredicate>, VerificationError>;

/// Rule: the signed header's declared validator-set commitment matches the
/// supplied validator set.
pub open spec fn validator_sets_match_holds(
    signed_header: SignedHeader,
    validators: ValidatorSet,
) -> bool {
    signed_header.header.validators_hash == validators.hash
}

/// The failure reported when [`validator_sets_match_holds`] does not hold.
pub open spec fn validator_sets_match_failure(
    signed_header: SignedHeader,
    validators: ValidatorSet,
) -> VerificationError {
    VerificationError::InvalidValidatorSet {
        header_validators_hash: signed_header.header.validators_hash,
        validators_hash: validators.hash,
    }
}

/// Whether the signed header's declared validator-set commitment matches the
/// supplied validator set.
pub fn _validator_sets_match(signed_header: &SignedHeader, validators: &ValidatorSet) -> (r: bool)
    ensures
        r == validator_sets_match_holds(*signed_header, *validators),
{
    signed_header.header.validators_hash == validators.hash
}

/// Build the `validator_sets_match` rule as a saturated assertion.
pub fn validator_sets_match(signed_header: &SignedHeader, validators: &ValidatorSet) -> (r:
    RulePred)
    ensures
        r.assert_wf(),
        r.sat() == validator_sets_match_holds(*signed_header, *validators),
        r.failure() == validator_sets_match_failure(*signed_header, *validators),
{
    let holds = _validator_sets_match(signed_header, validators);
    let failure = VerificationError::InvalidValidatorSet {
        header_validators_hash: signed_header.header.validators_hash,
        validators_hash: validators.hash,
    };
    always(holds).named("validator_sets_match".to_string()).to_assert(
        (|p: &NamedPredicate<ConstPredicate>| -> (e: VerificationError)
            ensures
                e == failure,
            { failure }),
    )
}

/// Rule: the signed header's declared next-validator-set commitment matches
/// the supplied next validator set.
pub open spec fn next_validators_match_holds(
    signed_header: SignedHeader,
    next_validators: ValidatorSet,
) -> bool {
    signed_header.header.next_validators_hash == next_validators.hash
}

/// The failure reported when [`next_validators_match_holds`] does not hold.
pub open spec fn next_validators_match_failure(
    signed_header: SignedHeader,
    next_validators: ValidatorSet,
) -> VerificationError {
    VerificationError::InvalidNextValidatorSet {
        header_next_validators_hash: signed_header.header.next_validators_hash,
        next_validators_hash: next_validators.hash,
    }
}

/// Whether the signed header's declared next-validator-set commitment
/// matches the supplied next validator set.
pub fn _next_validators_match(signed_header: &SignedHeader, next_validators: &ValidatorSet) -> (r:
    bool)
    ensures
        r == next_validators_match_holds(*signed_header, *next_validators),
{
    signed_header.header.next_validators_hash == next_validators.hash
}

/// Build the `next_validators_match` rule as a saturated assertion.
pub fn next_validators_match(signed_header: &SignedHeader, next_validators: &ValidatorSet) -> (r:
    RulePred)
    ensures
        r.assert_wf(),
        r.sat() == next_validators_match_holds(*signed_header, *next_validators),
        r.failure() == next_validators_match_failure(*signed_header, *next_validators),
{
    let holds = _next_validators_match(signed_header, next_validators);
    let failure = VerificationError::InvalidNextValidatorSet {
        header_next_validators_hash: signed_header.header.next_validators_hash,
        next_validators_hash: next_validators.hash,
    };
    always(holds).named("next_validators_match".to_string()).to_assert(
        (|p: &NamedPredicate<ConstPredicate>| -> (e: VerificationError)
            ensures
                e == failure,
            { failure }),
    )
}

/// Rule: the header's digest matches the digest the commit claims to
/// certify.
pub open spec fn header_matches_commit_holds<H: HeaderHasher>(
    header_hasher: H,
    header: Header,
    commit: Commit,
) -> bool {
    header_hasher.hash_spec(header) == commit.header_hash
}

/// The failure reported when [`header_matches_commit_holds`] does not hold.
pub open spec fn header_matches_commit_failure<H: HeaderHasher>(
    header_hasher: H,
    header: Header,
    commit: Commit,
) -> VerificationError {
    VerificationError::InvalidCommitValue {
        header_hash: header_hasher.hash_spec(header),
        commit_hash: commit.header_hash,
    }
}

/// Whether the header's digest matches the digest the commit claims to
/// certify.
pub fn _header_matches_commit<H: HeaderHasher>(
    header: &Header,
    commit: &Commit,
    header_hasher: &H,
) -> (r: bool)
    ensures
        r == header_matches_commit_holds(*header_hasher, *header, *commit),
{
    header_hasher.hash(header) == commit.header_hash
}

/// Build the `header_matches_commit` rule as a saturated assertion.
pub fn header_matches_commit<H: HeaderHasher>(
    header: &Header,
    commit: &Commit,
    header_hasher: &H,
) -> (r: RulePred)
    ensures
        r.assert_wf(),
        r.sat() == header_matches_commit_holds(*header_hasher, *header, *commit),
        r.failure() == header_matches_commit_failure(*header_hasher, *header, *commit),
{
    let header_hash = header_hasher.hash(header);
    let holds = header_hash == commit.header_hash;
    let failure = VerificationError::InvalidCommitValue {
        header_hash,
        commit_hash: commit.header_hash,
    };
    always(holds).named("header_matches_commit".to_string()).to_assert(
        (|p: &NamedPredicate<ConstPredicate>| -> (e: VerificationError)
            ensures
                e == failure,
            { failure }),
    )
}

/// The detail wrapped into an `ImplementationSpecific` failure: the
/// backend's own error, or a zero code on the passing side, where the
/// failure is never reported.
pub open spec fn commit_validation_detail<V: CommitValidator>(
    validator: V,
    commit: Commit,
    validators: ValidatorSet,
) -> crate::types::CommitValidationError {
    match validator.validate_spec(commit, validators) {
        Ok(()) => crate::types::CommitValidationError { code: 0 },
        Err(e) => e,
    }
}

/// Rule: the commit-validation backend accepts the commit against the
/// validator set.
pub open spec fn valid_commit_holds<V: CommitValidator>(
    validator: V,
    commit: Commit,
    validators: ValidatorSet,
) -> bool {
    validator.validate_spec(commit, validators) is Ok
}

/// The failure reported when [`valid_commit_holds`] does not hold.
pub open spec fn valid_commit_failure<V: CommitValidator>(
    validator: V,
    commit: Commit,
    validators: ValidatorSet,
) -> VerificationError {
    VerificationError::ImplementationSpecific {
        detail: commit_validation_detail(validator, commit, validators),
    }
}

/// Whether the commit-validation backend accepts the commit against the
/// validator set.
pub fn _valid_commit<V: CommitValidator>(
    commit: &Commit,
    validators: &ValidatorSet,
    validator: &V,
) -> (r: bool)
    ensures
        r == valid_commit_holds(*validator, *commit, *validators),
{
    validator.validate(commit, validators).is_ok()
}

/// Build the `valid_commit` rule as a saturated assertion.
pub fn valid_commit<V: CommitValidator>(
    commit: &Commit,
    validators: &ValidatorSet,
    validator: &V,
) -> (r: RulePred)
    ensures
        r.assert_wf(),
        r.sat() == valid_commit_holds(*validator, *commit, *validators),
        r.failure() == valid_commit_failure(*validator, *commit, *validators),
{
    let verdict = validator.validate(commit, validators);
    let holds = verdict.is_ok();
    let failure = match verdict {
        Ok(()) => VerificationError::ImplementationSpecific {
            detail: crate::types::CommitValidationError { code: 0 },
        },
        Err(detail) => VerificationError::ImplementationSpecific { detail },
    };
    always(holds).named("valid_commit".to_string()).to_assert(
        (|p: &NamedPredicate<ConstPredicate>| -> (e: VerificationError)
            ensures
                e == failure,
            { failure }),
    )
}

/// When a trusted header stops being usable: the end of its trusting
/// period, saturated to the largest representable time.
pub open spec fn expiry_time(header: Header, trusting_period: Timestamp) -> Timestamp {
    if header.bft_time + trusting_period > u64::MAX {
        u64::MAX as Timestamp
    } else {
        (header.bft_time + trusting_period) as Timestamp
    }
}

/// Rule: the header is already effective but not yet expired:
/// `bft_time < now` and `bft_time + trusting_period > now`, both strict.
pub open spec fn within_trust_period_holds(
    header: Header,
    trusting_period: Timestamp,
    now: Timestamp,
) -> bool {
    header.bft_time < now && header.bft_time + trusting_period > now
}

/// The failure reported when [`within_trust_period_holds`] does not hold.
pub open spec fn within_trust_period_failure(
    header: Header,
    trusting_period: Timestamp,
    now: Timestamp,
) -> VerificationError {
    VerificationError::NotWithinTrustPeriod { expires_at: expiry_time(header, trusting_period), now }
}

/// Whether the header is already effective but not yet expired.
pub fn _is_within_trust_period(header: &Header, trusting_period: Timestamp, now: Timestamp) -> (r:
    bool)
    ensures
        r == within_trust_period_holds(*header, trusting_period, now),
{
    let not_expired = match header.bft_time.checked_add(trusting_period) {
        Some(expires_at) => expires_at > now,
        None => true,
    };
    header.bft_time < now && not_expired
}

/// Build the `is_within_trust_period` rule as a saturated assertion.
pub fn is_within_trust_period(header: &Header, trusting_period: Timestamp, now: Timestamp) -> (r:
    RulePred)
    ensures
        r.assert_wf(),
        r.sat() == within_trust_period_holds(*header, trusting_period, now),
        r.failure() == within_trust_period_failure(*header, trusting_period, now),
{
    let holds = _is_within_trust_period(header, trusting_period, now);
    let expires_at = match header.bft_time.checked_add(trusting_period) {
        Some(at) => at,
        None => u64::MAX,
    };
    let failure = VerificationError::NotWithinTrustPeriod { expires_at, now };
    always(holds).named("is_within_trust_period".to_string()).to_assert(
        (|p: &NamedPredicate<ConstPredicate>| -> (e: VerificationError)
            ensures
                e == failure,
            { failure }),
    )
}

/// Rule: the untrusted header's consensus time is strictly later than the
/// trusted header's.
pub open spec fn monotonic_bft_time_holds(untrusted_header: Header, trusted_header: Header) -> bool {
    untrusted_header.bft_time > trusted_header.bft_time
}

/// The failure reported when [`monotonic_bft_time_holds`] does not hold.
pub open spec fn monotonic_bft_time_failure(
    untrusted_header: Header,
    trusted_header: Header,
) -> VerificationError {
    VerificationError::NonMonotonicBftTime {
        header_bft_time: untrusted_header.bft_time,
        trusted_header_bft_time: trusted_header.bft_time,
    }
}

/// Whether the untrusted header's consensus time is strictly later than the
/// trusted header's.
pub fn _is_monotonic_bft_time(untrusted_header: &Header, trusted_header: &Header) -> (r: bool)
    ensures
        r == monotonic_bft_time_holds(*untrusted_header, *trusted_header),
{
    untrusted_header.bft_time > trusted_header.bft_time
}

/// Build the `is_monotonic_bft_time` rule as a saturated assertion.
pub fn is_monotonic_bft_time(untrusted_header: &Header, trusted_header: &Header) -> (r: RulePred)
    ensures
        r.assert_wf(),
        r.sat() == monotonic_bft_time_holds(*untrusted_header, *trusted_header),
        r.failure() == monotonic_bft_time_failure(*untrusted_header, *trusted_header),
{
    let holds = _is_monotonic_bft_time(untrusted_header, trusted_header);
    let failure = VerificationError::NonMonotonicBftTime {
        header_bft_time: untrusted_header.bft_time,
        trusted_header_bft_time: trusted_header.bft_time,
    };
    always(holds).named("is_monotonic_bft_time".to_string()).to_assert(
        (|p: &NamedPredicate<ConstPredicate>| -> (e: VerificationError)
            ensures
                e == failure,
            { failure }),
    )
}

/// The height a client expects next, saturated at the largest representable
/// height.
pub open spec fn next_height(height: u64) -> u64 {
    if height < u64::MAX {
        (height + 1) as u64
    } else {
        u64::MAX as u64
    }
}

/// Rule: the untrusted header's height is strictly greater than the trusted
/// header's.
pub open spec fn monotonic_height_holds(untrusted_header: Header, trusted_header: Header) -> bool {
    untrusted_header.height > trusted_header.height
}

/// The failure reported when [`monotonic_height_holds`] does not hold; the
/// expected height is the trusted one plus one.
pub open spec fn monotonic_height_failure(
    untrusted_header: Header,
    trusted_header: Header,
) -> VerificationError {
    VerificationError::NonIncreasingHeight {
        got: untrusted_header.height,
        expected: next_height(trusted_header.height),
    }
}

/// Whether the untrusted header's height is strictly greater than the
/// trusted header's.
pub fn _is_monotonic_height(untrusted_header: &Header, trusted_header: &Header) -> (r: bool)
    ensures
        r == monotonic_height_holds(*untrusted_header, *trusted_header),
{
    untrusted_header.height > trusted_header.height
}

/// Build the `is_monotonic_height` rule as a saturated assertion.
pub fn is_monotonic_height(untrusted_header: &Header, trusted_header: &Header) -> (r: RulePred)
    ensures
        r.assert_wf(),
        r.sat() == monotonic_height_holds(*untrusted_header, *trusted_header),
        r.failure() == monotonic_height_failure(*untrusted_header, *trusted_header),
{
    let holds = _is_monotonic_height(untrusted_header, trusted_header);
    let expected = if trusted_header.height < u64::MAX {
        trusted_header.height + 1
    } else {
        u64::MAX
    };
    let failure = VerificationError::NonIncreasingHeight { got: untrusted_header.height, expected };
    always(holds).named("is_monotonic_height".to_string()).to_assert(
        (|p: &NamedPredicate<ConstPredicate>| -> (e: VerificationError)
            ensures
                e == failure,
            { failure }),
    )
}

/// Rule: the untrusted signed header's declared next-validator-set
/// commitment equals the hash of the supplied next validator set.
///
/// The condition is the same as [`next_validators_match_holds`]; it is
/// re-checked at its own place in the rule order.
pub open spec fn valid_next_validator_set_holds(
    untrusted_sh: SignedHeader,
    untrusted_next_vals: ValidatorSet,
) -> bool {
    next_validators_match_holds(untrusted_sh, untrusted_next_vals)
}

/// The failure reported when [`valid_next_validator_set_holds`] does not
/// hold.
pub open spec fn valid_next_validator_set_failure(
    untrusted_sh: SignedHeader,
    untrusted_next_vals: ValidatorSet,
) -> VerificationError {
    next_validators_match_failure(untrusted_sh, untrusted_next_vals)
}

/// Whether the untrusted signed header's declared next-validator-set
/// commitment differs from the hash of the supplied next validator set.
pub fn _invalid_next_validator_set(
    untrusted_sh: &SignedHeader,
    untrusted_next_vals: &ValidatorSet,
) -> (r: bool)
    ensures
        r == !valid_next_validator_set_holds(*untrusted_sh, *untrusted_next_vals),
{
    untrusted_sh.header.next_validators_hash != untrusted_next_vals.hash
}

/// Build the `valid_next_validator_set` rule as a saturated assertion.
pub fn valid_next_validator_set(
    untrusted_sh: &SignedHeader,
    untrusted_next_vals: &ValidatorSet,
) -> (r: Assert<NamedPredicate<crate::pred::NotPredicate<ConstPredicate>>, VerificationError>)
    ensures
        r.assert_wf(),
        r.sat() == valid_next_validator_set_holds(*untrusted_sh, *untrusted_next_vals),
        r.failure() == valid_next_validator_set_failure(*untrusted_sh, *untrusted_next_vals),
{
    let invalid = _invalid_next_validator_set(untrusted_sh, untrusted_next_vals);
    let failure = VerificationError::InvalidNextValidatorSet {
        header_next_validators_hash: untrusted_sh.header.next_validators_hash,
        next_validators_hash: untrusted_next_vals.hash,
    };
    always(invalid).not().named("valid_next_validator_set".to_string()).to_assert(
        (|p: &NamedPredicate<crate::pred::NotPredicate<ConstPredicate>>| -> (e: VerificationError)
            ensures
                e == failure,
            { failure }),
    )
}

/// The power carried by a calculator verdict, a failed calculation counting
/// as zero.
pub open spec fn power_or_zero(r: Result<Power, PowerError>) -> Power {
    match r {
        Ok(p) => p,
        Err(_) => 0,
    }
}

/// Whether a voting power exceeds the threshold fraction of a total power,
/// by cross-multiplication: `voting_power * denominator > total_power *
/// numerator`, strictly.
pub open spec fn meets_threshold(
    voting_power: Power,
    total_power: Power,
    trust_threshold: TrustThreshold,
) -> bool {
    voting_power * trust_threshold.denominator > total_power * trust_threshold.numerator
}

/// Rule: both power calculations succeed and the commit's power exceeds the
/// threshold fraction of the set's total power. A failed calculation folds
/// to `false`, never to a propagated fault.
pub open spec fn sufficient_voting_power_holds<C: VotingPowerCalculator>(
    calculator: C,
    commit: Commit,
    validators: ValidatorSet,
    trust_threshold: TrustThreshold,
) -> bool {
    let total = calculator.total_power_spec(validators);
    let voting = calculator.voting_power_spec(commit, validators);
    &&& total is Ok
    &&& voting is Ok
    &&& meets_threshold(voting->Ok_0, total->Ok_0, trust_threshold)
}

/// The powers reported alongside a threshold failure: what the calculator
/// returned, a failed calculation counting as zero.
pub open spec fn reported_powers<C: VotingPowerCalculator>(
    calculator: C,
    commit: Commit,
    validators: ValidatorSet,
) -> (Power, Power) {
    (
        power_or_zero(calculator.total_power_spec(validators)),
        power_or_zero(calculator.voting_power_spec(commit, validators)),
    )
}

/// The failure reported when [`sufficient_voting_power_holds`] does not
/// hold.
pub open spec fn sufficient_voting_power_failure<C: VotingPowerCalculator>(
    calculator: C,
    commit: Commit,
    validators: ValidatorSet,
) -> VerificationError {
    VerificationError::InsufficientVotingPower {
        total_power: power_or_zero(calculator.total_power_spec(validators)),
        voting_power: power_or_zero(calculator.voting_power_spec(commit, validators)),
    }
}

/// Compare `voting_power * denominator` with `total_power * numerator`
/// without overflowing, widening to 128 bits.
pub fn exceeds_threshold(
    voting_power: Power,
    total_power: Power,
    trust_threshold: &TrustThreshold,
) -> (r: bool)
    ensures
        r == meets_threshold(voting_power, total_power, *trust_threshold),
{
    proof {
        assert(voting_power * trust_threshold.denominator <= u64::MAX * u64::MAX)
            by (nonlinear_arith)
            requires
                voting_power <= u64::MAX,
                trust_threshold.denominator <= u64::MAX,
        ;
        assert(total_power * trust_threshold.numerator <= u64::MAX * u64::MAX)
            by (nonlinear_arith)
            requires
                total_power <= u64::MAX,
                trust_threshold.numerator <= u64::MAX,
        ;
    }
    let lhs: u128 = (voting_power as u128) * (trust_threshold.denominator as u128);
    let rhs: u128 = (total_power as u128) * (trust_threshold.numerator as u128);
    lhs > rhs
}

/// Whether both power calculations succeed and the commit's power exceeds
/// the threshold fraction of the set's total power.
pub fn _has_sufficient_voting_power<C: VotingPowerCalculator>(
    commit: &Commit,
    validators: &ValidatorSet,
    trust_threshold: &TrustThreshold,
    calculator: &C,
) -> (r: bool)
    ensures
        r == sufficient_voting_power_holds(*calculator, *commit, *validators, *trust_threshold),
{
    let total = calculator.total_power_of(validators);
    let voting = calculator.voting_power_in(commit, validators);
    match (total, voting) {
        (Ok(total_power), Ok(voting_power)) => exceeds_threshold(
            voting_power,
            total_power,
            trust_threshold,
        ),
        _ => false,
    }
}

/// The two powers to report alongside a threshold failure.
pub fn observed_powers<C: VotingPowerCalculator>(
    commit: &Commit,
    validators: &ValidatorSet,
    calculator: &C,
) -> (r: (Power, Power))
    ensures
        r == reported_powers(*calculator, *commit, *validators),
{
    let total_power = match calculator.total_power_of(validators) {
        Ok(p) => p,
        Err(_) => 0,
    };
    let signed_power = match calculator.voting_power_in(commit, validators) {
        Ok(p) => p,
        Err(_) => 0,
    };
    (total_power, signed_power)
}

/// Build the `has_sufficient_voting_power` rule as a saturated assertion.
pub fn has_sufficient_voting_power<C: VotingPowerCalculator>(
    commit: &Commit,
    validators: &ValidatorSet,
    trust_threshold: &TrustThreshold,
    calculator: &C,
) -> (r: RulePred)
    ensures
        r.assert_wf(),
        r.sat() == sufficient_voting_power_holds(
            *calculator,
            *commit,
            *validators,
            *trust_threshold,
        ),
        r.failure() == sufficient_voting_power_failure(*calculator, *commit, *validators),
{
    let holds = _has_sufficient_voting_power(commit, validators, trust_threshold, calculator);
    let (total_power, voting_power) = observed_powers(commit, validators, calculator);
    let failure = VerificationError::InsufficientVotingPower { total_power, voting_power };
    always(holds).named("has_sufficient_voting_power".to_string()).to_assert(
        (|p: &NamedPredicate<ConstPredicate>| -> (e: VerificationError)
            ensures
                e == failure,
            { failure }),
    )
}

/// The failure reported when the overlap with the trusted validator set is
/// insufficient.
pub open spec fn validators_overlap_failure<C: VotingPowerCalculator>(
    calculator: C,
    untrusted_commit: Commit,
    trusted_validators: ValidatorSet,
) -> VerificationError {
    VerificationError::InsufficientValidatorsOverlap {
        total_power: power_or_zero(calculator.total_power_spec(trusted_validators)),
        signed_power: power_or_zero(
            calculator.voting_power_spec(untrusted_commit, trusted_validators),
        ),
    }
}

/// Whether the voting power the untrusted commit carries within the trusted
/// validator set exceeds the threshold.
pub fn _has_sufficient_validators_overlap<C: VotingPowerCalculator>(
    untrusted_commit: &Commit,
    trusted_validators: &ValidatorSet,
    trust_threshold: &TrustThreshold,
    calculator: &C,
) -> (r: bool)
    ensures
        r == sufficient_voting_power_holds(
            *calculator,
            *untrusted_commit,
            *trusted_validators,
            *trust_threshold,
        ),
{
    _has_sufficient_voting_power(untrusted_commit, trusted_validators, trust_threshold, calculator)
}

/// Build the `has_sufficient_validators_overlap` rule: the threshold test
/// measured against the trusted validator set.
pub fn has_sufficient_validators_overlap<C: VotingPowerCalculator>(
    untrusted_commit: &Commit,
    trusted_validators: &ValidatorSet,
    trust_threshold: &TrustThreshold,
    calculator: &C,
) -> (r: RulePred)
    ensures
        r.assert_wf(),
        r.sat() == sufficient_voting_power_holds(
            *calculator,
            *untrusted_commit,
            *trusted_validators,
            *trust_threshold,
        ),
        r.failure() == validators_overlap_failure(
            *calculator,
            *untrusted_commit,
            *trusted_validators,
        ),
{
    let holds = _has_sufficient_validators_overlap(
        untrusted_commit,
        trusted_validators,
        trust_threshold,
        calculator,
    );
    let (total_power, signed_power) = observed_powers(
        untrusted_commit,
        trusted_validators,
        calculator,
    );
    let failure = VerificationError::InsufficientValidatorsOverlap { total_power, signed_power };
    always(holds).named("has_sufficient_validators_overlap".to_string()).to_assert(
        (|p: &NamedPredicate<ConstPredicate>| -> (e: VerificationError)
            ensures
                e == failure,
            { failure }),
    )
}

/// The failure reported when the signers of the new header do not meet the
/// threshold under the new validator set.
pub open spec fn signers_overlap_failure<C: VotingPowerCalculator>(
    calculator: C,
    untrusted_commit: Commit,
    untrusted_validators: ValidatorSet,
) -> VerificationError {
    VerificationError::InvalidCommit {
        total_power: power_or_zero(calculator.total_power_spec(untrusted_validators)),
        signed_power: power_or_zero(
            calculator.voting_power_spec(untrusted_commit, untrusted_validators),
        ),
    }
}

/// Whether the voting power the untrusted commit carries within the new
/// (untrusted) validator set exceeds the threshold.
pub fn _has_sufficient_signers_overlap<C: VotingPowerCalculator>(
    untrusted_commit: &Commit,
    untrusted_validators: &ValidatorSet,
    trust_threshold: &TrustThreshold,
    calculator: &C,
) -> (r: bool)
    ensures
        r == sufficient_voting_power_holds(
            *calculator,
            *untrusted_commit,
            *untrusted_validators,
            *trust_threshold,
        ),
{
    _has_sufficient_voting_power(
        untrusted_commit,
        untrusted_validators,
        trust_threshold,
        calculator,
    )
}

/// Build the `has_sufficient_signers_overlap` rule: the threshold test
/// measured against the new validator set.
pub fn has_sufficient_signers_overlap<C: VotingPowerCalculator>(
    untrusted_commit: &Commit,
    untrusted_validators: &ValidatorSet,
    trust_threshold: &TrustThreshold,
    calculator: &C,
) -> (r: RulePred)
    ensures
        r.assert_wf(),
        r.sat() == sufficient_voting_power_holds(
            *calculator,
            *untrusted_commit,
            *untrusted_validators,
            *trust_threshold,
        ),
        r.failure() == signers_overlap_failure(
            *calculator,
            *untrusted_commit,
            *untrusted_validators,
        ),
{
    let holds = _has_sufficient_signers_overlap(
        untrusted_commit,
        untrusted_validators,
        trust_threshold,
        calculator,
    );
    let (total_power, signed_power) = observed_powers(
        untrusted_commit,
        untrusted_validators,
        calculator,
    );
    let failure = VerificationError::InvalidCommit { total_power, signed_power };
    always(holds).named("has_sufficient_signers_overlap".to_string()).to_assert(
        (|p: &NamedPredicate<ConstPredicate>| -> (e: VerificationError)
            ensures
                e == failure,
            { failure }),
    )
}

/// The verdict of the `validator_sets_match` rule.
pub open spec fn check_validator_sets_match(
    signed_header: SignedHeader,
    validators: ValidatorSet,
) -> Result<(), VerificationError> {
    if validator_sets_match_holds(signed_header, validators) {
        Ok(())
    } else {
        Err(validator_sets_match_failure(signed_header, validators))
    }
}

/// The verdict of the `next_validators_match` rule.
pub open spec fn check_next_validators_match(
    signed_header: SignedHeader,
    next_validators: ValidatorSet,
) -> Result<(), VerificationError> {
    if next_validators_match_holds(signed_header, next_validators) {
        Ok(())
    } else {
        Err(next_validators_match_failure(signed_header, next_validators))
    }
}

/// The verdict of the `header_matches_commit` rule.
pub open spec fn check_header_matches_commit<H: HeaderHasher>(
    header_hasher: H,
    header: Header,
    commit: Commit,
) -> Result<(), VerificationError> {
    if header_matches_commit_holds(header_hasher, header, commit) {
        Ok(())
    } else {
        Err(header_matches_commit_failure(header_hasher, header, commit))
    }
}

/// The verdict of the `valid_commit` rule.
pub open spec fn check_valid_commit<V: CommitValidator>(
    validator: V,
    commit: Commit,
    validators: ValidatorSet,
) -> Result<(), VerificationError> {
    if valid_commit_holds(validator, commit, validators) {
        Ok(())
    } else {
        Err(valid_commit_failure(validator, commit, validators))
    }
}

/// The verdict of the trust-period rule, under the stricter policy that
/// tells a header from the future apart from an expired one. A header whose
/// time is ahead of `now` is reported as from the future first; one whose
/// time is not strictly before `now`, or whose trusting period has run out,
/// is reported as outside the trust period.
pub open spec fn check_within_trust_period(
    header: Header,
    trusting_period: Timestamp,
    now: Timestamp,
) -> Result<(), VerificationError> {
    if header.bft_time > now {
        Err(VerificationError::HeaderFromTheFuture { header_bft_time: header.bft_time, now })
    } else if within_trust_period_holds(header, trusting_period, now) {
        Ok(())
    } else {
        Err(within_trust_period_failure(header, trusting_period, now))
    }
}

/// The verdict of the `is_monotonic_bft_time` rule.
pub open spec fn check_monotonic_bft_time(
    untrusted_header: Header,
    trusted_header: Header,
) -> Result<(), VerificationError> {
    if monotonic_bft_time_holds(untrusted_header, trusted_header) {
        Ok(())
    } else {
        Err(monotonic_bft_time_failure(untrusted_header, trusted_header))
    }
}

/// The verdict of the `is_monotonic_height` rule.
pub open spec fn check_monotonic_height(
    untrusted_header: Header,
    trusted_header: Header,
) -> Result<(), VerificationError> {
    if monotonic_height_holds(untrusted_header, trusted_header) {
        Ok(())
    } else {
        Err(monotonic_height_failure(untrusted_header, trusted_header))
    }
}

/// The verdict of the `valid_next_validator_set` rule.
pub open spec fn check_valid_next_validator_set(
    untrusted_sh: SignedHeader,
    untrusted_next_vals: ValidatorSet,
) -> Result<(), VerificationError> {
    if valid_next_validator_set_holds(untrusted_sh, untrusted_next_vals) {
        Ok(())
    } else {
        Err(valid_next_validator_set_failure(untrusted_sh, untrusted_next_vals))
    }
}

/// The verdict of the `has_sufficient_validators_overlap` rule.
pub open spec fn check_sufficient_validators_overlap<C: VotingPowerCalculator>(
    calculator: C,
    untrusted_commit: Commit,
    trusted_validators: ValidatorSet,
    trust_threshold: TrustThreshold,
) -> Result<(), VerificationError> {
    if sufficient_voting_power_holds(
        calculator,
        untrusted_commit,
        trusted_validators,
        trust_threshold,
    ) {
        Ok(())
    } else {
        Err(validators_overlap_failure(calculator, untrusted_commit, trusted_validators))
    }
}

/// The verdict of the `has_sufficient_signers_overlap` rule.
pub open spec fn check_sufficient_signers_overlap<C: VotingPowerCalculator>(
    calculator: C,
    untrusted_commit: Commit,
    untrusted_validators: ValidatorSet,
    trust_threshold: TrustThreshold,
) -> Result<(), VerificationError> {
    if sufficient_voting_power_holds(
        calculator,
        untrusted_commit,
        untrusted_validators,
        trust_threshold,
    ) {
        Ok(())
    } else {
        Err(signers_overlap_failure(calculator, untrusted_commit, untrusted_validators))
    }
}

/// Boundary law of the threshold: with the fraction two thirds, a voting
/// power carrying exactly two thirds of the total does not meet the
/// threshold — the comparison is strict — while one more unit of power does.
pub proof fn lemma_threshold_boundary(voting_power: Power, total_power: Power)
    ensures
        3 * voting_power == 2 * total_power ==> !meets_threshold(
            voting_power,
            total_power,
            TrustThreshold { numerator: 2, denominator: 3 },
        ),
        3 * voting_power == 2 * total_power && voting_power < u64::MAX ==> meets_threshold(
            (voting_power + 1) as u64,
            total_power,
            TrustThreshold { numerator: 2, denominator: 3 },
        ),
{
}

/// Boundary law of the height rule: an untrusted header at the trusted
/// height fails with `NonIncreasingHeight`, and one exactly one height above
/// passes the rule.
pub proof fn lemma_height_boundary(untrusted_header: Header, trusted_header: Header)
    ensures
        untrusted_header.height == trusted_header.height ==> check_monotonic_height(
            untrusted_header,
            trusted_header,
        ) == Result::<(), VerificationError>::Err(
            monotonic_height_failure(untrusted_header, trusted_header),
        ),
        untrusted_header.height == trusted_header.height + 1 ==> check_monotonic_height(
            untrusted_header,
            trusted_header,
        ) == Result::<(), VerificationError>::Ok(()),
{
}

/// Boundary law of the trust period: a header timed exactly at `now` fails —
/// the rule wants it strictly earlier — and a header whose trusting period
/// ends exactly at `now` fails too, since expiry must lie strictly after
/// `now`. Both report `NotWithinTrustPeriod`.
pub proof fn lemma_trust_period_boundary(
    header: Header,
    trusting_period: Timestamp,
    now: Timestamp,
)
    ensures
        header.bft_time == now ==> check_within_trust_period(header, trusting_period, now)
            == Result::<(), VerificationError>::Err(
            within_trust_period_failure(header, trusting_period, now),
        ),
        header.bft_time + trusting_period == now ==> check_within_trust_period(
            header,
            trusting_period,
            now,
        ) == Result::<(), VerificationError>::Err(
            within_trust_period_failure(header, trusting_period, now),
        ),
{
}

/// Compose the nine rule assertions into the single fail-fast conjunction,
/// in the protocol's fixed evaluation order. The composite holds exactly
/// when every rule holds, and its failure is the first failing rule's, so a
/// later failure can never mask an earlier one.
pub fn verify_pred<P1, P2, P3, P4, P5, P6, P7, P8, P9>(
    validator_sets_match: P1,
    next_validators_match: P2,
    header_matches_commit: P3,
    valid_commit: P4,
    is_monotonic_bft_time: P5,
    is_monotonic_height: P6,
    valid_next_validator_set: P7,
    has_sufficient_validators_overlap: P8,
    has_sufficient_signers_overlap: P9,
) -> (r: AndPredicate<
    AndPredicate<
        AndPredicate<
            AndPredicate<
                AndPredicate<AndPredicate<AndPredicate<AndPredicate<P1, P2>, P3>, P4>, P5>,
                P6,
            >,
            P7,
        >,
        P8,
    >,
    P9,
>) where
    P1: Pred<VerificationError>,
    P2: Pred<VerificationError>,
    P3: Pred<VerificationError>,
    P4: Pred<VerificationError>,
    P5: Pred<VerificationError>,
    P6: Pred<VerificationError>,
    P7: Pred<VerificationError>,
    P8: Pred<VerificationError>,
    P9: Pred<VerificationError>,

    ensures
        r.assert_wf() == (validator_sets_match.assert_wf() && next_validators_match.assert_wf()
            && header_matches_commit.assert_wf() && valid_commit.assert_wf()
            && is_monotonic_bft_time.assert_wf() && is_monotonic_height.assert_wf()
            && valid_next_validator_set.assert_wf()
            && has_sufficient_validators_overlap.assert_wf()
            && has_sufficient_signers_overlap.assert_wf()),
        r.sat() == (validator_sets_match.sat() && next_validators_match.sat()
            && header_matches_commit.sat() && valid_commit.sat() && is_monotonic_bft_time.sat()
            && is_monotonic_height.sat() && valid_next_validator_set.sat()
            && has_sufficient_validators_overlap.sat() && has_sufficient_signers_overlap.sat()),
        r.failure() == (if !validator_sets_match.sat() {
            validator_sets_match.failure()
        } else if !next_validators_match.sat() {
            next_validators_match.failure()
        } else if !header_matches_commit.sat() {
            header_matches_commit.failure()
        } else if !valid_commit.sat() {
            valid_commit.failure()
        } else if !is_monotonic_bft_time.sat() {
            is_monotonic_bft_time.failure()
        } else if !is_monotonic_height.sat() {
            is_monotonic_height.failure()
        } else if !valid_next_validator_set.sat() {
            valid_next_validator_set.failure()
        } else if !has_sufficient_validators_overlap.sat() {
            has_sufficient_validators_overlap.failure()
        } else {
            has_sufficient_signers_overlap.failure()
        }),
{
    validator_sets_match.and(next_validators_match).and(header_matches_commit).and(
        valid_commit,
    ).and(is_monotonic_bft_time).and(is_monotonic_height).and(valid_next_validator_set).and(
        has_sufficient_validators_overlap,
    ).and(has_sufficient_signers_overlap)
}

} // verus!
