//! The single verification pass: every rule, in the protocol's fixed order,
//! short-circuiting on the first failure.
//!
//! [`verify_spec`] is the reference semantics: a function of the inputs
//! alone, so for fixed inputs `verify` returns the same result and the same
//! failure kind on every call. The trust-period rule is evaluated first, on
//! the trusted header, under the stricter policy that reports a header from
//! the future separately; the nine-rule conjunction follows.

use vstd::prelude::*;
use crate::operations::CommitValidator;
use crate::operations::HeaderHasher;
use crate::operations::VotingPowerCalculator;
use crate::pred::Assertion;
use crate::predicates::check_header_matches_commit;
use crate::predicates::check_monotonic_bft_time;
use crate::predicates::check_monotonic_height;
use crate::predicates::check_next_validators_match;
use crate::predicates::check_sufficient_signers_overlap;
use crate::predicates::check_sufficient_validators_overlap;
use crate::predicates::check_valid_commit;
use crate::predicates::check_valid_next_validator_set;
use crate::predicates::check_validator_sets_match;
use crate::predicates::check_within_trust_period;
use crate::predicates::has_sufficient_signers_overlap;
use crate::predicates::has_sufficient_validators_overlap;
use crate::predicates::header_matches_commit;
use crate::predicates::is_monotonic_bft_time;
use crate::predicates::is_monotonic_height;
use crate::predicates::next_validators_match;
use crate::predicates::production::ProductionPredicates;
use crate::predicates::valid_commit;
use crate::predicates::valid_next_validator_set;
use crate::predicates::validator_sets_match;
use crate::predicates::verify_pred;
use crate::types::SignedHeader;
use crate::types::Timestamp;
use crate::types::TrustThreshold;
use crate::types::TrustedState;
use crate::types::VerificationError;
use crate::types::ValidatorSet;

verus! {

/// The result of one verification pass: the first failing rule's failure,
/// in the order trust period, then rules one through nine, or success when
/// every rule passes.
pub open spec fn verify_spec<H: HeaderHasher, CV: CommitValidator, C: VotingPowerCalculator>(
    header_hasher: H,
    commit_validator: CV,
    calculator: C,
    trusted: TrustedState,
    untrusted_sh: SignedHeader,
    untrusted_vals: ValidatorSet,
    untrusted_next_vals: ValidatorSet,
    trust_threshold: TrustThreshold,
    trusting_period: Timestamp,
    now: Timestamp,
) -> Result<(), VerificationError> {
    let tp = check_within_trust_period(trusted.header, trusting_period, now);
    let r1 = check_validator_sets_match(untrusted_sh, untrusted_vals);
    let r2 = check_next_validators_match(untrusted_sh, untrusted_next_vals);
    let r3 = check_header_matches_commit(header_hasher, untrusted_sh.header, untrusted_sh.commit);
    let r4 = check_valid_commit(commit_validator, untrusted_sh.commit, untrusted_vals);
    let r5 = check_monotonic_bft_time(untrusted_sh.header, trusted.header);
    let r6 = check_monotonic_height(untrusted_sh.header, trusted.header);
    let r7 = check_valid_next_validator_set(untrusted_sh, untrusted_next_vals);
    let r8 = check_sufficient_validators_overlap(
        calculator,
        untrusted_sh.commit,
        trusted.validators,
        trust_threshold,
    );
    let r9 = check_sufficient_signers_overlap(
        calculator,
        untrusted_sh.commit,
        untrusted_vals,
        trust_threshold,
    );
    if tp is Err {
        tp
    } else if r1 is Err {
        r1
    } else if r2 is Err {
        r2
    } else if r3 is Err {
        r3
    } else if r4 is Err {
        r4
    } else if r5 is Err {
        r5
    } else if r6 is Err {
        r6
    } else if r7 is Err {
        r7
    } else if r8 is Err {
        r8
    } else if r9 is Err {
        r9
    } else {
        Ok(())
    }
}

/// Fail-fast law of the pass: whenever the validator-set rule fails — the
/// first of the nine — the pass reports `InvalidValidatorSet`, whatever any
/// later rule, the signers-overlap rule included, would report.
pub proof fn lemma_fail_fast_ordering<H: HeaderHasher, CV: CommitValidator, C: VotingPowerCalculator>(
    header_hasher: H,
    commit_validator: CV,
    calculator: C,
    trusted: TrustedState,
    untrusted_sh: SignedHeader,
    untrusted_vals: ValidatorSet,
    untrusted_next_vals: ValidatorSet,
    trust_threshold: TrustThreshold,
    trusting_period: Timestamp,
    now: Timestamp,
)
    requires
        check_within_trust_period(trusted.header, trusting_period, now) is Ok,
        !crate::predicates::validator_sets_match_holds(untrusted_sh, untrusted_vals),
    ensures
        verify_spec(
            header_hasher,
            commit_validator,
            calculator,
            trusted,
            untrusted_sh,
            untrusted_vals,
            untrusted_next_vals,
            trust_threshold,
            trusting_period,
            now,
        ) == Result::<(), VerificationError>::Err(
            crate::predicates::validator_sets_match_failure(untrusted_sh, untrusted_vals),
        ),
{
}

/// Run one verification pass over an untrusted signed header, against the
/// trusted anchor, the supplied validator sets, the configured threshold and
/// trusting period, and the explicit clock reading `now`.
///
/// The result equals [`verify_spec`] on the same inputs: success exactly
/// when every rule passes, and otherwise the first failing rule's failure.
pub fn verify<H: HeaderHasher, CV: CommitValidator, C: VotingPowerCalculator>(
    header_hasher: &H,
    commit_validator: &CV,
    calculator: &C,
    trusted: &TrustedState,
    untrusted_sh: &SignedHeader,
    untrusted_vals: &ValidatorSet,
    untrusted_next_vals: &ValidatorSet,
    trust_threshold: &TrustThreshold,
    trusting_period: Timestamp,
    now: Timestamp,
) -> (r: Result<(), VerificationError>)
    ensures
        r == verify_spec(
            *header_hasher,
            *commit_validator,
            *calculator,
            *trusted,
            *untrusted_sh,
            *untrusted_vals,
            *untrusted_next_vals,
            *trust_threshold,
            trusting_period,
            now,
        ),
{
    let production = ProductionPredicates;
    match production.is_within_trust_period(&trusted.header, trusting_period, now) {
        Ok(()) => {},
        Err(e) => {
            return Err(e);
        },
    }
    let p1 = validator_sets_match(untrusted_sh, untrusted_vals);
    let p2 = next_validators_match(untrusted_sh, untrusted_next_vals);
    let p3 = header_matches_commit(&untrusted_sh.header, &untrusted_sh.commit, header_hasher);
    let p4 = valid_commit(&untrusted_sh.commit, untrusted_vals, commit_validator);
    let p5 = is_monotonic_bft_time(&untrusted_sh.header, &trusted.header);
    let p6 = is_monotonic_height(&untrusted_sh.header, &trusted.header);
    let p7 = valid_next_validator_set(untrusted_sh, untrusted_next_vals);
    let p8 = has_sufficient_validators_overlap(
        &untrusted_sh.commit,
        &trusted.validators,
        trust_threshold,
        calculator,
    );
    let p9 = has_sufficient_signers_overlap(
        &untrusted_sh.commit,
        untrusted_vals,
        trust_threshold,
        calculator,
    );
    let composed = verify_pred(p1, p2, p3, p4, p5, p6, p7, p8, p9);
    composed.check()
}

} // verus!
