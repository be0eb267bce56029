//! Behaviour of the individual verification rules, boundaries included.

use light_pred::operations::{BasicCalculator, BasicCommitValidator, BasicHasher, HeaderHasher};
use light_pred::pred::Assertion;
use light_pred::predicates::production::ProductionPredicates;
use light_pred::predicates::{
    has_sufficient_signers_overlap, has_sufficient_validators_overlap, is_monotonic_height,
    validator_sets_match,
};
use light_pred::types::{
    Commit, CommitValidationError, Header, SignedHeader, TrustThreshold, Validator, ValidatorSet,
    VerificationError,
};

fn header(height: u64, bft_time: u64, validators_hash: u64, next_validators_hash: u64) -> Header {
    Header { height, bft_time, validators_hash, next_validators_hash }
}

fn set(hash: u64, members: &[(u64, u64)]) -> ValidatorSet {
    ValidatorSet {
        hash,
        validators: members.iter().map(|&(id, power)| Validator { id, power }).collect(),
    }
}

fn threshold(numerator: u64, denominator: u64) -> TrustThreshold {
    TrustThreshold::new(numerator, denominator).unwrap()
}

#[test]
fn validator_set_digest_is_deterministic() {
    let members = vec![Validator { id: 1, power: 50 }, Validator { id: 2, power: 30 }];
    let a = ValidatorSet::new(members.clone());
    let b = ValidatorSet::new(members);
    assert_eq!(a.hash, b.hash);
    let reordered = ValidatorSet::new(vec![
        Validator { id: 2, power: 30 },
        Validator { id: 1, power: 50 },
    ]);
    assert_ne!(a.hash, reordered.hash);
}

#[test]
fn trust_threshold_validation() {
    assert!(TrustThreshold::new(2, 3).is_some());
    assert!(TrustThreshold::new(3, 3).is_some());
    assert!(TrustThreshold::new(0, 3).is_none());
    assert!(TrustThreshold::new(4, 3).is_none());
}

#[test]
fn validator_sets_match_rule() {
    let p = ProductionPredicates;
    let sh = SignedHeader {
        header: header(11, 100, 1111, 1212),
        commit: Commit { header_hash: 0, signers: vec![] },
    };
    assert_eq!(p.validator_sets_match(&sh, &set(1111, &[])), Ok(()));
    assert_eq!(
        p.validator_sets_match(&sh, &set(9999, &[])),
        Err(VerificationError::InvalidValidatorSet {
            header_validators_hash: 1111,
            validators_hash: 9999,
        })
    );
}

#[test]
fn next_validators_match_rule() {
    let p = ProductionPredicates;
    let sh = SignedHeader {
        header: header(11, 100, 1111, 1212),
        commit: Commit { header_hash: 0, signers: vec![] },
    };
    assert_eq!(p.next_validators_match(&sh, &set(1212, &[])), Ok(()));
    assert_eq!(
        p.next_validators_match(&sh, &set(9999, &[])),
        Err(VerificationError::InvalidNextValidatorSet {
            header_next_validators_hash: 1212,
            next_validators_hash: 9999,
        })
    );
    assert_eq!(p.valid_next_validator_set(&sh, &set(1212, &[])), Ok(()));
    assert_eq!(
        p.valid_next_validator_set(&sh, &set(9999, &[])),
        Err(VerificationError::InvalidNextValidatorSet {
            header_next_validators_hash: 1212,
            next_validators_hash: 9999,
        })
    );
}

#[test]
fn header_matches_commit_rule() {
    let p = ProductionPredicates;
    let hasher = BasicHasher;
    let h = header(11, 100, 1111, 1212);
    let good = Commit { header_hash: hasher.hash(&h), signers: vec![] };
    assert_eq!(p.header_matches_commit(&h, &good, &hasher), Ok(()));
    let bad = Commit { header_hash: 42, signers: vec![] };
    assert_eq!(
        p.header_matches_commit(&h, &bad, &hasher),
        Err(VerificationError::InvalidCommitValue { header_hash: hasher.hash(&h), commit_hash: 42 })
    );
}

#[test]
fn valid_commit_rule() {
    let p = ProductionPredicates;
    let validator = BasicCommitValidator;
    let vals = set(1111, &[(1, 50), (2, 30), (3, 20)]);
    let good = Commit { header_hash: 0, signers: vec![1, 3] };
    assert_eq!(p.valid_commit(&good, &vals, &validator), Ok(()));
    let bad = Commit { header_hash: 0, signers: vec![1, 9] };
    assert_eq!(
        p.valid_commit(&bad, &vals, &validator),
        Err(VerificationError::ImplementationSpecific {
            detail: CommitValidationError { code: 1 },
        })
    );
}

#[test]
fn monotonic_bft_time_boundary() {
    let p = ProductionPredicates;
    let trusted = header(10, 1000, 0, 0);
    assert_eq!(p.is_monotonic_bft_time(&header(11, 1001, 0, 0), &trusted), Ok(()));
    assert_eq!(
        p.is_monotonic_bft_time(&header(11, 1000, 0, 0), &trusted),
        Err(VerificationError::NonMonotonicBftTime {
            header_bft_time: 1000,
            trusted_header_bft_time: 1000,
        })
    );
    assert_eq!(
        p.is_monotonic_bft_time(&header(11, 999, 0, 0), &trusted),
        Err(VerificationError::NonMonotonicBftTime {
            header_bft_time: 999,
            trusted_header_bft_time: 1000,
        })
    );
}

#[test]
fn monotonic_height_boundary() {
    let p = ProductionPredicates;
    let trusted = header(10, 1000, 0, 0);
    // Equal heights must fail, one above must pass that check.
    assert_eq!(
        p.is_monotonic_height(&header(10, 1001, 0, 0), &trusted),
        Err(VerificationError::NonIncreasingHeight { got: 10, expected: 11 })
    );
    assert_eq!(p.is_monotonic_height(&header(11, 1001, 0, 0), &trusted), Ok(()));
    assert_eq!(
        p.is_monotonic_height(&header(9, 1001, 0, 0), &trusted),
        Err(VerificationError::NonIncreasingHeight { got: 9, expected: 11 })
    );
}

#[test]
fn trust_period_boundaries() {
    let p = ProductionPredicates;
    let h = header(10, 1000, 0, 0);
    // Strictly inside the period.
    assert_eq!(p.is_within_trust_period(&h, 100, 1050), Ok(()));
    // Header time exactly at `now` fails: not strictly earlier.
    assert_eq!(
        p.is_within_trust_period(&h, 100, 1000),
        Err(VerificationError::NotWithinTrustPeriod { expires_at: 1100, now: 1000 })
    );
    // Expiry exactly at `now` fails: not strictly later.
    assert_eq!(
        p.is_within_trust_period(&h, 100, 1100),
        Err(VerificationError::NotWithinTrustPeriod { expires_at: 1100, now: 1100 })
    );
    // A header from the future is reported separately.
    assert_eq!(
        p.is_within_trust_period(&h, 100, 999),
        Err(VerificationError::HeaderFromTheFuture { header_bft_time: 1000, now: 999 })
    );
}

#[test]
fn threshold_boundary_two_thirds() {
    let p = ProductionPredicates;
    let calculator = BasicCalculator;
    let vals = set(1111, &[(1, 33), (2, 33), (3, 33)]);
    let two_thirds = threshold(2, 3);
    // 66 of 99 is exactly two thirds: must fail, the comparison is strict.
    let commit66 = Commit { header_hash: 0, signers: vec![1, 2] };
    assert_eq!(
        p.has_sufficient_voting_power(&commit66, &vals, &two_thirds, &calculator),
        Err(VerificationError::InsufficientVotingPower { total_power: 99, voting_power: 66 })
    );
    // One more unit of power must pass.
    let vals_67 = set(1111, &[(1, 33), (2, 34), (3, 32)]);
    let commit67 = Commit { header_hash: 0, signers: vec![1, 2] };
    assert_eq!(
        p.has_sufficient_voting_power(&commit67, &vals_67, &two_thirds, &calculator),
        Ok(())
    );
}

#[test]
fn voting_power_overflow_folds_to_failure() {
    let p = ProductionPredicates;
    let calculator = BasicCalculator;
    let vals = set(1111, &[(1, u64::MAX), (2, u64::MAX)]);
    let commit = Commit { header_hash: 0, signers: vec![1, 2] };
    // The total overflows, so the check fails; the overflowed power is
    // reported as zero.
    assert_eq!(
        p.has_sufficient_voting_power(&commit, &vals, &threshold(1, 3), &calculator),
        Err(VerificationError::InsufficientVotingPower { total_power: 0, voting_power: 0 })
    );
}

#[test]
fn overlap_rules_use_their_own_validator_set() {
    let p = ProductionPredicates;
    let calculator = BasicCalculator;
    // Validator 9 exists only in the trusted set, validator 8 only in the
    // new one, so the same commit carries different power in each.
    let trusted_vals = set(1010, &[(9, 70), (1, 30)]);
    let new_vals = set(1111, &[(8, 70), (1, 30)]);
    let commit = Commit { header_hash: 0, signers: vec![9] };
    let third = threshold(1, 3);
    assert_eq!(
        p.has_sufficient_validators_overlap(&commit, &trusted_vals, &third, &calculator),
        Ok(())
    );
    assert_eq!(
        p.has_sufficient_signers_overlap(&commit, &new_vals, &third, &calculator),
        Err(VerificationError::InvalidCommit { total_power: 100, signed_power: 0 })
    );
    let commit8 = Commit { header_hash: 0, signers: vec![8] };
    assert_eq!(
        p.has_sufficient_validators_overlap(&commit8, &trusted_vals, &third, &calculator),
        Err(VerificationError::InsufficientValidatorsOverlap { total_power: 100, signed_power: 0 })
    );
    assert_eq!(
        p.has_sufficient_signers_overlap(&commit8, &new_vals, &third, &calculator),
        Ok(())
    );
}

#[test]
fn rule_predicates_are_saturated_assertions() {
    let sh = SignedHeader {
        header: header(11, 100, 1111, 1212),
        commit: Commit { header_hash: 0, signers: vec![] },
    };
    let ok_rule = validator_sets_match(&sh, &set(1111, &[]));
    assert_eq!(ok_rule.check(), Ok(()));
    let bad_rule = validator_sets_match(&sh, &set(9999, &[]));
    assert_eq!(
        bad_rule.check(),
        Err(VerificationError::InvalidValidatorSet {
            header_validators_hash: 1111,
            validators_hash: 9999,
        })
    );
    let trusted = header(11, 100, 0, 0);
    assert_eq!(
        is_monotonic_height(&header(11, 101, 0, 0), &trusted).check(),
        Err(VerificationError::NonIncreasingHeight { got: 11, expected: 12 })
    );
    let calculator = BasicCalculator;
    let vals = set(1, &[(1, 60), (2, 40)]);
    let commit = Commit { header_hash: 0, signers: vec![1] };
    assert_eq!(
        has_sufficient_validators_overlap(&commit, &vals, &threshold(1, 2), &calculator).check(),
        Ok(())
    );
    assert_eq!(
        has_sufficient_signers_overlap(&commit, &vals, &threshold(2, 3), &calculator).check(),
        Err(VerificationError::InvalidCommit { total_power: 100, signed_power: 60 })
    );
}
