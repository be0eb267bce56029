//! End-to-end verification passes: the fixed rule order, determinism, and
//! the two full scenarios.

use light_pred::operations::{BasicCalculator, BasicCommitValidator, BasicHasher, HeaderHasher};
use light_pred::trusted_store::{TSReadWriter, TrustedStore};
use light_pred::types::{
    Commit, Header, SignedHeader, TrustThreshold, TrustedState, Validator, ValidatorSet,
    VerificationError,
};
use light_pred::verification::verify;

fn header(height: u64, bft_time: u64, validators_hash: u64, next_validators_hash: u64) -> Header {
    Header { height, bft_time, validators_hash, next_validators_hash }
}

fn set(hash: u64, members: &[(u64, u64)]) -> ValidatorSet {
    ValidatorSet {
        hash,
        validators: members.iter().map(|&(id, power)| Validator { id, power }).collect(),
    }
}

/// The fixture of the end-to-end scenario: a trusted anchor at height 10
/// over V10 (powers 50/30/20, total 100), an untrusted header at height 11
/// over V11, threshold one third.
struct Fixture {
    trusted: TrustedState,
    untrusted_sh: SignedHeader,
    untrusted_vals: ValidatorSet,
    untrusted_next_vals: ValidatorSet,
    threshold: TrustThreshold,
    trusting_period: u64,
    now: u64,
}

fn fixture(signers: Vec<u64>) -> Fixture {
    let hasher = BasicHasher;
    let v10 = set(1010, &[(1, 50), (2, 30), (3, 20)]);
    let v11 = set(1111, &[(1, 50), (2, 30), (3, 20)]);
    let header10 = header(10, 1000, 1010, 1111);
    let header11 = header(11, 1100, 1111, 1111);
    let commit11 = Commit { header_hash: hasher.hash(&header11), signers };
    Fixture {
        trusted: TrustedState { header: header10, validators: v10 },
        untrusted_sh: SignedHeader { header: header11, commit: commit11 },
        untrusted_vals: v11.clone(),
        untrusted_next_vals: v11,
        threshold: TrustThreshold::new(1, 3).unwrap(),
        trusting_period: 100_000,
        now: 1150,
    }
}

fn run(f: &Fixture) -> Result<(), VerificationError> {
    verify(
        &BasicHasher,
        &BasicCommitValidator,
        &BasicCalculator,
        &f.trusted,
        &f.untrusted_sh,
        &f.untrusted_vals,
        &f.untrusted_next_vals,
        &f.threshold,
        f.trusting_period,
        f.now,
    )
}

#[test]
fn end_to_end_success() {
    // Signers 1 and 3 carry 70 of 100 against both V10 and V11; the
    // threshold is one third, so the pass succeeds.
    let f = fixture(vec![1, 3]);
    assert_eq!(run(&f), Ok(()));

    // On success the caller anchors the new state; reading it back yields
    // header 11 and V11.
    let rw = TSReadWriter::new(TrustedStore::new());
    let new_state = TrustedState {
        header: f.untrusted_sh.header,
        validators: f.untrusted_vals.clone(),
    };
    rw.set(11, new_state);
    let got = rw.get(11).unwrap();
    assert_eq!(got.header, f.untrusted_sh.header);
    assert_eq!(got.validators.hash, 1111);
    assert_eq!(got.validators.validators.len(), 3);
}

#[test]
fn end_to_end_insufficient_overlap() {
    // The same setup, but the commit carries only 30 of 100: the overlap
    // with the trusted set fails first, reporting the two powers.
    let f = fixture(vec![2]);
    assert_eq!(
        run(&f),
        Err(VerificationError::InsufficientValidatorsOverlap {
            total_power: 100,
            signed_power: 30,
        })
    );
}

#[test]
fn verify_is_deterministic() {
    let good = fixture(vec![1, 3]);
    assert_eq!(run(&good), run(&good));
    let bad = fixture(vec![2]);
    assert_eq!(run(&bad), run(&bad));
}

#[test]
fn fail_fast_reports_first_failing_rule() {
    // Violate rule 1 (wrong validator-set hash) and rule 9 (no signers at
    // all): the pass must report the rule-1 failure, never the rule-9 one.
    let mut f = fixture(vec![]);
    f.untrusted_vals.hash = 9999;
    assert_eq!(
        run(&f),
        Err(VerificationError::InvalidValidatorSet {
            header_validators_hash: 1111,
            validators_hash: 9999,
        })
    );
}

#[test]
fn expired_anchor_is_rejected_before_the_rules() {
    let mut f = fixture(vec![1, 3]);
    // The trusted header's period ends at 1000 + 100: exactly `now` fails.
    f.trusting_period = 100;
    f.now = 1100;
    assert_eq!(
        run(&f),
        Err(VerificationError::NotWithinTrustPeriod { expires_at: 1100, now: 1100 })
    );
}

#[test]
fn future_anchor_is_reported_separately() {
    let mut f = fixture(vec![1, 3]);
    f.now = 999;
    assert_eq!(
        run(&f),
        Err(VerificationError::HeaderFromTheFuture { header_bft_time: 1000, now: 999 })
    );
}

#[test]
fn wrong_commit_digest_is_rejected() {
    let mut f = fixture(vec![1, 3]);
    f.untrusted_sh.commit.header_hash = 42;
    let expected_hash = BasicHasher.hash(&f.untrusted_sh.header);
    assert_eq!(
        run(&f),
        Err(VerificationError::InvalidCommitValue {
            header_hash: expected_hash,
            commit_hash: 42,
        })
    );
}

#[test]
fn unknown_signer_is_wrapped_opaquely() {
    let f = fixture(vec![1, 99]);
    match run(&f) {
        Err(VerificationError::ImplementationSpecific { detail }) => assert_eq!(detail.code, 1),
        other => panic!("expected an implementation-specific failure, got {:?}", other),
    }
}

#[test]
fn stale_header_is_rejected_with_monotonicity_errors() {
    // Same height as the anchor: the height rule reports expected 11.
    let mut f = fixture(vec![1, 3]);
    f.untrusted_sh.header.height = 10;
    f.untrusted_sh.commit.header_hash = BasicHasher.hash(&f.untrusted_sh.header);
    assert_eq!(
        run(&f),
        Err(VerificationError::NonIncreasingHeight { got: 10, expected: 11 })
    );

    // A consensus time not past the anchor's is rejected before heights.
    let mut g = fixture(vec![1, 3]);
    g.untrusted_sh.header.bft_time = 1000;
    g.untrusted_sh.commit.header_hash = BasicHasher.hash(&g.untrusted_sh.header);
    assert_eq!(
        run(&g),
        Err(VerificationError::NonMonotonicBftTime {
            header_bft_time: 1000,
            trusted_header_bft_time: 1000,
        })
    );
}

#[test]
fn wrong_next_validator_set_is_rejected() {
    let mut f = fixture(vec![1, 3]);
    f.untrusted_next_vals.hash = 9999;
    assert_eq!(
        run(&f),
        Err(VerificationError::InvalidNextValidatorSet {
            header_next_validators_hash: 1111,
            next_validators_hash: 9999,
        })
    );
}
