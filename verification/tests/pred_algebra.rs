//! Behaviour of the predicate algebra on concrete values.

use light_pred::pred::{
    always, assertion, boxed, const_assert, equal, from_fn, greater_than, less_than, named, never,
    not, tag, tag_ref, Assertion, ConstPredicate, FnPredicate, NotPredicate, Predicate,
    PredicateExt,
};

#[derive(Clone, Copy, Debug, PartialEq, Eq)]
enum Failure {
    Left,
    Right,
}

struct SomeTag;

#[test]
fn always_eval_to_value() {
    assert!(always(true).eval());
    assert!(!always(false).eval());
}

#[test]
fn never_eval_to_negation() {
    assert!(!never(true).eval());
    assert!(never(false).eval());
}

#[test]
fn and_eval_to_conj() {
    assert!(always(true).and(always(true)).eval());
    assert!(!always(true).and(always(false)).eval());
    assert!(!always(false).and(always(true)).eval());
    assert!(!always(false).and(always(false)).eval());
}

#[test]
fn or_eval_to_disj() {
    assert!(always(true).or(always(true)).eval());
    assert!(always(true).or(always(false)).eval());
    assert!(always(false).or(always(true)).eval());
    assert!(!always(false).or(always(false)).eval());
}

#[test]
fn not_eval_to_neg() {
    assert!(!always(true).not().eval());
    assert!(not(always(false)).eval());
    assert!(NotPredicate::new(ConstPredicate::new(false)).eval());
}

#[test]
fn implies_eval_to_implication() {
    assert!(always(true).implies(always(true)).eval());
    assert!(!always(true).implies(always(false)).eval());
    assert!(always(false).implies(always(true)).eval());
    assert!(always(false).implies(always(false)).eval());
}

#[test]
fn equal_eval() {
    assert!(equal(3u64, 3u64).eval());
    assert!(!equal(3u64, 4u64).eval());
}

#[test]
fn less_than_eval() {
    assert!(less_than(3u64, 4u64).eval());
    assert!(!less_than(4u64, 4u64).eval());
    assert!(!less_than(5u64, 4u64).eval());
}

#[test]
fn greater_than_eval() {
    assert!(greater_than(5u64, 4u64).eval());
    assert!(!greater_than(4u64, 4u64).eval());
    assert!(!greater_than(3u64, 4u64).eval());
}

#[test]
fn fn_eval_to_fn() {
    let bar = vec![7i32];
    let p = from_fn(|| bar[0] > 0);
    assert!(p.eval());
    let q = FnPredicate::new(|| bar[0] > 100);
    assert!(!q.eval());
}

#[test]
fn constant_forces_value() {
    assert!(always(false).constant(true).eval());
    assert!(!always(true).constant(false).eval());
}

#[test]
fn named_keeps_evaluation_and_name() {
    let p = named(always(true), String::from("some_rule"));
    assert!(p.eval());
    assert_eq!(p.name(), "some_rule");
    let q = always(false).named(String::from("other_rule"));
    assert!(!q.eval());
    assert_eq!(q.name(), "other_rule");
}

#[test]
fn tagged_keeps_evaluation() {
    let p = tag::<SomeTag, _>(always(true));
    assert!(p.eval());
    let q = always(false).tag::<SomeTag>();
    assert!(!q.eval());
}

#[test]
fn tag_ref_keeps_evaluation() {
    let p = always(true);
    assert!(tag_ref::<SomeTag, _>(&p).eval());
    assert!(p.tag_ref::<SomeTag>().eval());
}

#[test]
fn boxed_keeps_evaluation() {
    assert!(boxed(always(true)).eval());
    assert!(!always(false).boxed().eval());
}

#[test]
fn assertion_reports_bound_failure() {
    let ok = assertion(always(true), |_| Failure::Left);
    assert_eq!(ok.check(), Ok(()));
    assert!(ok.eval());
    let bad = always(false).to_assert(|_| Failure::Left);
    assert_eq!(bad.check(), Err(Failure::Left));
    assert!(!bad.eval());
}

#[test]
fn const_assert_reports_bound_failure() {
    assert_eq!(const_assert(true, || Failure::Right).check(), Ok(()));
    assert_eq!(const_assert(false, || Failure::Right).check(), Err(Failure::Right));
}

#[test]
fn and_assertion_fails_fast_with_left_failure() {
    let both_bad = always(false).to_assert(|_| Failure::Left).and(
        always(false).to_assert(|_| Failure::Right),
    );
    assert_eq!(both_bad.check(), Err(Failure::Left));

    let right_bad = always(true).to_assert(|_| Failure::Left).and(
        always(false).to_assert(|_| Failure::Right),
    );
    assert_eq!(right_bad.check(), Err(Failure::Right));

    let both_good = always(true).to_assert(|_| Failure::Left).and(
        always(true).to_assert(|_| Failure::Right),
    );
    assert_eq!(both_good.check(), Ok(()));
}

#[test]
fn or_assertion_surfaces_right_failure() {
    let both_bad = always(false).to_assert(|_| Failure::Left).or(
        always(false).to_assert(|_| Failure::Right),
    );
    assert_eq!(both_bad.check(), Err(Failure::Right));

    let left_bad = always(false).to_assert(|_| Failure::Left).or(
        always(true).to_assert(|_| Failure::Right),
    );
    assert_eq!(left_bad.check(), Ok(()));

    let left_good = always(true).to_assert(|_| Failure::Left).or(
        always(false).to_assert(|_| Failure::Right),
    );
    assert_eq!(left_good.check(), Ok(()));
}
