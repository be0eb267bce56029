//! An algebra of fully saturated boolean predicates.
//!
//! A predicate is a boolean check whose captured data is all bound at
//! construction time, so evaluating it is deterministic and repeatable.
//! Predicates can be combined with `and`, `or`, `not` and `implies`, wrapped
//! with a human-readable name or a type-level tag, and converted into
//! assertions: checks that report a typed failure value when they do not hold.

use core::marker::PhantomData;
use vstd::prelude::*;
use vstd::std_specs::cmp::PartialEqSpec;
use vstd::std_specs::cmp::PartialOrdSpec;

verus! {

/// A fully saturated predicate which can be evaluated to a boolean value.
pub trait Predicate {
    /// When this holds, evaluation is faithful to [`Predicate::holds`].
    spec fn wf(&self) -> bool;

    /// The truth value this predicate was saturated with.
    spec fn holds(&self) -> bool;

    /// Evaluates the predicate to a boolean value.
    fn eval(&self) -> (r: bool)
        requires
            self.wf(),
        ensures
            r == self.holds(),
    ;
}

/// A check that either passes or reports a typed failure value.
pub trait Assertion<E> {
    /// When this holds, [`Assertion::check`] is faithful to [`Assertion::sat`]
    /// and [`Assertion::failure`].
    spec fn assert_wf(&self) -> bool;

    /// Whether the underlying predicate holds.
    spec fn sat(&self) -> bool;

    /// The failure value reported when the assertion does not hold.
    spec fn failure(&self) -> E;

    /// Evaluates the assertion: `Ok` when it holds, otherwise the bound
    /// failure value.
    fn check(&self) -> (r: Result<(), E>)
        requires
            self.assert_wf(),
        ensures
            self.sat() ==> r == Result::<(), E>::Ok(()),
            !self.sat() ==> r == Result::<(), E>::Err(self.failure()),
    ;
}

/// The conjunction of predicates and assertions: what a verification rule
/// is made of.
pub trait Pred<E>: Assertion<E> + Predicate {}

impl<P, E> Pred<E> for P where P: Assertion<E> + Predicate {}

impl<P: Predicate> Predicate for &P {
    open spec fn wf(&self) -> bool {
        (**self).wf()
    }

    open spec fn holds(&self) -> bool {
        (**self).holds()
    }

    fn eval(&self) -> (r: bool) {
        (**self).eval()
    }
}

impl<P: Assertion<E>, E> Assertion<E> for &P {
    open spec fn assert_wf(&self) -> bool {
        (**self).assert_wf()
    }

    open spec fn sat(&self) -> bool {
        (**self).sat()
    }

    open spec fn failure(&self) -> E {
        (**self).failure()
    }

    fn check(&self) -> (r: Result<(), E>) {
        (**self).check()
    }
}

/// A predicate that always evaluates to the value it was built with.
pub struct ConstPredicate(pub bool);

impl ConstPredicate {
    pub fn new(value: bool) -> (r: Self)
        ensures
            r.wf(),
            r.holds() == value,
    {
        Self(value)
    }
}

impl Predicate for ConstPredicate {
    open spec fn wf(&self) -> bool {
        true
    }

    open spec fn holds(&self) -> bool {
        self.0
    }

    fn eval(&self) -> (r: bool) {
        self.0
    }
}

/// The conjunction of two predicates.
///
/// As an assertion it evaluates left to right and stops at the first failing
/// component: when the left assertion fails, its failure is reported and the
/// right one is never consulted.
pub struct AndPredicate<P, Q> {
    pub left: P,
    pub right: Q,
}

impl<P: Predicate, Q: Predicate> Predicate for AndPredicate<P, Q> {
    open spec fn wf(&self) -> bool {
        self.left.wf() && self.right.wf()
    }

    open spec fn holds(&self) -> bool {
        self.left.holds() && self.right.holds()
    }

    fn eval(&self) -> (r: bool) {
        self.left.eval() && self.right.eval()
    }
}

impl<P: Assertion<E>, Q: Assertion<E>, E> Assertion<E> for AndPredicate<P, Q> {
    open spec fn assert_wf(&self) -> bool {
        self.left.assert_wf() && self.right.assert_wf()
    }

    open spec fn sat(&self) -> bool {
        self.left.sat() && self.right.sat()
    }

    open spec fn failure(&self) -> E {
        if !self.left.sat() {
            self.left.failure()
        } else {
            self.right.failure()
        }
    }

    fn check(&self) -> (r: Result<(), E>) {
        match self.left.check() {
            Ok(()) => self.right.check(),
            Err(e) => Err(e),
        }
    }
}

/// The disjunction of two predicates.
///
/// As an assertion, the right component is attempted only when the left one
/// fails; when both fail, the right failure is the one reported.
pub struct OrPredicate<P, Q> {
    pub left: P,
    pub right: Q,
}

impl<P: Predicate, Q: Predicate> Predicate for OrPredicate<P, Q> {
    open spec fn wf(&self) -> bool {
        self.left.wf() && self.right.wf()
    }

    open spec fn holds(&self) -> bool {
        self.left.holds() || self.right.holds()
    }

    fn eval(&self) -> (r: bool) {
        self.left.eval() || self.right.eval()
    }
}

impl<P: Assertion<E>, Q: Assertion<E>, E> Assertion<E> for OrPredicate<P, Q> {
    open spec fn assert_wf(&self) -> bool {
        self.left.assert_wf() && self.right.assert_wf()
    }

    open spec fn sat(&self) -> bool {
        self.left.sat() || self.right.sat()
    }

    open spec fn failure(&self) -> E {
        self.right.failure()
    }

    fn check(&self) -> (r: Result<(), E>) {
        match self.left.check() {
            Ok(()) => Ok(()),
            Err(_) => self.right.check(),
        }
    }
}

/// The negation of a predicate.
pub struct NotPredicate<P>(pub P);

impl<P> NotPredicate<P> {
    pub fn new(p: P) -> (r: Self)
        ensures
            r.0 == p,
    {
        Self(p)
    }
}

impl<P: Predicate> Predicate for NotPredicate<P> {
    open spec fn wf(&self) -> bool {
        self.0.wf()
    }

    open spec fn holds(&self) -> bool {
        !self.0.holds()
    }

    fn eval(&self) -> (r: bool) {
        !self.0.eval()
    }
}

/// The implication from an assumption predicate to a conclusion predicate.
pub struct ImpliesPredicate<P, Q> {
    pub assumption: P,
    pub conclusion: Q,
}

impl<P: Predicate, Q: Predicate> Predicate for ImpliesPredicate<P, Q> {
    open spec fn wf(&self) -> bool {
        self.assumption.wf() && self.conclusion.wf()
    }

    open spec fn holds(&self) -> bool {
        !self.assumption.holds() || self.conclusion.holds()
    }

    fn eval(&self) -> (r: bool) {
        !self.assumption.eval() || self.conclusion.eval()
    }
}

/// A predicate paired with the failure value to report when it does not hold.
///
/// The failure value is bound at construction time, like every other piece of
/// captured data in this algebra.
pub struct Assert<P, E> {
    pub pred: P,
    pub if_false: E,
}

impl<P: Predicate, E: Copy> Assertion<E> for Assert<P, E> {
    open spec fn assert_wf(&self) -> bool {
        self.pred.wf()
    }

    open spec fn sat(&self) -> bool {
        self.pred.holds()
    }

    open spec fn failure(&self) -> E {
        self.if_false
    }

    fn check(&self) -> (r: Result<(), E>) {
        if self.pred.eval() {
            Ok(())
        } else {
            Err(self.if_false)
        }
    }
}

impl<P: Predicate, E> Predicate for Assert<P, E> {
    open spec fn wf(&self) -> bool {
        self.pred.wf()
    }

    open spec fn holds(&self) -> bool {
        self.pred.holds()
    }

    fn eval(&self) -> (r: bool) {
        self.pred.eval()
    }
}

/// A predicate comparing two same-typed values for equality.
pub struct EqualPredicate<T> {
    pub left: T,
    pub right: T,
}

impl<T> EqualPredicate<T> {
    pub fn new(left: T, right: T) -> (r: Self)
        ensures
            r.left == left,
            r.right == right,
    {
        Self { left, right }
    }
}

impl<T: PartialEq> Predicate for EqualPredicate<T> {
    open spec fn wf(&self) -> bool {
        T::obeys_eq_spec()
    }

    open spec fn holds(&self) -> bool {
        self.left.eq_spec(&self.right)
    }

    fn eval(&self) -> (r: bool) {
        self.left == self.right
    }
}

/// A predicate holding when `left` is strictly smaller than `right`.
pub struct LessThanPredicate<T> {
    pub left: T,
    pub right: T,
}

impl<T> LessThanPredicate<T> {
    pub fn new(left: T, right: T) -> (r: Self)
        ensures
            r.left == left,
            r.right == right,
    {
        Self { left, right }
    }
}

impl<T: PartialOrd> Predicate for LessThanPredicate<T> {
    open spec fn wf(&self) -> bool {
        T::obeys_partial_cmp_spec()
    }

    open spec fn holds(&self) -> bool {
        self.left.partial_cmp_spec(&self.right) == Some(core::cmp::Ordering::Less)
    }

    fn eval(&self) -> (r: bool) {
        self.left.lt(&self.right)
    }
}

/// A predicate holding when `left` is strictly greater than `right`.
pub struct GreaterThanPredicate<T> {
    pub left: T,
    pub right: T,
}

impl<T> GreaterThanPredicate<T> {
    pub fn new(left: T, right: T) -> (r: Self)
        ensures
            r.left == left,
            r.right == right,
    {
        Self { left, right }
    }
}

impl<T: PartialOrd> Predicate for GreaterThanPredicate<T> {
    open spec fn wf(&self) -> bool {
        T::obeys_partial_cmp_spec()
    }

    open spec fn holds(&self) -> bool {
        self.left.partial_cmp_spec(&self.right) == Some(core::cmp::Ordering::Greater)
    }

    fn eval(&self) -> (r: bool) {
        self.left.gt(&self.right)
    }
}

/// A predicate saturated from a boolean-producing closure.
///
/// The closure runs once, at construction time, so that evaluation is
/// deterministic and repeatable; the closure is kept only as a record of where
/// the value came from.
pub struct FnPredicate<F> {
    pub f: F,
    pub value: bool,
}

impl<F: Fn() -> bool> FnPredicate<F> {
    pub fn new(f: F) -> (r: Self)
        requires
            call_requires(f, ()),
        ensures
            r.f == f,
            call_ensures(f, (), r.value),
    {
        let value = f();
        Self { f, value }
    }
}

impl<F: Fn() -> bool> Predicate for FnPredicate<F> {
    open spec fn wf(&self) -> bool {
        true
    }

    open spec fn holds(&self) -> bool {
        self.value
    }

    fn eval(&self) -> (r: bool) {
        self.value
    }
}

/// A predicate wrapped with a human-readable name.
///
/// The name does not affect evaluation; it only serves introspection.
pub struct NamedPredicate<P> {
    pub pred: P,
    pub name: String,
}

impl<P> NamedPredicate<P> {
    pub fn new(pred: P, name: String) -> (r: Self)
        ensures
            r.pred == pred,
            r.name == name,
    {
        Self { pred, name }
    }

    /// The name this predicate was wrapped with.
    pub fn name(&self) -> (r: &str)
        ensures
            r@ == self.name@,
    {
        self.name.as_str()
    }
}

impl<P: Predicate> Predicate for NamedPredicate<P> {
    open spec fn wf(&self) -> bool {
        self.pred.wf()
    }

    open spec fn holds(&self) -> bool {
        self.pred.holds()
    }

    fn eval(&self) -> (r: bool) {
        self.pred.eval()
    }
}

/// A predicate carrying a type-level tag.
///
/// The tag does not affect evaluation; it only distinguishes otherwise equal
/// predicate types at compile time.
#[verifier::reject_recursive_types(T)]
pub struct TaggedPredicate<T, P> {
    pub pred: P,
    pub tag: PhantomData<T>,
}

impl<T, P> TaggedPredicate<T, P> {
    pub fn new(pred: P) -> (r: Self)
        ensures
            r.pred == pred,
    {
        Self { pred, tag: PhantomData }
    }
}

impl<T, P: Predicate> Predicate for TaggedPredicate<T, P> {
    open spec fn wf(&self) -> bool {
        self.pred.wf()
    }

    open spec fn holds(&self) -> bool {
        self.pred.holds()
    }

    fn eval(&self) -> (r: bool) {
        self.pred.eval()
    }
}

/// A borrowed predicate carrying a type-level tag.
#[verifier::reject_recursive_types(T)]
pub struct TaggedRefPredicate<'a, T, P> {
    pub pred: &'a P,
    pub tag: PhantomData<T>,
}

impl<'a, T, P> TaggedRefPredicate<'a, T, P> {
    pub fn new(pred: &'a P) -> (r: Self)
        ensures
            r.pred == pred,
    {
        Self { pred, tag: PhantomData }
    }
}

impl<'a, T, P: Predicate> Predicate for TaggedRefPredicate<'a, T, P> {
    open spec fn wf(&self) -> bool {
        self.pred.wf()
    }

    open spec fn holds(&self) -> bool {
        self.pred.holds()
    }

    fn eval(&self) -> (r: bool) {
        self.pred.eval()
    }
}

/// A predicate kept behind an owning pointer.
pub struct BoxedPredicate<P> {
    pub pred: Box<P>,
}

impl<P> BoxedPredicate<P> {
    pub fn new(pred: P) -> (r: Self)
        ensures
            *r.pred == pred,
    {
        Self { pred: Box::new(pred) }
    }
}

impl<P: Predicate> Predicate for BoxedPredicate<P> {
    open spec fn wf(&self) -> bool {
        (*self.pred).wf()
    }

    open spec fn holds(&self) -> bool {
        (*self.pred).holds()
    }

    fn eval(&self) -> (r: bool) {
        (*self.pred).eval()
    }
}

/// Extension methods for predicates.
pub trait PredicateExt: Predicate + Sized {
    /// Convert this predicate into an assertion, binding the failure value
    /// that `if_false` computes from it.
    fn to_assert<E: Copy, F: Fn(&Self) -> E>(self, if_false: F) -> (r: Assert<Self, E>)
        requires
            call_requires(if_false, (&self,)),
        ensures
            r.pred == self,
            call_ensures(if_false, (&self,), r.if_false),
    ;

    /// Build the conjunction of this predicate with `other`.
    fn and<Q>(self, other: Q) -> (r: AndPredicate<Self, Q>)
        ensures
            r.left == self,
            r.right == other,
    ;

    /// Build the disjunction of this predicate with `other`.
    fn or<Q>(self, other: Q) -> (r: OrPredicate<Self, Q>)
        ensures
            r.left == self,
            r.right == other,
    ;

    /// Build the negation of this predicate.
    fn not(self) -> (r: NotPredicate<Self>)
        ensures
            r.0 == self,
    ;

    /// Build the implication of this predicate to `other`.
    fn implies<Q>(self, other: Q) -> (r: ImpliesPredicate<Self, Q>)
        ensures
            r.assumption == self,
            r.conclusion == other,
    ;

    /// Convenience method to force evaluation of this predicate to `value`.
    fn constant(self, value: bool) -> (r: ConstPredicate)
        ensures
            r.wf(),
            r.holds() == value,
    ;

    /// Attach a type-level tag to this predicate.
    fn tag<T>(self) -> (r: TaggedPredicate<T, Self>)
        ensures
            r.pred == self,
    ;

    /// Attach a type-level tag to a borrow of this predicate.
    fn tag_ref<'a, T>(&'a self) -> (r: TaggedRefPredicate<'a, T, Self>)
        ensures
            r.pred == self,
    ;

    /// Provide a name for this predicate, to be displayed when inspecting it.
    fn named(self, name: String) -> (r: NamedPredicate<Self>)
        ensures
            r.pred == self,
            r.name == name,
    ;

    /// Box this predicate.
    fn boxed(self) -> (r: BoxedPredicate<Self>)
        ensures
            *r.pred == self,
    ;
}

impl<P: Predicate> PredicateExt for P {
    fn to_assert<E: Copy, F: Fn(&Self) -> E>(self, if_false: F) -> (r: Assert<Self, E>) {
        let e = if_false(&self);
        Assert { pred: self, if_false: e }
    }

    fn and<Q>(self, other: Q) -> (r: AndPredicate<Self, Q>) {
        AndPredicate { left: self, right: other }
    }

    fn or<Q>(self, other: Q) -> (r: OrPredicate<Self, Q>) {
        OrPredicate { left: self, right: other }
    }

    fn not(self) -> (r: NotPredicate<Self>) {
        NotPredicate(self)
    }

    fn implies<Q>(self, other: Q) -> (r: ImpliesPredicate<Self, Q>) {
        ImpliesPredicate { assumption: self, conclusion: other }
    }

    fn constant(self, value: bool) -> (r: ConstPredicate) {
        ConstPredicate::new(value)
    }

    fn tag<T>(self) -> (r: TaggedPredicate<T, Self>) {
        TaggedPredicate::new(self)
    }

    fn tag_ref<'a, T>(&'a self) -> (r: TaggedRefPredicate<'a, T, Self>) {
        TaggedRefPredicate::new(self)
    }

    fn named(self, name: String) -> (r: NamedPredicate<Self>) {
        NamedPredicate::new(self, name)
    }

    fn boxed(self) -> (r: BoxedPredicate<Self>) {
        BoxedPredicate::new(self)
    }
}

/// Short-circuit law of the conjunction: when the left component of a
/// conjunction fails, the composite fails with the left component's failure,
/// whatever the right component would report.
pub proof fn lemma_and_fail_fast<E, P: Assertion<E>, Q: Assertion<E>>(c: AndPredicate<P, Q>)
    requires
        !c.left.sat(),
    ensures
        !c.sat(),
        c.failure() == c.left.failure(),
{
}

/// Surfacing law of the disjunction: the composite fails only when both
/// components fail, and then reports the right component's failure; the
/// left component's failure is discarded.
pub proof fn lemma_or_failure<E, P: Assertion<E>, Q: Assertion<E>>(c: OrPredicate<P, Q>)
    requires
        !c.left.sat(),
        !c.right.sat(),
    ensures
        !c.sat(),
        c.failure() == c.right.failure(),
{
}

/// Build a predicate which always evaluates to `value`.
pub fn always(value: bool) -> (r: ConstPredicate)
    ensures
        r.wf(),
        r.holds() == value,
{
    ConstPredicate::new(value)
}

/// Build a predicate which always evaluates to the negation of `value`.
pub fn never(value: bool) -> (r: ConstPredicate)
    ensures
        r.wf(),
        r.holds() == !value,
{
    always(!value)
}

/// Negate the given predicate.
pub fn not<P: Predicate>(p: P) -> (r: NotPredicate<P>)
    ensures
        r.0 == p,
{
    p.not()
}

/// Build a predicate which holds when `left` is equal to `right`.
pub fn equal<T>(left: T, right: T) -> (r: EqualPredicate<T>)
    ensures
        r.left == left,
        r.right == right,
{
    EqualPredicate::new(left, right)
}

/// Build a predicate which holds when `left` is strictly smaller than
/// `right`.
pub fn less_than<T>(left: T, right: T) -> (r: LessThanPredicate<T>)
    ensures
        r.left == left,
        r.right == right,
{
    LessThanPredicate::new(left, right)
}

/// Build a predicate which holds when `left` is strictly greater than
/// `right`.
pub fn greater_than<T>(left: T, right: T) -> (r: GreaterThanPredicate<T>)
    ensures
        r.left == left,
        r.right == right,
{
    GreaterThanPredicate::new(left, right)
}

/// Build a predicate saturated from the given closure, invoked once here.
pub fn from_fn<F: Fn() -> bool>(f: F) -> (r: FnPredicate<F>)
    requires
        call_requires(f, ()),
    ensures
        r.f == f,
        call_ensures(f, (), r.value),
{
    FnPredicate::new(f)
}

/// Attach a type-level tag to the given predicate.
pub fn tag<T, P: Predicate>(pred: P) -> (r: TaggedPredicate<T, P>)
    ensures
        r.pred == pred,
{
    TaggedPredicate::new(pred)
}

/// Attach a type-level tag to a borrow of the given predicate.
pub fn tag_ref<'a, T, P: Predicate>(pred: &'a P) -> (r: TaggedRefPredicate<'a, T, P>)
    ensures
        r.pred == pred,
{
    TaggedRefPredicate::new(pred)
}

/// Provide a name for the given predicate, to be displayed when inspecting
/// it.
pub fn named<P>(pred: P, name: String) -> (r: NamedPredicate<P>)
    ensures
        r.pred == pred,
        r.name == name,
{
    NamedPredicate::new(pred, name)
}

/// Box the given predicate.
pub fn boxed<P>(pred: P) -> (r: BoxedPredicate<P>)
    ensures
        *r.pred == pred,
{
    BoxedPredicate::new(pred)
}

/// Convert the given predicate into an assertion, binding the failure value
/// that `if_false` computes from it.
pub fn assertion<P: Predicate, E: Copy, F: Fn(&P) -> E>(pred: P, if_false: F) -> (r: Assert<P, E>)
    requires
        call_requires(if_false, (&pred,)),
    ensures
        r.pred == pred,
        call_ensures(if_false, (&pred,), r.if_false),
{
    pred.to_assert(if_false)
}

/// Build an assertion over a constant predicate, binding the failure value
/// that `if_false` computes.
pub fn const_assert<E: Copy, F: Fn() -> E>(value: bool, if_false: F) -> (r: Assert<
    ConstPredicate,
    E,
>)
    requires
        call_requires(if_false, ()),
    ensures
        r.sat() == value,
        call_ensures(if_false, (), r.if_false),
{
    let e = if_false();
    Assert { pred: ConstPredicate::new(value), if_false: e }
}

} // verus!
