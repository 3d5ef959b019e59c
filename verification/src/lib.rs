//! Composable building blocks for event-sourced and state-stored decision
//! logic: a [`decider::Decider`] turns a command and a state into new events, a
//! [`view::View`] projects events into query state, and a [`saga::Saga`] reacts
//! to events with follow-up commands.  Operators combine many small instances
//! into one large instance while provably preserving the behaviour of every
//! component, and thin application shells wire the pure parts to repository and
//! publisher ports.
//!
//! Every unit of behaviour is an executable closure paired with a ghost
//! mathematical model; well-formedness ties the two together, and every
//! contract below is stated over the models.

use vstd::prelude::*;

pub mod aggregate;
pub mod decider;
pub mod decider_combined;
pub mod materialized_view;
pub mod saga;
pub mod saga_combined;
pub mod saga_manager;
pub mod specification;
pub mod view;
pub mod view_combined;

verus! {

/// Turns an executable decision result into its mathematical counterpart.
pub open spec fn res_seq<E, Error>(r: Result<Vec<E>, Error>) -> Result<Seq<E>, Error> {
    match r {
        Ok(v) => Ok(v@),
        Err(e) => Err(e),
    }
}

/// `clone` on `T` never diverges from the cloned value.  The combination
/// operators rely on this when they copy an untouched slot of a combined
/// state through unchanged.
pub open spec fn clone_faithful<T: Clone>() -> bool {
    forall|a: &T, b: T| #[trigger] call_ensures(T::clone, (a,), b) ==> b == *a
}

/// A nullary function is captured by one value: every call succeeds and every
/// possible outcome equals `v`.
pub open spec fn fn0_obeys<R, F: Fn() -> R>(f: F, v: R) -> bool {
    &&& call_requires(f, ())
    &&& forall|r: R| #[trigger] call_ensures(f, (), r) ==> r == v
}

/// A unary function is captured by a total mathematical model: every call
/// succeeds and every possible outcome agrees with `m`.
pub open spec fn fn1_obeys<A, R, F: Fn(&A) -> R>(f: F, m: spec_fn(A) -> R) -> bool {
    &&& forall|a: &A| #[trigger] call_requires(f, (a,))
    &&& forall|a: &A, r: R| #[trigger] call_ensures(f, (a,), r) ==> r == m(*a)
}

/// A binary function is captured by a total mathematical model.
pub open spec fn fn2_obeys<A, B, R, F: Fn(&A, &B) -> R>(f: F, m: spec_fn(A, B) -> R) -> bool {
    &&& forall|a: &A, b: &B| #[trigger] call_requires(f, (a, b))
    &&& forall|a: &A, b: &B, r: R| #[trigger] call_ensures(f, (a, b), r) ==> r == m(*a, *b)
}

/// Maps `f` over a vector, consuming it.  The result is pinned down by the
/// model `m` of `f`.
pub(crate) fn map_vec<T, U, F: Fn(T) -> U>(v: Vec<T>, f: F, Ghost(m): Ghost<spec_fn(T) -> U>) -> (r:
    Vec<U>)
    requires
        forall|x: T| #[trigger] call_requires(f, (x,)),
        forall|x: T, y: U| #[trigger] call_ensures(f, (x,), y) ==> y == m(x),
    ensures
        r@ == v@.map_values(m),
{
    let ghost orig = v@;
    let mut v = v;
    let mut out: Vec<U> = Vec::new();
    while v.len() > 0
        invariant
            forall|x: T| #[trigger] call_requires(f, (x,)),
            forall|x: T, y: U| #[trigger] call_ensures(f, (x,), y) ==> y == m(x),
            orig == orig.take(out@.len() as int) + v@,
            out@.len() <= orig.len(),
            out@ == orig.take(out@.len() as int).map_values(m),
        decreases v.len(),
    {
        let x = v.remove(0);
        out.push(f(x));
        proof {
            assert(orig.take(out@.len() as int) =~= orig.take(out@.len() - 1) + seq![orig[out@.len() - 1]]);
            assert(out@ =~= orig.take(out@.len() as int).map_values(m));
        }
    }
    proof {
        assert(orig.take(orig.len() as int) =~= orig);
    }
    out
}

/// Wraps a value as the first variant of [`Sum`].
pub(crate) fn sum_first<A, B>(a: A) -> (r: Sum<A, B>)
    ensures
        r == Sum::<A, B>::First(a),
{
    Sum::First(a)
}

/// Wraps a value as the second variant of [`Sum`].
pub(crate) fn sum_second<A, B>(b: B) -> (r: Sum<A, B>)
    ensures
        r == Sum::<A, B>::Second(b),
{
    Sum::Second(b)
}

/// Generic combined/sum type of two variants.
#[derive(Debug, PartialEq, Clone)]
pub enum Sum<A, B> {
    /// First variant
    First(A),
    /// Second variant
    Second(B),
}

/// Generic combined/sum type of three variants.
#[derive(Debug, PartialEq, Clone)]
pub enum Sum3<A, B, C> {
    /// First variant
    First(A),
    /// Second variant
    Second(B),
    /// Third variant
    Third(C),
}

/// Generic combined/sum type of four variants.
#[derive(Debug, PartialEq, Clone)]
pub enum Sum4<A, B, C, D> {
    /// First variant
    First(A),
    /// Second variant
    Second(B),
    /// Third variant
    Third(C),
    /// Fourth variant
    Fourth(D),
}

/// Generic combined/sum type of five variants.
#[derive(Debug, PartialEq, Clone)]
pub enum Sum5<A, B, C, D, E> {
    /// First variant
    First(A),
    /// Second variant
    Second(B),
    /// Third variant
    Third(C),
    /// Fourth variant
    Fourth(D),
    /// Fifth variant
    Fifth(E),
}

/// Generic combined/sum type of six variants.
#[derive(Debug, PartialEq, Clone)]
pub enum Sum6<A, B, C, D, E, F> {
    /// First variant
    First(A),
    /// Second variant
    Second(B),
    /// Third variant
    Third(C),
    /// Fourth variant
    Fourth(D),
    /// Fifth variant
    Fifth(E),
    /// Sixth variant
    Sixth(F),
}

/// Wraps a value as the first variant of [`Sum3`].
pub(crate) fn sum3_first<A, B, C>(x: A) -> (r: Sum3<A, B, C>)
    ensures
        r == Sum3::<A, B, C>::First(x),
{
    Sum3::First(x)
}

/// Wraps a value as the second variant of [`Sum3`].
pub(crate) fn sum3_second<A, B, C>(x: B) -> (r: Sum3<A, B, C>)
    ensures
        r == Sum3::<A, B, C>::Second(x),
{
    Sum3::Second(x)
}

/// Wraps a value as the third variant of [`Sum3`].
pub(crate) fn sum3_third<A, B, C>(x: C) -> (r: Sum3<A, B, C>)
    ensures
        r == Sum3::<A, B, C>::Third(x),
{
    Sum3::Third(x)
}

/// Wraps a value as the first variant of [`Sum4`].
pub(crate) fn sum4_first<A, B, C, D>(x: A) -> (r: Sum4<A, B, C, D>)
    ensures
        r == Sum4::<A, B, C, D>::First(x),
{
    Sum4::First(x)
}

/// Wraps a value as the second variant of [`Sum4`].
pub(crate) fn sum4_second<A, B, C, D>(x: B) -> (r: Sum4<A, B, C, D>)
    ensures
        r == Sum4::<A, B, C, D>::Second(x),
{
    Sum4::Second(x)
}

/// Wraps a value as the third variant of [`Sum4`].
pub(crate) fn sum4_third<A, B, C, D>(x: C) -> (r: Sum4<A, B, C, D>)
    ensures
        r == Sum4::<A, B, C, D>::Third(x),
{
    Sum4::Third(x)
}

/// Wraps a value as the fourth variant of [`Sum4`].
pub(crate) fn sum4_fourth<A, B, C, D>(x: D) -> (r: Sum4<A, B, C, D>)
    ensures
        r == Sum4::<A, B, C, D>::Fourth(x),
{
    Sum4::Fourth(x)
}

/// Wraps a value as the first variant of [`Sum5`].
pub(crate) fn sum5_first<A, B, C, D, E>(x: A) -> (r: Sum5<A, B, C, D, E>)
    ensures
        r == Sum5::<A, B, C, D, E>::First(x),
{
    Sum5::First(x)
}

/// Wraps a value as the second variant of [`Sum5`].
pub(crate) fn sum5_second<A, B, C, D, E>(x: B) -> (r: Sum5<A, B, C, D, E>)
    ensures
        r == Sum5::<A, B, C, D, E>::Second(x),
{
    Sum5::Second(x)
}

/// Wraps a value as the third variant of [`Sum5`].
pub(crate) fn sum5_third<A, B, C, D, E>(x: C) -> (r: Sum5<A, B, C, D, E>)
    ensures
        r == Sum5::<A, B, C, D, E>::Third(x),
{
    Sum5::Third(x)
}

/// Wraps a value as the fourth variant of [`Sum5`].
pub(crate) fn sum5_fourth<A, B, C, D, E>(x: D) -> (r: Sum5<A, B, C, D, E>)
    ensures
        r == Sum5::<A, B, C, D, E>::Fourth(x),
{
    Sum5::Fourth(x)
}

/// Wraps a value as the fifth variant of [`Sum5`].
pub(crate) fn sum5_fifth<A, B, C, D, E>(x: E) -> (r: Sum5<A, B, C, D, E>)
    ensures
        r == Sum5::<A, B, C, D, E>::Fifth(x),
{
    Sum5::Fifth(x)
}

/// Wraps a value as the first variant of [`Sum6`].
pub(crate) fn sum6_first<A, B, C, D, E, F>(x: A) -> (r: Sum6<A, B, C, D, E, F>)
    ensures
        r == Sum6::<A, B, C, D, E, F>::First(x),
{
    Sum6::First(x)
}

/// Wraps a value as the second variant of [`Sum6`].
pub(crate) fn sum6_second<A, B, C, D, E, F>(x: B) -> (r: Sum6<A, B, C, D, E, F>)
    ensures
        r == Sum6::<A, B, C, D, E, F>::Second(x),
{
    Sum6::Second(x)
}

/// Wraps a value as the third variant of [`Sum6`].
pub(crate) fn sum6_third<A, B, C, D, E, F>(x: C) -> (r: Sum6<A, B, C, D, E, F>)
    ensures
        r == Sum6::<A, B, C, D, E, F>::Third(x),
{
    Sum6::Third(x)
}

/// Wraps a value as the fourth variant of [`Sum6`].
pub(crate) fn sum6_fourth<A, B, C, D, E, F>(x: D) -> (r: Sum6<A, B, C, D, E, F>)
    ensures
        r == Sum6::<A, B, C, D, E, F>::Fourth(x),
{
    Sum6::Fourth(x)
}

/// Wraps a value as the fifth variant of [`Sum6`].
pub(crate) fn sum6_fifth<A, B, C, D, E, F>(x: E) -> (r: Sum6<A, B, C, D, E, F>)
    ensures
        r == Sum6::<A, B, C, D, E, F>::Fifth(x),
{
    Sum6::Fifth(x)
}

/// Wraps a value as the sixth variant of [`Sum6`].
pub(crate) fn sum6_sixth<A, B, C, D, E, F>(x: F) -> (r: Sum6<A, B, C, D, E, F>)
    ensures
        r == Sum6::<A, B, C, D, E, F>::Sixth(x),
{
    Sum6::Sixth(x)
}

/// Identifies the state/command/event: the string key of the logical entity
/// the value belongs to, for example the `order_id`.
pub trait Identifier {
    /// The mathematical identifier of the value.  A verified implementation
    /// overrides this; the default leaves the identifier unspecified.
    open spec fn id_spec(&self) -> Seq<char> {
        arbitrary()
    }

    /// Returns the identifier of the value.
    fn identifier(&self) -> (r: String)
        ensures
            r@ == self.id_spec(),
    ;
}

impl<A: Identifier, B: Identifier> Identifier for Sum<A, B> {
    open spec fn id_spec(&self) -> Seq<char> {
        match self {
            Sum::First(a) => a.id_spec(),
            Sum::Second(b) => b.id_spec(),
        }
    }

    fn identifier(&self) -> (r: String) {
        match self {
            Sum::First(a) => a.identifier(),
            Sum::Second(b) => b.identifier(),
        }
    }
}

/// A sum delegates its identifier to whichever variant is present: wrapping a
/// value in [`Sum`] never changes what entity it identifies.
pub proof fn lemma_sum_identifier_passthrough<A: Identifier, B: Identifier>(x: A, y: B)
    ensures
        Sum::<A, B>::First(x).id_spec() == x.id_spec(),
        Sum::<A, B>::Second(y).id_spec() == y.id_spec(),
{
}

} // verus!
