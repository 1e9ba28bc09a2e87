//! State-based (convergent) replication.
//!
//! A replica updates its value locally, in a single synchronous phase, and
//! the replication layer later ships the whole value to the other replicas,
//! where it is joined into the local value by [`Semilattice::merge`]. Because
//! the join is idempotent, commutative and associative, delivery may be
//! unordered and at-least-once: repeated or reordered merges never corrupt
//! state. The lemmas at the end of this module prove exactly that.

use vstd::prelude::*;

verus! {

/// A join-semilattice over `Self`: a partial order with a least upper bound.
///
/// `le` and `lub` are the specification-level order and join; `compare` and
/// `merge` are their executable counterparts, pinned to them by contract.
/// An implementation must prove the four laws; they are what makes
/// merge-based replication converge no matter in which order, or how often,
/// the replicas' values are exchanged.
pub trait Semilattice: Sized {
    /// Specification-level partial order: `self` is at or below `other`.
    spec fn le(self, other: Self) -> bool;

    /// Specification-level least upper bound (join) of `self` and `other`.
    spec fn lub(self, other: Self) -> Self;

    /// Law: joining a value with itself gives the value back.
    proof fn lub_idempotent(x: Self)
        ensures
            x.lub(x) == x,
    ;

    /// Law: the join does not depend on the order of its arguments.
    proof fn lub_commutative(x: Self, y: Self)
        ensures
            x.lub(y) == y.lub(x),
    ;

    /// Law: the join is associative.
    proof fn lub_associative(x: Self, y: Self, z: Self)
        ensures
            x.lub(y).lub(z) == x.lub(y.lub(z)),
    ;

    /// Law: the order is definable from the join: `x` is at or below `y`
    /// exactly when joining `x` into `y` changes nothing.
    proof fn le_iff_lub(x: Self, y: Self)
        ensures
            x.le(y) <==> x.lub(y) == y,
    ;

    /// Executable order test: true iff `self` is at or below `other`.
    fn compare(&self, other: &Self) -> (r: bool)
        ensures
            r == self.le(*other),
    ;

    /// Executable least-upper-bound join of `self` and `other`.
    fn merge(&self, other: &Self) -> (r: Self)
        ensures
            r == self.lub(*other),
    ;
}

/// The state-based update contract a domain type implements.
///
/// `query` evaluates a caller-supplied function over the replica value and
/// has no side effects; `update` applies a caller-supplied function that
/// produces the next value together with an optional result, synchronously
/// and at the source replica only. Nothing is shipped here: the replication
/// layer later takes the whole value and merges it elsewhere. A typed
/// domain error is propagated to the caller unchanged; "precondition not
/// met" is not an error and is expressed by the supplied function returning
/// the value unchanged with no result.
pub trait StateBased<T>: Sized {
    /// The typed domain error this payload can signal.
    type Error;

    /// The replica value this state presents to queries and updates.
    spec fn value(self) -> T;

    /// Evaluate `query` over the replica value, without side effects.
    fn query<Q: FnOnce(&T) -> Option<T>>(&self, query: Q) -> (res: Result<Option<T>, Self::Error>)
        requires
            call_requires(query, (&self.value(),)),
        ensures
            res matches Ok(r) ==> call_ensures(query, (&self.value(),), r),
    ;

    /// Apply `update` to the replica value: the first component of its
    /// result becomes the new value, the second is handed to the caller.
    fn update<U: FnOnce(&T) -> (T, Option<T>)>(&mut self, update: U) -> (res: Result<
        Option<T>,
        Self::Error,
    >)
        requires
            call_requires(update, (&old(self).value(),)),
        ensures
            res matches Ok(r) ==> call_ensures(update, (&old(self).value(),), (final(self).value(), r)),
    ;
}

/// One replica's current value, for the state-based style.
///
/// A thin container: queries and updates are caller-supplied functions over
/// the held value, and the container itself knows nothing of replication.
/// An update may only strengthen the value with respect to the lattice
/// order; that is what keeps out-of-band merging convergent.
#[derive(Debug, Clone, PartialEq, Eq)]
pub struct Payload<T> {
    initial: T,
}

impl<T> Payload<T> {
    /// The held replica value, for specifications.
    pub closed spec fn current(self) -> T {
        self.initial
    }

    /// Create the payload with its initial value, at replica bootstrap.
    pub fn new(initial: T) -> (p: Self)
        ensures
            p.current() == initial,
    {
        Payload { initial }
    }

    /// Read access to the held replica value.
    pub fn value(&self) -> (r: &T)
        ensures
            *r == self.current(),
    {
        &self.initial
    }
}

impl<T: Semilattice + StateBased<T>> Payload<T> {
    /// Evaluate `query` over the replica value; pure, never fails.
    pub fn query<Q: FnOnce(&T) -> Option<T>>(&self, query: Q) -> (res: Result<
        Option<T>,
        T::Error,
    >)
        requires
            call_requires(query, (&self.current(),)),
        ensures
            res matches Ok(r) && call_ensures(query, (&self.current(),), r),
    {
        Ok(query(&self.initial))
    }

    /// Apply `update` to the replica value, synchronously at the source.
    ///
    /// The supplied function must only strengthen the value with respect to
    /// the lattice order; the new value is therefore at or above the old one.
    pub fn update<U: FnOnce(&T) -> (T, Option<T>)>(&mut self, update: U) -> (res: Result<
        Option<T>,
        T::Error,
    >)
        requires
            call_requires(update, (&old(self).current(),)),
            forall|next: T, r: Option<T>|
                call_ensures(update, (&old(self).current(),), (next, r)) ==> old(self).current().le(
                    next,
                ),
        ensures
            res matches Ok(r) && call_ensures(update, (&old(self).current(),), (final(self).current(), r)),
            old(self).current().le(final(self).current()),
    {
        let (next, r) = update(&self.initial);
        self.initial = next;
        Ok(r)
    }
}

/// The lattice order is reflexive.
pub proof fn lemma_le_reflexive<T: Semilattice>(x: T)
    ensures
        x.le(x),
{
    T::lub_idempotent(x);
    T::le_iff_lub(x, x);
}

/// The lattice order is transitive.
pub proof fn lemma_le_transitive<T: Semilattice>(x: T, y: T, z: T)
    requires
        x.le(y),
        y.le(z),
    ensures
        x.le(z),
{
    T::le_iff_lub(x, y);
    T::le_iff_lub(y, z);
    T::lub_associative(x, y, z);
    T::le_iff_lub(x, z);
}

/// The lattice order is antisymmetric.
pub proof fn lemma_le_antisymmetric<T: Semilattice>(x: T, y: T)
    requires
        x.le(y),
        y.le(x),
    ensures
        x == y,
{
    T::le_iff_lub(x, y);
    T::le_iff_lub(y, x);
    T::lub_commutative(x, y);
}

/// The join is an upper bound of both of its arguments (monotonicity of
/// `merge` with respect to `compare`).
pub proof fn lemma_lub_upper_bound<T: Semilattice>(x: T, y: T)
    ensures
        x.le(x.lub(y)),
        y.le(x.lub(y)),
{
    T::lub_idempotent(x);
    T::lub_associative(x, x, y);
    T::le_iff_lub(x, x.lub(y));
    T::lub_commutative(x, y);
    T::lub_idempotent(y);
    T::lub_associative(y, y, x);
    T::le_iff_lub(y, y.lub(x));
}

/// Merging the same shipped value twice is the same as merging it once:
/// at-least-once delivery cannot corrupt a state-based replica.
pub proof fn lemma_merge_duplicate<T: Semilattice>(s: T, u: T)
    ensures
        s.lub(u).lub(u) == s.lub(u),
{
    T::lub_associative(s, u, u);
    T::lub_idempotent(u);
}

/// Merging two shipped values in either order leaves the replica in the same
/// state: delivery of state-based updates needs no ordering guarantee.
pub proof fn lemma_merge_unordered<T: Semilattice>(s: T, u1: T, u2: T)
    ensures
        s.lub(u1).lub(u2) == s.lub(u2).lub(u1),
{
    T::lub_associative(s, u1, u2);
    T::lub_commutative(u1, u2);
    T::lub_associative(s, u2, u1);
}

} // verus!
