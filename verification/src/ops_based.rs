//! Operation-based (commutative) replication.
//!
//! An update runs in two phases. `atSource` executes synchronously at the
//! source replica, has no side effects, and derives from the caller's
//! arguments the operation to broadcast (and an optional result for the
//! caller). `downstream` executes asynchronously at every replica, the
//! source included, and applies the side effect. Delivery of downstream
//! operations must respect each operation's causal precondition; operations
//! not related causally may arrive in any order, and the convergence lemma
//! at the end of this module shows that applying the same collection of
//! mutually commuting operations in any order yields the same value.

use vstd::prelude::*;
use vstd::seq_lib::group_to_multiset_ensures;

verus! {

/// The operation-based update contract a domain type implements.
///
/// `query` evaluates a caller-supplied function over the replica value and
/// has no side effects. `update` sequences the two phases of an update over
/// the replica value. A typed domain error is propagated to the caller
/// unchanged; a failed `atSource` precondition is not an error and is
/// expressed by the phase returning no operation.
pub trait OpsBased<T>: Sized {
    /// The seed an update starts from: `atSource` derives from it the
    /// operation that is shipped downstream.
    type Args;

    /// The typed domain error this payload can signal.
    type Error;

    /// The replica value this state presents to queries and updates.
    spec fn value(self) -> T;

    /// Evaluate `query` over the replica value, without side effects.
    fn query<Q: FnOnce(&T) -> Option<T>>(&self, query: Q) -> (res: Result<Option<T>, Self::Error>)
        requires
            call_requires(query, (&self.value(),)),
        ensures
            res matches Ok(r) ==> call_ensures(query, (&self.value(),), r),
    ;

    /// Run one update: first `at_source` over the unchanged value, then
    /// `downstream`, whose result becomes the new value.
    fn update<S, D>(&mut self, args: &Self::Args, at_source: S, downstream: D) -> (res: Result<
        Option<T>,
        Self::Error,
    >) where S: FnOnce(&T, &Self::Args) -> Option<T>, D: FnOnce(&T, &Self::Args) -> T
        requires
            call_requires(at_source, (&old(self).value(), args)),
            call_requires(downstream, (&old(self).value(), args)),
        ensures
            res matches Ok(r) ==> call_ensures(at_source, (&old(self).value(), args), r)
                && call_ensures(downstream, (&old(self).value(), args), final(self).value()),
    ;
}

/// One replica's current value, for the operation-based style.
///
/// A thin container: the two update phases and the queries are
/// caller-supplied functions over the held value, and the container itself
/// knows nothing of replication. Shipping the generated operation to the
/// other replicas, in causal order, is the caller's business.
#[derive(Debug, Clone, PartialEq, Eq)]
pub struct Payload<T> {
    initial: T,
}

impl<T> Payload<T> {
    /// The held replica value, for specifications.
    pub closed spec fn current(self) -> T {
        self.initial
    }

    /// Create the payload with its initial value, at replica bootstrap.
    pub fn new(initial: T) -> (p: Self)
        ensures
            p.current() == initial,
    {
        Payload { initial }
    }

    /// Read access to the held replica value.
    pub fn value(&self) -> (r: &T)
        ensures
            *r == self.current(),
    {
        &self.initial
    }
}

impl<T: OpsBased<T>> Payload<T> {
    /// Evaluate `query` over the replica value, delegating to the domain
    /// type's own query; side-effect-free.
    pub fn query<Q: FnOnce(&T) -> Option<T>>(&self, query: Q) -> (res: Result<
        Option<T>,
        T::Error,
    >)
        requires
            call_requires(query, (&self.current().value(),)),
        ensures
            res matches Ok(r) ==> call_ensures(query, (&self.current().value(),), r),
    {
        self.initial.query(query)
    }

    /// Run one update: `at_source` first, synchronously and without side
    /// effects, producing the caller's result (the operation to broadcast);
    /// then `downstream` against the same value, producing the new value.
    pub fn update<S, D>(&mut self, args: &T::Args, at_source: S, downstream: D) -> (res: Result<
        Option<T>,
        T::Error,
    >) where S: FnOnce(&T, &T::Args) -> Option<T>, D: FnOnce(&T, &T::Args) -> T
        requires
            call_requires(at_source, (&old(self).current(), args)),
            call_requires(downstream, (&old(self).current(), args)),
        ensures
            res matches Ok(r) && call_ensures(at_source, (&old(self).current(), args), r)
                && call_ensures(downstream, (&old(self).current(), args), final(self).current()),
    {
        let r = at_source(&self.initial, args);
        let next = downstream(&self.initial, args);
        self.initial = next;
        Ok(r)
    }
}

/// The value a replica reaches after applying a sequence of downstream
/// operations, each abstracted to the pure state transformer it performs.
pub open spec fn apply_ops<T>(v: T, ops: Seq<spec_fn(T) -> T>) -> T
    decreases ops.len(),
{
    if ops.len() == 0 {
        v
    } else {
        apply_ops((ops[0])(v), ops.drop_first())
    }
}

/// Two operations commute: applied one after the other, in either order,
/// they take every value to the same place.
pub open spec fn commute<T>(f: spec_fn(T) -> T, g: spec_fn(T) -> T) -> bool {
    forall|v: T| #[trigger] f(g(v)) == g(f(v))
}

/// Every two operations of the sequence commute (as operations generated at
/// different replicas without knowledge of each other must).
pub open spec fn pairwise_commuting<T>(ops: Seq<spec_fn(T) -> T>) -> bool {
    forall|i: int, j: int|
        0 <= i < ops.len() && 0 <= j < ops.len() ==> #[trigger] commute(ops[i], ops[j])
}

/// An operation that commutes with everything before it in the sequence can
/// be pulled out and applied first.
proof fn lemma_apply_ops_pull<T>(v: T, ops: Seq<spec_fn(T) -> T>, k: int)
    requires
        0 <= k < ops.len(),
        forall|i: int| 0 <= i < k ==> commute(ops[k], #[trigger] ops[i]),
    ensures
        apply_ops(v, ops) == apply_ops((ops[k])(v), ops.remove(k)),
    decreases k,
{
    if k == 0 {
        assert(ops.remove(0) =~= ops.drop_first());
    } else {
        let f = ops[k];
        let head = ops[0];
        let rest = ops.drop_first();
        assert(forall|i: int| 0 <= i < k - 1 ==> commute(rest[k - 1], #[trigger] rest[i])) by {
            assert(forall|i: int| 0 <= i < k - 1 ==> #[trigger] rest[i] == ops[i + 1]);
        }
        lemma_apply_ops_pull(head(v), rest, k - 1);
        assert(commute(f, head));
        assert((rest[k - 1])(head(v)) == head(f(v)));
        assert(ops.remove(k).drop_first() =~= rest.remove(k - 1));
        assert(apply_ops(f(v), ops.remove(k)) == apply_ops(head(f(v)), rest.remove(k - 1)));
    }
}

/// Convergence of operation-based replication: two replicas that start from
/// the same value and apply the same collection of downstream operations
/// (the same multiset, in whatever order each replica received them) end at
/// the same value, provided the operations commute pairwise. Causally
/// related operations are delivered in their causal order at every replica,
/// so only operations that may be reordered need to commute; here every pair
/// commutes, the case of operations generated concurrently.
pub proof fn lemma_downstream_convergence<T>(
    v: T,
    ops1: Seq<spec_fn(T) -> T>,
    ops2: Seq<spec_fn(T) -> T>,
)
    requires
        ops1.to_multiset() == ops2.to_multiset(),
        pairwise_commuting(ops1),
    ensures
        apply_ops(v, ops1) == apply_ops(v, ops2),
    decreases ops1.len(),
{
    broadcast use group_to_multiset_ensures;

    assert(ops1.len() == ops1.to_multiset().len());
    assert(ops2.len() == ops2.to_multiset().len());
    if ops1.len() > 0 {
        let f = ops1[0];
        assert(ops1.contains(f));
        assert(ops2.to_multiset().count(f) > 0);
        assert(ops2.contains(f));
        let k = choose|k: int| 0 <= k < ops2.len() && ops2[k] == f;
        assert forall|i: int| 0 <= i < k implies commute(ops2[k], #[trigger] ops2[i]) by {
            assert(ops2.contains(ops2[i]));
            assert(ops1.to_multiset().count(ops2[i]) > 0);
            assert(ops1.contains(ops2[i]));
            let j = choose|j: int| 0 <= j < ops1.len() && ops1[j] == ops2[i];
            assert(commute(ops1[0], ops1[j]));
        }
        lemma_apply_ops_pull(v, ops2, k);
        let rest1 = ops1.drop_first();
        assert(ops1.remove(0) =~= rest1);
        assert(rest1.to_multiset() == ops1.to_multiset().remove(f));
        assert(ops2.remove(k).to_multiset() == ops2.to_multiset().remove(f));
        assert(pairwise_commuting(rest1)) by {
            assert(forall|i: int| 0 <= i < rest1.len() ==> #[trigger] rest1[i] == ops1[i + 1]);
        }
        lemma_downstream_convergence(f(v), rest1, ops2.remove(k));
    }
}

} // verus!
