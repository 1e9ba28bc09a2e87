//! An integer max-register: the canonical domain type for both replication
//! styles.
//!
//! As a state-based payload, `i32` under the usual order is a
//! join-semilattice with the maximum as least upper bound; `merge` of two
//! replica values keeps the larger one. As an operation-based payload it
//! simply applies the caller-supplied phases to the held integer.

use crate::ops_based::OpsBased;
use crate::state_based::Semilattice;
use crate::state_based::StateBased;
use vstd::prelude::*;

verus! {

impl Semilattice for i32 {
    open spec fn le(self, other: i32) -> bool {
        self <= other
    }

    open spec fn lub(self, other: i32) -> i32 {
        if self >= other {
            self
        } else {
            other
        }
    }

    proof fn lub_idempotent(x: i32) {
    }

    proof fn lub_commutative(x: i32, y: i32) {
    }

    proof fn lub_associative(x: i32, y: i32, z: i32) {
    }

    proof fn le_iff_lub(x: i32, y: i32) {
    }

    fn compare(&self, other: &i32) -> (r: bool) {
        *self <= *other
    }

    fn merge(&self, other: &i32) -> (r: i32) {
        if *self >= *other {
            *self
        } else {
            *other
        }
    }
}

impl StateBased<i32> for i32 {
    type Error = ();

    open spec fn value(self) -> i32 {
        self
    }

    fn query<Q: FnOnce(&i32) -> Option<i32>>(&self, query: Q) -> (res: Result<Option<i32>, ()>) {
        Ok(query(self))
    }

    fn update<U: FnOnce(&i32) -> (i32, Option<i32>)>(&mut self, update: U) -> (res: Result<
        Option<i32>,
        (),
    >) {
        let (next, r) = update(self);
        *self = next;
        Ok(r)
    }
}

impl OpsBased<i32> for i32 {
    type Args = i32;

    type Error = ();

    open spec fn value(self) -> i32 {
        self
    }

    fn query<Q: FnOnce(&i32) -> Option<i32>>(&self, query: Q) -> (res: Result<Option<i32>, ()>) {
        Ok(query(self))
    }

    fn update<S, D>(&mut self, args: &i32, at_source: S, downstream: D) -> (res: Result<
        Option<i32>,
        (),
    >) where S: FnOnce(&i32, &i32) -> Option<i32>, D: FnOnce(&i32, &i32) -> i32 {
        let r = at_source(self, args);
        let next = downstream(self, args);
        *self = next;
        Ok(r)
    }
}

} // verus!
