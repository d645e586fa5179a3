//! The total order that endpoint values are compared by.

use vstd::prelude::*;

verus! {

/// A total order on `Self`, supplied by the value type over which endpoints,
/// intervals and rays are built. The four lemmas oblige every implementor to
/// prove that `le` really is a reflexive, transitive, antisymmetric and total
/// relation, so everything proved about intervals and rays holds for any
/// implementing type.
pub trait TotalOrder: Sized {
    /// `self` comes before `other`, or equals it.
    spec fn le(self, other: Self) -> bool;

    proof fn lemma_le_reflexive(a: Self)
        ensures
            a.le(a),
    ;

    proof fn lemma_le_transitive(a: Self, b: Self, c: Self)
        requires
            a.le(b),
            b.le(c),
        ensures
            a.le(c),
    ;

    proof fn lemma_le_antisymmetric(a: Self, b: Self)
        requires
            a.le(b),
            b.le(a),
        ensures
            a == b,
    ;

    proof fn lemma_le_total(a: Self, b: Self)
        ensures
            a.le(b) || b.le(a),
    ;

    /// Executable decision procedure for `le`.
    fn le_exec(&self, other: &Self) -> (r: bool)
        ensures
            r == self.le(*other),
    ;
}

/// `a` comes strictly before `b` under the total order.
pub open spec fn strict_lt<T: TotalOrder>(a: T, b: T) -> bool {
    a.le(b) && a != b
}

/// Executable decision procedure for `strict_lt`.
pub fn strict_lt_exec<T: TotalOrder>(a: &T, b: &T) -> (r: bool)
    ensures
        r == strict_lt(*a, *b),
{
    let le_ab = a.le_exec(b);
    let le_ba = b.le_exec(a);
    proof {
        if le_ab && le_ba {
            T::lemma_le_antisymmetric(*a, *b);
        }
        if *a == *b {
            T::lemma_le_reflexive(*a);
        }
    }
    le_ab && !le_ba
}

/// Executable equality test, decided through `le` in both directions.
pub fn eq_exec<T: TotalOrder>(a: &T, b: &T) -> (r: bool)
    ensures
        r == (*a == *b),
{
    let le_ab = a.le_exec(b);
    let le_ba = b.le_exec(a);
    proof {
        if le_ab && le_ba {
            T::lemma_le_antisymmetric(*a, *b);
        }
        if *a == *b {
            T::lemma_le_reflexive(*a);
        }
    }
    le_ab && le_ba
}

impl TotalOrder for i64 {
    open spec fn le(self, other: Self) -> bool {
        self <= other
    }

    proof fn lemma_le_reflexive(a: Self) {
    }

    proof fn lemma_le_transitive(a: Self, b: Self, c: Self) {
    }

    proof fn lemma_le_antisymmetric(a: Self, b: Self) {
    }

    proof fn lemma_le_total(a: Self, b: Self) {
    }

    fn le_exec(&self, other: &Self) -> (r: bool) {
        *self <= *other
    }
}

} // verus!
