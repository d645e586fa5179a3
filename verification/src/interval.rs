//! Bounded (possibly unbounded on either side) intervals on a totally
//! ordered value line, ordered by their lower edge.

use vstd::prelude::*;

use crate::order::eq_exec;
use crate::order::strict_lt;
use crate::order::strict_lt_exec;
use crate::order::TotalOrder;

verus! {

/// One edge of an interval: a boundary value that excludes (`Open`) or
/// includes (`Closed`) its value, or no boundary at all (`Unbounded`).
#[derive(Clone, Copy, Debug)]
pub enum Bound<T> {
    Open(T),
    Closed(T),
    Unbounded,
}

/// A contiguous range on the value line, written as its lower edge followed
/// by its upper edge. An `Unbounded` edge extends to infinity on its side.
///
/// Well-formedness is the caller's duty: when both edges carry a value, the
/// lower one must not exceed the upper one, or comparison results are
/// unspecified.
///
/// Intervals are ordered solely by their lower edge: an `Unbounded` lower
/// edge comes before every bounded one, and at equal boundary values a
/// `Closed` edge comes strictly before an `Open` one (the closed edge covers
/// its value, which lies below everything strictly above it). Two intervals
/// whose lower edges tie are order-equal even when their upper edges differ;
/// the upper edge deliberately never breaks ties.
#[derive(Clone, Copy, Debug)]
pub struct Interval<T>(pub Bound<T>, pub Bound<T>);

/// The tie-break table for lower edges: `a` comes strictly before `b`.
/// `Unbounded` is the minimum and never below itself; among bounded edges
/// the boundary values decide, strictly everywhere but for a `Closed` edge
/// against an `Open` one, where equal values already put the closed edge
/// first.
pub open spec fn lower_edge_lt<T: TotalOrder>(a: Bound<T>, b: Bound<T>) -> bool {
    match (a, b) {
        (Bound::Unbounded, Bound::Unbounded) => false,
        (Bound::Unbounded, _) => true,
        (_, Bound::Unbounded) => false,
        (Bound::Open(l), Bound::Open(r)) => strict_lt(l, r),
        (Bound::Open(l), Bound::Closed(r)) => strict_lt(l, r),
        (Bound::Closed(l), Bound::Open(r)) => l.le(r),
        (Bound::Closed(l), Bound::Closed(r)) => strict_lt(l, r),
    }
}

/// Executable decision procedure for `lower_edge_lt`.
pub fn lower_edge_lt_exec<T: TotalOrder>(a: &Bound<T>, b: &Bound<T>) -> (r: bool)
    ensures
        r == lower_edge_lt(*a, *b),
{
    match (a, b) {
        (Bound::Unbounded, Bound::Unbounded) => false,
        (Bound::Unbounded, _) => true,
        (_, Bound::Unbounded) => false,
        (Bound::Open(l), Bound::Open(r)) => strict_lt_exec(l, r),
        (Bound::Open(l), Bound::Closed(r)) => strict_lt_exec(l, r),
        (Bound::Closed(l), Bound::Open(r)) => l.le_exec(r),
        (Bound::Closed(l), Bound::Closed(r)) => strict_lt_exec(l, r),
    }
}

/// At most one of `lower_edge_lt(a, b)` and `lower_edge_lt(b, a)` holds.
pub proof fn lemma_lower_edge_lt_asymmetric<T: TotalOrder>(a: Bound<T>, b: Bound<T>)
    ensures
        !(lower_edge_lt(a, b) && lower_edge_lt(b, a)),
{
    if lower_edge_lt(a, b) && lower_edge_lt(b, a) {
        match (a, b) {
            (Bound::Open(l), Bound::Open(r)) => T::lemma_le_antisymmetric(l, r),
            (Bound::Open(l), Bound::Closed(r)) => T::lemma_le_antisymmetric(l, r),
            (Bound::Closed(l), Bound::Open(r)) => T::lemma_le_antisymmetric(l, r),
            (Bound::Closed(l), Bound::Closed(r)) => T::lemma_le_antisymmetric(l, r),
            _ => (),
        }
    }
}

/// `lower_edge_lt` is transitive.
pub proof fn lemma_lower_edge_lt_transitive<T: TotalOrder>(a: Bound<T>, b: Bound<T>, c: Bound<T>)
    requires
        lower_edge_lt(a, b),
        lower_edge_lt(b, c),
    ensures
        lower_edge_lt(a, c),
{
    match (a, b, c) {
        (Bound::Open(l) | Bound::Closed(l), Bound::Open(m) | Bound::Closed(m), Bound::Open(n)
            | Bound::Closed(n)) => {
            T::lemma_le_transitive(l, m, n);
            if l == n {
                // Both edge values tie, so the two hypotheses squeeze `m`
                // between equal values; whichever rule each hypothesis used,
                // that contradicts at least one of them being satisfiable.
                T::lemma_le_antisymmetric(l, m);
                T::lemma_le_antisymmetric(m, n);
            }
        },
        _ => (),
    }
}

/// Two lower edges tie (neither comes strictly before the other) exactly
/// when they are the same edge: the same variant carrying an equal value,
/// or both `Unbounded`. In particular an `Open` and a `Closed` edge never
/// tie, whatever their values.
pub proof fn lemma_lower_edge_tie_is_equality<T: TotalOrder>(a: Bound<T>, b: Bound<T>)
    ensures
        (!lower_edge_lt(a, b) && !lower_edge_lt(b, a)) <==> a == b,
{
    match (a, b) {
        (Bound::Open(l), Bound::Open(r)) => {
            T::lemma_le_total(l, r);
        },
        (Bound::Closed(l), Bound::Closed(r)) => {
            T::lemma_le_total(l, r);
        },
        (Bound::Open(l), Bound::Closed(r)) => {
            T::lemma_le_total(l, r);
            T::lemma_le_reflexive(l);
        },
        (Bound::Closed(l), Bound::Open(r)) => {
            T::lemma_le_total(l, r);
            T::lemma_le_reflexive(l);
        },
        _ => (),
    }
}

impl<T: TotalOrder> Interval<T> {
    /// Strict order on intervals: the order of their lower edges.
    pub open spec fn lt_spec(self, other: Self) -> bool {
        lower_edge_lt(self.0, other.0)
    }

    /// Non-strict order on intervals: `other` does not come strictly
    /// before `self`.
    pub open spec fn le_spec(self, other: Self) -> bool {
        !other.lt_spec(self)
    }
}

impl<T: TotalOrder> PartialEq for Bound<T> {
    fn eq(&self, other: &Self) -> (r: bool) {
        match (self, other) {
            (Bound::Open(l), Bound::Open(r)) => eq_exec(l, r),
            (Bound::Closed(l), Bound::Closed(r)) => eq_exec(l, r),
            (Bound::Unbounded, Bound::Unbounded) => true,
            _ => false,
        }
    }
}

impl<T: TotalOrder> vstd::std_specs::cmp::PartialEqSpecImpl for Bound<T> {
    open spec fn obeys_eq_spec() -> bool {
        true
    }

    open spec fn eq_spec(&self, other: &Self) -> bool {
        *self == *other
    }
}

impl<T: TotalOrder> PartialEq for Interval<T> {
    fn eq(&self, other: &Self) -> (r: bool) {
        self.0 == other.0 && self.1 == other.1
    }
}

impl<T: TotalOrder> vstd::std_specs::cmp::PartialEqSpecImpl for Interval<T> {
    open spec fn obeys_eq_spec() -> bool {
        true
    }

    open spec fn eq_spec(&self, other: &Self) -> bool {
        *self == *other
    }
}

impl<T: TotalOrder> PartialOrd for Interval<T> {
    fn partial_cmp(&self, other: &Self) -> (r: Option<core::cmp::Ordering>) {
        if lower_edge_lt_exec(&self.0, &other.0) {
            Some(core::cmp::Ordering::Less)
        } else if lower_edge_lt_exec(&other.0, &self.0) {
            Some(core::cmp::Ordering::Greater)
        } else {
            Some(core::cmp::Ordering::Equal)
        }
    }

    fn lt(&self, other: &Self) -> (r: bool) {
        proof {
            lemma_lower_edge_lt_asymmetric(self.0, other.0);
        }
        lower_edge_lt_exec(&self.0, &other.0)
    }

    fn le(&self, other: &Self) -> (r: bool) {
        proof {
            lemma_lower_edge_lt_asymmetric(self.0, other.0);
        }
        !lower_edge_lt_exec(&other.0, &self.0)
    }

    fn gt(&self, other: &Self) -> (r: bool) {
        proof {
            lemma_lower_edge_lt_asymmetric(self.0, other.0);
        }
        lower_edge_lt_exec(&other.0, &self.0)
    }

    fn ge(&self, other: &Self) -> (r: bool) {
        proof {
            lemma_lower_edge_lt_asymmetric(self.0, other.0);
        }
        !lower_edge_lt_exec(&self.0, &other.0)
    }
}

impl<T: TotalOrder> vstd::std_specs::cmp::PartialOrdSpecImpl for Interval<T> {
    open spec fn obeys_partial_cmp_spec() -> bool {
        true
    }

    open spec fn partial_cmp_spec(&self, other: &Self) -> Option<core::cmp::Ordering> {
        if self.lt_spec(*other) {
            Some(core::cmp::Ordering::Less)
        } else if other.lt_spec(*self) {
            Some(core::cmp::Ordering::Greater)
        } else {
            Some(core::cmp::Ordering::Equal)
        }
    }
}

/// Reflexivity: no interval comes strictly before itself, and every interval
/// comes non-strictly before itself.
pub proof fn lemma_interval_lt_irreflexive<T: TotalOrder>(x: Interval<T>)
    ensures
        !x.lt_spec(x),
        x.le_spec(x),
{
}

/// Asymmetry: no two intervals come strictly before each other.
pub proof fn lemma_interval_lt_asymmetric<T: TotalOrder>(x: Interval<T>, y: Interval<T>)
    ensures
        !(x.lt_spec(y) && y.lt_spec(x)),
{
    lemma_lower_edge_lt_asymmetric(x.0, y.0);
}

/// Transitivity of the strict interval order.
pub proof fn lemma_interval_lt_transitive<T: TotalOrder>(
    x: Interval<T>,
    y: Interval<T>,
    z: Interval<T>,
)
    requires
        x.lt_spec(y),
        y.lt_spec(z),
    ensures
        x.lt_spec(z),
{
    lemma_lower_edge_lt_transitive(x.0, y.0, z.0);
}

/// Transitivity of the non-strict order.
pub proof fn lemma_interval_le_transitive<T: TotalOrder>(
    x: Interval<T>,
    y: Interval<T>,
    z: Interval<T>,
)
    requires
        x.le_spec(y),
        y.le_spec(z),
    ensures
        x.le_spec(z),
{
    lemma_lower_edge_tie_is_equality(x.0, y.0);
    lemma_lower_edge_tie_is_equality(y.0, z.0);
    if lower_edge_lt(x.0, y.0) && lower_edge_lt(y.0, z.0) {
        lemma_lower_edge_lt_transitive(x.0, y.0, z.0);
    }
    lemma_lower_edge_lt_asymmetric(x.0, z.0);
}

/// Antisymmetry, up to order-equality: two intervals each non-strictly
/// below the other have the same lower edge, though their upper edges may
/// differ.
pub proof fn lemma_interval_le_antisymmetric_on_lower_edges<T: TotalOrder>(
    x: Interval<T>,
    y: Interval<T>,
)
    requires
        x.le_spec(y),
        y.le_spec(x),
    ensures
        x.0 == y.0,
{
    lemma_lower_edge_tie_is_equality(x.0, y.0);
}

/// Totality of the non-strict order: any two intervals are comparable.
pub proof fn lemma_interval_le_total<T: TotalOrder>(x: Interval<T>, y: Interval<T>)
    ensures
        x.le_spec(y) || y.le_spec(x),
{
    lemma_lower_edge_lt_asymmetric(x.0, y.0);
}

/// Minimality: the fully unbounded interval comes non-strictly before every
/// interval.
pub proof fn lemma_unbounded_interval_minimal<T: TotalOrder>(y: Interval<T>)
    ensures
        Interval(Bound::<T>::Unbounded, Bound::<T>::Unbounded).le_spec(y),
{
}

/// Strict ordering by lower edge value: an interval whose lower edge is
/// `Open` at `l` comes strictly before one whose lower edge is `Open` at a
/// strictly greater `r`, whatever the upper edges are.
pub proof fn lemma_open_lower_edges_ordered_by_value<T: TotalOrder>(
    l: T,
    r: T,
    a: Bound<T>,
    b: Bound<T>,
)
    requires
        strict_lt(l, r),
    ensures
        Interval(Bound::Open(l), a).lt_spec(Interval(Bound::Open(r), b)),
{
}

/// The open/closed tie-break at one boundary value `v`, whatever the upper
/// edges are: a `Closed` lower edge comes strictly before an `Open` lower
/// edge at the same value, the `Open` one never comes strictly before the
/// `Closed` one, and so the `Closed`-edged interval is non-strictly below
/// the `Open`-edged one.
pub proof fn lemma_closed_before_open_at_equal_value<T: TotalOrder>(v: T, a: Bound<T>, b: Bound<T>)
    ensures
        Interval(Bound::Closed(v), a).lt_spec(Interval(Bound::Open(v), b)),
        !Interval(Bound::Open(v), a).lt_spec(Interval(Bound::Closed(v), b)),
        Interval(Bound::Closed(v), a).le_spec(Interval(Bound::Open(v), b)),
{
    T::lemma_le_reflexive(v);
}

} // verus!
