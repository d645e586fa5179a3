//! Endpoints on a totally ordered value line, and one-sided unbounded rays
//! built from them, with a point-membership test.

use vstd::prelude::*;

use crate::order::strict_lt;
use crate::order::strict_lt_exec;
use crate::order::eq_exec;
use crate::order::TotalOrder;

verus! {

/// An `EndPoint` is a single boundary value on a continuous, totally ordered
/// value line. It may be:
///
///   * `Open`: a boundary that excludes its value;
///   * `Closed`: a boundary that includes its value;
///   * `Undefined`: no boundary at all — the side it stands on extends to
///     infinity.
#[derive(Clone, Copy, Debug)]
pub enum EndPoint<T> {
    Open(T),
    Closed(T),
    Undefined,
}

impl<T> EndPoint<T> {
    /// The boundary value, if the endpoint has one.
    pub fn point(self) -> (r: Option<T>)
        ensures
            r == (match self {
                EndPoint::Open(t) => Some(t),
                EndPoint::Closed(t) => Some(t),
                EndPoint::Undefined => None::<T>,
            }),
    {
        match self {
            EndPoint::Open(t) => Some(t),
            EndPoint::Closed(t) => Some(t),
            EndPoint::Undefined => None,
        }
    }

    /// True exactly when the endpoint carries a boundary value
    /// (`Open` or `Closed`).
    pub fn is_defined(&self) -> (r: bool)
        ensures
            r == !(self is Undefined),
    {
        match self {
            EndPoint::Open(_) => true,
            EndPoint::Closed(_) => true,
            EndPoint::Undefined => false,
        }
    }

    /// True exactly when the endpoint is `Undefined`; the exact complement
    /// of `is_defined`.
    pub fn is_undefined(&self) -> (r: bool)
        ensures
            r == (self is Undefined),
    {
        !self.is_defined()
    }

    /// Transforms the boundary value with `op`, keeping the openness tag:
    /// `Open` stays `Open`, `Closed` stays `Closed`, and `Undefined` stays
    /// `Undefined` without `op` ever being called.
    pub fn map<U, F: Fn(T) -> U>(self, op: F) -> (r: EndPoint<U>)
        requires
            forall|t: T| (self == EndPoint::Open(t) || self == EndPoint::Closed(t))
                ==> op.requires((t,)),
        ensures
            match self {
                EndPoint::Open(t) => r matches EndPoint::Open(u) && op.ensures((t,), u),
                EndPoint::Closed(t) => r matches EndPoint::Closed(u) && op.ensures((t,), u),
                EndPoint::Undefined => r is Undefined,
            },
    {
        match self {
            EndPoint::Open(t) => EndPoint::Open(op(t)),
            EndPoint::Closed(t) => EndPoint::Closed(op(t)),
            EndPoint::Undefined => EndPoint::Undefined,
        }
    }
}

impl<T: TotalOrder> PartialEq for EndPoint<T> {
    fn eq(&self, other: &Self) -> (r: bool) {
        match (self, other) {
            (EndPoint::Open(l), EndPoint::Open(r)) => eq_exec(l, r),
            (EndPoint::Closed(l), EndPoint::Closed(r)) => eq_exec(l, r),
            (EndPoint::Undefined, EndPoint::Undefined) => true,
            _ => false,
        }
    }
}

impl<T: TotalOrder> vstd::std_specs::cmp::PartialEqSpecImpl for EndPoint<T> {
    open spec fn obeys_eq_spec() -> bool {
        true
    }

    open spec fn eq_spec(&self, other: &Self) -> bool {
        *self == *other
    }
}

/// A `Bound` is an endpoint tagged with its role inside an interval: a
/// `Lower` bound constrains the value line from below, an `Upper` bound from
/// above. The tag alone changes nothing about how the wrapped endpoint
/// compares; direction matters only to the types that interpret it.
#[derive(Clone, Copy, Debug)]
pub enum Bound<T> {
    Lower(EndPoint<T>),
    Upper(EndPoint<T>),
}

/// A `Ray` is a one-sided unbounded range on the value line:
///
///   * `GreaterRay`: every point at or above its endpoint, up to +infinity;
///   * `LesserRay`: every point at or below its endpoint, down to −infinity.
///
/// An `Undefined` endpoint makes the ray the whole line.
#[derive(Clone, Copy, Debug)]
pub enum Ray<T> {
    GreaterRay(EndPoint<T>),
    LesserRay(EndPoint<T>),
}

impl<T: TotalOrder> PartialEq for Ray<T> {
    fn eq(&self, other: &Self) -> (r: bool) {
        match (self, other) {
            (Ray::GreaterRay(a), Ray::GreaterRay(b)) => *a == *b,
            (Ray::LesserRay(a), Ray::LesserRay(b)) => *a == *b,
            _ => false,
        }
    }
}

impl<T: TotalOrder> vstd::std_specs::cmp::PartialEqSpecImpl for Ray<T> {
    open spec fn obeys_eq_spec() -> bool {
        true
    }

    open spec fn eq_spec(&self, other: &Self) -> bool {
        *self == *other
    }
}

impl<T: TotalOrder> Ray<T> {
    /// Which points the ray covers: a `GreaterRay` reaches up from its
    /// endpoint (strictly above an `Open` one), a `LesserRay` reaches down,
    /// and an `Undefined` endpoint covers every point.
    pub open spec fn contains_spec(self, point: T) -> bool {
        match self {
            Ray::GreaterRay(EndPoint::Undefined) => true,
            Ray::GreaterRay(EndPoint::Open(b)) => strict_lt(b, point),
            Ray::GreaterRay(EndPoint::Closed(b)) => b.le(point),
            Ray::LesserRay(EndPoint::Undefined) => true,
            Ray::LesserRay(EndPoint::Open(b)) => strict_lt(point, b),
            Ray::LesserRay(EndPoint::Closed(b)) => point.le(b),
        }
    }

    /// Point-membership test. Total: every variant of ray and endpoint is
    /// decided, and the answer is exactly `contains_spec`.
    pub fn contains(&self, point: &T) -> (r: bool)
        ensures
            r == self.contains_spec(*point),
    {
        match self {
            Ray::GreaterRay(EndPoint::Undefined) => true,
            Ray::GreaterRay(EndPoint::Open(b)) => strict_lt_exec(b, point),
            Ray::GreaterRay(EndPoint::Closed(b)) => b.le_exec(point),
            Ray::LesserRay(EndPoint::Undefined) => true,
            Ray::LesserRay(EndPoint::Open(b)) => strict_lt_exec(point, b),
            Ray::LesserRay(EndPoint::Closed(b)) => point.le_exec(b),
        }
    }
}

/// The membership property handed to a randomized driver: whether `ray`
/// covers `element`.
pub fn ray_contains(ray: Ray<i64>, element: i64) -> (r: bool)
    ensures
        r == ray.contains_spec(element),
{
    ray.contains(&element)
}

/// A ray with an `Undefined` endpoint covers every point, in either
/// direction.
pub proof fn lemma_undefined_ray_contains_all<T: TotalOrder>(p: T)
    ensures
        Ray::GreaterRay(EndPoint::<T>::Undefined).contains_spec(p),
        Ray::LesserRay(EndPoint::<T>::Undefined).contains_spec(p),
{
}

/// A `GreaterRay` over an `Open` endpoint covers exactly the points strictly
/// above the boundary: any `p` with `b` strictly below it is covered, and the
/// boundary value itself never is.
pub proof fn lemma_greater_ray_open<T: TotalOrder>(b: T, p: T)
    ensures
        strict_lt(b, p) ==> Ray::GreaterRay(EndPoint::Open(b)).contains_spec(p),
        !Ray::GreaterRay(EndPoint::Open(p)).contains_spec(p),
{
}

/// A `GreaterRay` over a `Closed` endpoint covers every point at or above
/// the boundary, the boundary value included (reflexive inclusion).
pub proof fn lemma_greater_ray_closed<T: TotalOrder>(b: T, p: T)
    ensures
        b.le(p) ==> Ray::GreaterRay(EndPoint::Closed(b)).contains_spec(p),
        Ray::GreaterRay(EndPoint::Closed(b)).contains_spec(b),
{
    T::lemma_le_reflexive(b);
}

/// Mirror of `lemma_greater_ray_open`: a `LesserRay` over an `Open` endpoint
/// covers exactly the points strictly below the boundary.
pub proof fn lemma_lesser_ray_open<T: TotalOrder>(b: T, p: T)
    ensures
        strict_lt(p, b) ==> Ray::LesserRay(EndPoint::Open(b)).contains_spec(p),
        !Ray::LesserRay(EndPoint::Open(p)).contains_spec(p),
{
}

/// Mirror of `lemma_greater_ray_closed`: a `LesserRay` over a `Closed`
/// endpoint covers every point at or below the boundary, the boundary
/// value included.
pub proof fn lemma_lesser_ray_closed<T: TotalOrder>(b: T, p: T)
    ensures
        p.le(b) ==> Ray::LesserRay(EndPoint::Closed(b)).contains_spec(p),
        Ray::LesserRay(EndPoint::Closed(b)).contains_spec(b),
{
    T::lemma_le_reflexive(b);
}

} // verus!
