//! One-dimensional ranges over a totally ordered value type: bounded
//! intervals ordered by their lower edge, and one-sided unbounded rays
//! with a point-membership test.

pub mod interval;
pub mod order;
pub mod ray;
