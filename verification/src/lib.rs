//! The discrete core of a two-dimensional n-body toy universe: the closed set
//! of body categories with the attributes each one fixes, the plan of the
//! opening scenario, the order in which pairs of bodies interact, and the
//! bookkeeping of the body collection (eviction, picking and lookup).
//!
//! Everything here works on whole numbers, flags and categories; quantities
//! with a fraction are kept exact, as a whole number over a divisor. The
//! numeric integration itself is carried out by the caller, which asks this
//! crate what exists, what to visit next and what stays.

pub mod quantity;
pub mod objects;
pub mod gravity;
pub mod random;
pub mod scenario;
pub mod composition;
pub mod universe;
