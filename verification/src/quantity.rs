//! Quantities of a body that are settled when it is made: fixed, or drawn
//! from a range.
//!
//! Values are kept exact, as whole numbers over a whole divisor, so that
//! `0.05` is `5` per `100` and `2.5` is `25` per `10`.

use vstd::prelude::*;

verus! {

/// A half-open range of values: from `low / per` up to, not including,
/// `high / per`.
#[derive(Debug, Clone, Copy, PartialEq, Eq, Structural)]
pub struct Span {
    pub low: u64,
    pub high: u64,
    pub per: u64,
}

/// A quantity that is either fixed to a whole number or drawn from a span.
#[derive(Debug, Clone, Copy, PartialEq, Eq, Structural)]
pub enum Quantity {
    Exactly(u64),
    Within(Span),
}

impl Span {
    /// A span can be drawn from: it has a divisor and is not empty.
    pub open spec fn well_formed(self) -> bool {
        self.per > 0 && self.low < self.high
    }
}

impl Quantity {
    /// Every span that the quantity may be drawn from can be drawn from.
    pub open spec fn well_formed(self) -> bool {
        match self {
            Quantity::Exactly(value) => true,
            Quantity::Within(span) => span.well_formed(),
        }
    }

    /// Whatever value the quantity takes is above zero.
    pub open spec fn positive(self) -> bool {
        match self {
            Quantity::Exactly(value) => value > 0,
            Quantity::Within(span) => span.low > 0,
        }
    }

    /// Whether the quantity is fixed to zero.
    pub open spec fn is_zero(self) -> bool {
        self == Quantity::Exactly(0)
    }
}

} // verus!
