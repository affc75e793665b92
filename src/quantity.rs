//! Exact quantities: a fraction, positive infinity, or an undefined value.

use vstd::prelude::*;

verus! {

/// The fraction `num / den`.
#[derive(Clone, Copy, Debug, PartialEq, Eq, Structural)]
pub struct Ratio {
    pub num: i128,
    pub den: i128,
}

impl Ratio {
    /// A well-formed fraction has a positive denominator.
    pub open spec fn wf(self) -> bool {
        self.den > 0
    }
}

/// A real-valued result that may also be unbounded or undefined, as the
/// quotient of a positive quantity by zero, or zero times infinity, is.
#[derive(Clone, Copy, Debug, PartialEq, Eq, Structural)]
pub enum Quantity {
    Finite(Ratio),
    Infinite,
    Undefined,
}

impl Quantity {
    pub open spec fn wf(self) -> bool {
        match self {
            Quantity::Finite(x) => x.wf(),
            _ => true,
        }
    }

    /// The quantity is finite and equals `n / d` (for a nonzero `d`).
    pub open spec fn is_ratio(self, n: int, d: int) -> bool {
        match self {
            Quantity::Finite(x) => x.num * d == n * x.den,
            _ => false,
        }
    }
}

/// `a >= b` as a comparison of reals extended by infinity, where an
/// undefined operand makes the comparison false.
pub open spec fn at_least(a: Quantity, b: Quantity) -> bool {
    match a {
        Quantity::Undefined => false,
        Quantity::Infinite => !(b is Undefined),
        Quantity::Finite(x) => match b {
            Quantity::Finite(y) => x.num * y.den >= y.num * x.den,
            _ => false,
        },
    }
}

} // verus!
