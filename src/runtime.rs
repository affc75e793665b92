//! Runtime of a battery under a constant load.

use vstd::prelude::*;
use crate::quantity::{Quantity, Ratio};

verus! {

/// Largest magnitude of a runtime's numerator: a `u16` capacity in
/// milliampere-hours, times 1000, stays below it.
pub const RUNTIME_NUM_BOUND: i128 = 0x400_0000;

/// Largest runtime denominator: the magnitude of any `i64` current.
pub const RUNTIME_DEN_BOUND: i128 = 0x8000_0000_0000_0000;

/// A runtime in hours whose parts fit the bounds above.
pub open spec fn runtime_in_range(r: Quantity) -> bool {
    match r {
        Quantity::Finite(x) => 0 < x.den <= RUNTIME_DEN_BOUND && -RUNTIME_NUM_BOUND <= x.num
            <= RUNTIME_NUM_BOUND,
        _ => true,
    }
}

/// `r` is the runtime in hours of `capacity_mah` milliampere-hours drawn at
/// `load_current_ua` microamperes: their quotient, and positive infinity
/// for a zero current.
pub open spec fn is_runtime(r: Quantity, capacity_mah: int, load_current_ua: int) -> bool {
    if load_current_ua == 0 {
        r is Infinite
    } else {
        r.is_ratio(1000 * capacity_mah, load_current_ua)
    }
}

/// The runtime that `estimate_runtime_hours` gives, written with a positive
/// denominator.
pub open spec fn runtime_of(capacity_mah: u16, load_current_ua: i64) -> Quantity {
    if load_current_ua > 0 {
        Quantity::Finite(
            Ratio { num: (1000 * capacity_mah) as i128, den: load_current_ua as i128 },
        )
    } else if load_current_ua < 0 {
        Quantity::Finite(
            Ratio { num: (-1000 * capacity_mah) as i128, den: (-load_current_ua) as i128 },
        )
    } else {
        Quantity::Infinite
    }
}

/// `a` equals `b` times `p / q`, where infinity scaled stays infinity.
pub open spec fn is_scaled(a: Quantity, b: Quantity, p: int, q: int) -> bool {
    match (a, b) {
        (Quantity::Finite(x), Quantity::Finite(y)) => x.num * y.den * q == p * y.num * x.den,
        (Quantity::Infinite, Quantity::Infinite) => true,
        _ => false,
    }
}

/// Hours that `capacity_mah` lasts at a draw of `load_current_ua`
/// microamperes. A zero current gives positive infinity and a negative one
/// a negative runtime; neither is rejected.
pub fn estimate_runtime_hours(capacity_mah: u16, load_current_ua: i64) -> (r: Quantity)
    ensures
        r == runtime_of(capacity_mah, load_current_ua),
        is_runtime(r, capacity_mah as int, load_current_ua as int),
        r.wf(),
        runtime_in_range(r),
{
    let charge = 1000 * (capacity_mah as i128);
    let current = load_current_ua as i128;
    if current > 0 {
        Quantity::Finite(Ratio { num: charge, den: current })
    } else if current < 0 {
        assert((-charge) * current == charge * (-current)) by (nonlinear_arith);
        Quantity::Finite(Ratio { num: -charge, den: -current })
    } else {
        Quantity::Infinite
    }
}

/// Runtime is linear in the capacity and inversely proportional to the
/// current: doubling the capacity doubles it, and doubling the current
/// halves it.
pub proof fn lemma_runtime_linear(
    capacity_mah: int,
    load_current_ua: int,
    base: Quantity,
    double_capacity: Quantity,
    double_current: Quantity,
)
    requires
        base.wf(),
        double_capacity.wf(),
        double_current.wf(),
        is_runtime(base, capacity_mah, load_current_ua),
        is_runtime(double_capacity, 2 * capacity_mah, load_current_ua),
        is_runtime(double_current, capacity_mah, 2 * load_current_ua),
    ensures
        is_scaled(double_capacity, base, 2, 1),
        is_scaled(double_current, base, 1, 2),
{
    if load_current_ua != 0 {
        let b = base->Finite_0;
        let c = double_capacity->Finite_0;
        let d = double_current->Finite_0;
        let l = load_current_ua;
        let k = 1000 * capacity_mah;
        assert((c.num * b.den - 2 * b.num * c.den) * l == 0) by (nonlinear_arith)
            requires
                b.num * l == k * b.den,
                c.num * l == 2 * k * c.den,
        ;
        assert(c.num * b.den * 1 == 2 * b.num * c.den) by (nonlinear_arith)
            requires
                (c.num * b.den - 2 * b.num * c.den) * l == 0,
                l != 0,
        ;
        assert((d.num * b.den * 2 - b.num * d.den) * l == 0) by (nonlinear_arith)
            requires
                b.num * l == k * b.den,
                d.num * (2 * l) == k * d.den,
        ;
        assert(d.num * b.den * 2 == 1 * b.num * d.den) by (nonlinear_arith)
            requires
                (d.num * b.den * 2 - b.num * d.den) * l == 0,
                l != 0,
        ;
    }
}

} // verus!
