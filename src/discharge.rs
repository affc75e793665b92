//! A linear discharge model: the voltage falls in a straight line from its
//! nominal value at time zero to nine tenths of it at the end of the runtime.

use vstd::prelude::*;
use crate::quantity::{at_least, Quantity, Ratio};
use crate::runtime::{runtime_in_range, RUNTIME_DEN_BOUND, RUNTIME_NUM_BOUND};

verus! {

/// Number of equal intervals the runtime is cut into; the curve has one
/// more sample than this.
pub const INTERVALS: i128 = 20;

/// One sample of a discharge curve: a time in hours and a voltage in volts.
#[derive(Clone, Copy, Debug, PartialEq, Eq, Structural)]
pub struct DischargeDataPoint {
    pub time: Quantity,
    pub voltage: Quantity,
}

/// A sample time whose parts fit the bounds of a runtime scaled by the
/// number of intervals.
pub open spec fn time_in_range(t: Quantity) -> bool {
    match t {
        Quantity::Finite(x) => 0 < x.den <= INTERVALS * RUNTIME_DEN_BOUND && -INTERVALS
            * RUNTIME_NUM_BOUND <= x.num <= INTERVALS * RUNTIME_NUM_BOUND,
        _ => true,
    }
}

/// `t` is sample `i` of a runtime: `i` times a twentieth of it. A twentieth
/// of infinity is infinite, and zero times infinity is undefined.
pub open spec fn time_matches(t: Quantity, runtime: Quantity, i: int) -> bool {
    match runtime {
        Quantity::Finite(y) => t.is_ratio(i * y.num, INTERVALS * y.den),
        Quantity::Infinite => if i == 0 {
            t is Undefined
        } else {
            t is Infinite
        },
        Quantity::Undefined => t is Undefined,
    }
}

/// `v` is the voltage at time `t` of a battery with nominal voltage `mv`
/// millivolts and runtime `r`: nine tenths of nominal once `t >= r`, and
/// otherwise `mv/1000 - (mv/10000) * (t / r)`, where `t / r` is zero for an
/// infinite `r`, minus infinity for a zero `r` and a negative `t`, and
/// undefined beside an undefined operand.
pub open spec fn voltage_matches(v: Quantity, t: Quantity, r: Quantity, mv: int) -> bool {
    if at_least(t, r) {
        v.is_ratio(9 * mv, 10000)
    } else {
        match (t, r) {
            (Quantity::Finite(x), Quantity::Finite(y)) => if y.num == 0 {
                if mv == 0 {
                    v is Undefined
                } else {
                    v is Infinite
                }
            } else {
                v.is_ratio(mv * (10 * y.num * x.den - x.num * y.den), 10000 * y.num * x.den)
            },
            (Quantity::Finite(_), Quantity::Infinite) => v.is_ratio(mv, 1000),
            _ => v is Undefined,
        }
    }
}

/// `points` is the discharge curve of a battery with nominal voltage `mv`
/// millivolts and the given runtime: one sample at each of the
/// `INTERVALS + 1` evenly spaced times from zero to the runtime.
pub open spec fn is_curve(points: Seq<DischargeDataPoint>, runtime: Quantity, mv: int) -> bool {
    &&& points.len() == INTERVALS + 1
    &&& forall|i: int|
        0 <= i < points.len() ==> {
            &&& time_matches(#[trigger] points[i].time, runtime, i)
            &&& voltage_matches(points[i].voltage, points[i].time, runtime, mv)
            &&& points[i].time.wf()
            &&& points[i].voltage.wf()
        }
}

proof fn lemma_mul_bound(a: int, b: int, ba: int, bb: int)
    requires
        -ba <= a <= ba,
        -bb <= b <= bb,
    ensures
        -(ba * bb) <= a * b <= ba * bb,
{
    assert(-(ba * bb) <= a * b <= ba * bb) by (nonlinear_arith)
        requires
            -ba <= a <= ba,
            -bb <= b <= bb,
    ;
}

/// Compares a sample time with a runtime as `at_least` does.
fn is_at_least(a: Quantity, b: Quantity) -> (r: bool)
    requires
        a.wf(),
        b.wf(),
        time_in_range(a),
        runtime_in_range(b),
    ensures
        r == at_least(a, b),
{
    match a {
        Quantity::Undefined => false,
        Quantity::Infinite => !matches!(b, Quantity::Undefined),
        Quantity::Finite(x) => match b {
            Quantity::Finite(y) => {
                proof {
                    lemma_mul_bound(
                        x.num as int,
                        y.den as int,
                        INTERVALS * RUNTIME_NUM_BOUND,
                        RUNTIME_DEN_BOUND as int,
                    );
                    lemma_mul_bound(
                        y.num as int,
                        x.den as int,
                        RUNTIME_NUM_BOUND as int,
                        INTERVALS * RUNTIME_DEN_BOUND,
                    );
                }
                x.num * y.den >= y.num * x.den
            },
            _ => false,
        },
    }
}

/// Voltage at `time` hours of a battery with nominal voltage `nominal_mv`
/// millivolts and the given runtime, under the linear model.
pub fn calculate_voltage_at_time(time: Quantity, runtime_hours: Quantity, nominal_mv: u16) -> (r:
    Quantity)
    requires
        time.wf(),
        runtime_hours.wf(),
        time_in_range(time),
        runtime_in_range(runtime_hours),
    ensures
        r.wf(),
        voltage_matches(r, time, runtime_hours, nominal_mv as int),
{
    let nominal = nominal_mv as i128;
    if is_at_least(time, runtime_hours) {
        return Quantity::Finite(Ratio { num: 9 * nominal, den: 10000 });
    }
    match (time, runtime_hours) {
        (Quantity::Finite(x), Quantity::Finite(y)) => {
            if y.num == 0 {
                if nominal == 0 {
                    Quantity::Undefined
                } else {
                    Quantity::Infinite
                }
            } else {
                proof {
                    lemma_mul_bound(
                        y.num as int,
                        x.den as int,
                        RUNTIME_NUM_BOUND as int,
                        INTERVALS * RUNTIME_DEN_BOUND,
                    );
                    lemma_mul_bound(
                        x.num as int,
                        y.den as int,
                        INTERVALS * RUNTIME_NUM_BOUND,
                        RUNTIME_DEN_BOUND as int,
                    );
                }
                let scaled = y.num * x.den;
                let remaining = 10 * scaled - x.num * y.den;
                proof {
                    lemma_mul_bound(
                        nominal as int,
                        remaining as int,
                        0x10000,
                        11 * INTERVALS * RUNTIME_NUM_BOUND * RUNTIME_DEN_BOUND,
                    );
                }
                let num = nominal * remaining;
                let den = 10000 * scaled;
                assert(den != 0) by (nonlinear_arith)
                    requires
                        den == 10000 * (y.num * x.den),
                        y.num != 0,
                        x.den > 0,
                ;
                assert((-num) * den == num * (-den)) by (nonlinear_arith);
                assert(10 * scaled == 10 * y.num * x.den && den == 10000 * y.num * x.den)
                    by (nonlinear_arith)
                    requires
                        scaled == y.num * x.den,
                        den == 10000 * scaled,
                ;
                if den > 0 {
                    Quantity::Finite(Ratio { num, den })
                } else {
                    Quantity::Finite(Ratio { num: -num, den: -den })
                }
            }
        },
        (Quantity::Finite(_), Quantity::Infinite) => Quantity::Finite(
            Ratio { num: nominal, den: 1000 },
        ),
        _ => Quantity::Undefined,
    }
}

/// Sample time `i` of a runtime: `i` times a twentieth of it.
fn time_at(runtime_hours: Quantity, i: i128) -> (t: Quantity)
    requires
        0 <= i <= INTERVALS,
        runtime_hours.wf(),
        runtime_in_range(runtime_hours),
    ensures
        t.wf(),
        time_in_range(t),
        time_matches(t, runtime_hours, i as int),
{
    match runtime_hours {
        Quantity::Finite(y) => {
            proof {
                lemma_mul_bound(i as int, y.num as int, INTERVALS as int, RUNTIME_NUM_BOUND as int);
            }
            Quantity::Finite(Ratio { num: i * y.num, den: INTERVALS * y.den })
        },
        Quantity::Infinite => if i == 0 {
            Quantity::Undefined
        } else {
            Quantity::Infinite
        },
        Quantity::Undefined => Quantity::Undefined,
    }
}

/// The discharge curve of a battery with nominal voltage `nominal_mv`
/// millivolts over the given runtime: `INTERVALS + 1` samples at evenly
/// spaced times from zero to the runtime.
pub fn simulate_discharge_curve(runtime_hours: Quantity, nominal_mv: u16) -> (r: Vec<
    DischargeDataPoint,
>)
    requires
        runtime_hours.wf(),
        runtime_in_range(runtime_hours),
    ensures
        is_curve(r@, runtime_hours, nominal_mv as int),
{
    let mut data_points: Vec<DischargeDataPoint> = Vec::new();
    let mut i: i128 = 0;
    while i <= INTERVALS
        invariant
            0 <= i <= INTERVALS + 1,
            data_points@.len() == i,
            runtime_hours.wf(),
            runtime_in_range(runtime_hours),
            forall|j: int|
                0 <= j < i ==> {
                    &&& time_matches(#[trigger] data_points@[j].time, runtime_hours, j)
                    &&& voltage_matches(
                        data_points@[j].voltage,
                        data_points@[j].time,
                        runtime_hours,
                        nominal_mv as int,
                    )
                    &&& data_points@[j].time.wf()
                    &&& data_points@[j].voltage.wf()
                },
        decreases INTERVALS + 1 - i,
    {
        let time = time_at(runtime_hours, i);
        let voltage = calculate_voltage_at_time(time, runtime_hours, nominal_mv);
        data_points.push(DischargeDataPoint { time, voltage });
        i = i + 1;
    }
    data_points
}

/// `r` is a finite runtime greater than zero.
pub open spec fn is_positive_runtime(r: Quantity) -> bool {
    match r {
        Quantity::Finite(y) => y.den > 0 && y.num > 0,
        _ => false,
    }
}

proof fn lemma_sample(points: Seq<DischargeDataPoint>, runtime: Quantity, mv: int, i: int)
    requires
        is_curve(points, runtime, mv),
        is_positive_runtime(runtime),
        0 <= i <= INTERVALS,
    ensures
        points[i].time is Finite,
        at_least(points[i].time, runtime) == (i == INTERVALS),
        points[i].voltage.is_ratio(mv * (200 - i), 200000),
{
    let y = runtime->Finite_0;
    let t = points[i].time;
    assert(time_matches(t, runtime, i));
    let x = t->Finite_0;
    let p = y.num * x.den;
    assert(p > 0) by (nonlinear_arith)
        requires
            p == y.num * x.den,
            y.num > 0,
            x.den > 0,
    ;
    assert(20 * (x.num * y.den) == i * p) by (nonlinear_arith)
        requires
            x.num * (20 * y.den) == (i * y.num) * x.den,
            p == y.num * x.den,
    ;
    assert((x.num * y.den >= y.num * x.den) == (i == 20)) by (nonlinear_arith)
        requires
            20 * (x.num * y.den) == i * p,
            p == y.num * x.den,
            p > 0,
            0 <= i <= 20,
    ;
    let v = points[i].voltage;
    if i < INTERVALS {
        assert(voltage_matches(v, t, runtime, mv));
        let w = v->Finite_0;
        assert(w.num * 200000 == mv * (200 - i) * w.den) by (nonlinear_arith)
            requires
                w.num * (10000 * y.num * x.den) == mv * (10 * y.num * x.den - x.num * y.den)
                    * w.den,
                20 * (x.num * y.den) == i * p,
                p == y.num * x.den,
                p > 0,
        ;
    } else {
        let w = v->Finite_0;
        assert(w.num * 200000 == mv * (200 - i) * w.den) by (nonlinear_arith)
            requires
                w.num * 10000 == 9 * mv * w.den,
                i == 20,
        ;
    }
}

/// For a positive finite runtime the curve has `INTERVALS + 1` samples; the
/// first is at time zero at the nominal voltage, the last at the runtime at
/// nine tenths of it; no sample time is below an earlier one; and the
/// voltage of sample `i` is `mv * (200 - i) / 200000` volts.
pub proof fn lemma_curve_shape(points: Seq<DischargeDataPoint>, runtime: Quantity, mv: int)
    requires
        is_curve(points, runtime, mv),
        is_positive_runtime(runtime),
    ensures
        points.len() == INTERVALS + 1,
        points[0].time.is_ratio(0, 1),
        points[0].voltage.is_ratio(mv, 1000),
        points[INTERVALS as int].time.is_ratio(runtime->Finite_0.num as int, runtime->Finite_0.den as int),
        points[INTERVALS as int].voltage.is_ratio(9 * mv, 10000),
        forall|i: int, j: int|
            0 <= i <= j <= INTERVALS ==> at_least(#[trigger] points[j].time, #[trigger] points[i].time),
        forall|i: int|
            0 <= i <= INTERVALS ==> #[trigger] points[i].voltage.is_ratio(mv * (200 - i), 200000),
{
    let y = runtime->Finite_0;
    assert forall|i: int|
        0 <= i <= INTERVALS implies #[trigger] points[i].voltage.is_ratio(mv * (200 - i), 200000) by {
        lemma_sample(points, runtime, mv, i);
    }
    lemma_sample(points, runtime, mv, 0);
    lemma_sample(points, runtime, mv, INTERVALS as int);
    assert(time_matches(points[0].time, runtime, 0));
    let x0 = points[0].time->Finite_0;
    assert(x0.num == 0) by (nonlinear_arith)
        requires
            x0.num * (20 * y.den) == (0 * y.num) * x0.den,
            y.den > 0,
    ;
    let w0 = points[0].voltage->Finite_0;
    assert(w0.num * 1000 == mv * w0.den) by (nonlinear_arith)
        requires
            w0.num * 200000 == mv * (200 - 0) * w0.den,
    ;
    assert(time_matches(points[20].time, runtime, 20));
    let x20 = points[20].time->Finite_0;
    assert(x20.num * y.den == y.num * x20.den) by (nonlinear_arith)
        requires
            x20.num * (20 * y.den) == (20 * y.num) * x20.den,
    ;
    assert forall|i: int, j: int|
        0 <= i <= j <= INTERVALS implies at_least(#[trigger] points[j].time, #[trigger] points[i].time) by {
        assert(time_matches(points[i].time, runtime, i));
        assert(time_matches(points[j].time, runtime, j));
        let a = points[i].time->Finite_0;
        let b = points[j].time->Finite_0;
        assert(b.num * a.den >= a.num * b.den) by (nonlinear_arith)
            requires
                a.num * (20 * y.den) == (i * y.num) * a.den,
                b.num * (20 * y.den) == (j * y.num) * b.den,
                a.den > 0,
                b.den > 0,
                y.den > 0,
                y.num > 0,
                0 <= i <= j,
        ;
    }
}

} // verus!
