use vstd::prelude::*;

use crate::level::{is_drive, is_level, is_signal, LEVEL_LIMIT};

verus! {

/// The last input level a sweep may still reach: `stop` plus one hundredth of
/// a step, so that `stop` itself is always included.
pub open spec fn sweep_bound(stop: int, step: int) -> int {
    stop + step / 100
}

/// Number of levels in the sweep from `start` towards `stop` in steps of `step`.
pub open spec fn sweep_len(start: int, stop: int, step: int) -> nat {
    if start > sweep_bound(stop, step) {
        0
    } else {
        ((sweep_bound(stop, step) - start) / step + 1) as nat
    }
}

/// The `k`-th level of a sweep.
pub open spec fn sweep_point(start: int, step: int, k: int) -> int {
    start + k * step
}

/// Arguments of a sweep: both ends in the parameter range and a positive step
/// in that range too.
pub open spec fn sweep_args_ok(start: int, stop: int, step: int) -> bool {
    &&& is_level(start)
    &&& is_level(stop)
    &&& 0 < step <= LEVEL_LIMIT
}

proof fn lemma_sweep_count(start: int, bound: int, step: int, n: int)
    requires
        0 < step,
        0 <= n,
        start + n * step > bound,
        n == 0 || start + (n - 1) * step <= bound,
    ensures
        n == (if start > bound { 0 } else { (bound - start) / step + 1 }),
{
    if n == 0 {
        assert(start > bound);
    } else {
        assert(start <= bound) by (nonlinear_arith)
            requires start + (n - 1) * step <= bound, n >= 1, step > 0;
        let q = (bound - start) / step;
        let r = (bound - start) % step;
        assert(bound - start == q * step + r && 0 <= r < step) by (nonlinear_arith)
            requires step > 0, q == (bound - start) / step, r == (bound - start) % step;
        assert((n - 1) * step <= q * step + r) by (nonlinear_arith)
            requires start + (n - 1) * step <= bound, bound - start == q * step + r;
        assert(n * step > q * step + r) by (nonlinear_arith)
            requires start + n * step > bound, bound - start == q * step + r;
        assert(n - 1 <= q) by (nonlinear_arith)
            requires (n - 1) * step <= q * step + r, 0 <= r < step, step > 0;
        assert(n > q) by (nonlinear_arith)
            requires n * step > q * step + r, 0 <= r, step > 0;
    }
}

/// The input levels of a sweep: `start`, `start + step`, ... up to and
/// including `stop` (within a hundredth of a step).
pub fn sweep_inputs(start: i64, stop: i64, step: i64) -> (r: Vec<i64>)
    requires
        sweep_args_ok(start as int, stop as int, step as int),
    ensures
        r@.len() == sweep_len(start as int, stop as int, step as int),
        forall|k: int| 0 <= k < r@.len() ==> r@[k] == sweep_point(start as int, step as int, k),
        forall|k: int| 0 <= k < r@.len() ==> is_signal(#[trigger] r@[k] as int),
        forall|k: int| 0 <= k < r@.len() ==> is_drive(#[trigger] r@[k] as int),
{
    let bound = stop + step / 100;
    let mut levels: Vec<i64> = Vec::new();
    if start > bound {
        return levels;
    }
    let mut pin = start;
    assert(pin == sweep_point(start as int, step as int, 0));
    while pin <= bound
        invariant
            sweep_args_ok(start as int, stop as int, step as int),
            bound == sweep_bound(stop as int, step as int),
            pin == sweep_point(start as int, step as int, levels@.len() as int),
            start <= pin <= bound + step,
            levels@.len() == 0 || start + (levels@.len() - 1) * step <= bound,
            forall|k: int|
                0 <= k < levels@.len() ==> levels@[k] == sweep_point(start as int, step as int, k),
            forall|k: int| 0 <= k < levels@.len() ==> is_signal(#[trigger] levels@[k] as int),
            forall|k: int| 0 <= k < levels@.len() ==> is_drive(#[trigger] levels@[k] as int),
        decreases bound + step - pin,
    {
        let ghost n = levels@.len() as int;
        levels.push(pin);
        pin = pin + step;
        assert(pin == sweep_point(start as int, step as int, n + 1)) by (nonlinear_arith)
            requires pin == start + n * step + step;
    }
    proof {
        lemma_sweep_count(start as int, bound as int, step as int, levels@.len() as int);
    }
    levels
}

} // verus!
