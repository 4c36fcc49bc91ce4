//! Splitting the time that passes into the fixed steps of the pet simulation.
use vstd::prelude::*;

verus! {

/// How many whole steps of `step` the carried time `carried` gives up: none while it is at
/// most one step, else as many as leave it above zero and at most one step.
pub open spec fn carried_steps(carried: int, step: int) -> int {
    if carried <= step {
        0
    } else {
        (carried - 1) / step
    }
}

/// The number of simulation steps of `step_us` microseconds to run for `delta_us`
/// microseconds of game time, and the time carried over to the next frame, given `extra_us`
/// carried over from the last one: the whole steps of `delta_us`, with its remainder added
/// to the carried time, which gives up whole steps while it exceeds one step.
pub fn sim_steps(delta_us: u64, step_us: u64, extra_us: u64) -> (r: (u64, u64))
    requires
        step_us > 0,
        extra_us + delta_us % step_us <= u64::MAX,
        delta_us / step_us + carried_steps(extra_us + delta_us % step_us, step_us as int)
            <= u64::MAX,
    ensures
        ({
            let carried = extra_us + delta_us % step_us;
            let k = carried_steps(carried, step_us as int);
            &&& r.0 == delta_us / step_us + k
            &&& r.1 == carried - k * step_us
        }),
        r.0 * step_us + r.1 == delta_us + extra_us,
        r.1 <= step_us,
        r.1 == 0 <==> extra_us + delta_us % step_us == 0,
{
    let mut runs: u64 = delta_us / step_us;
    let left_over: u64 = delta_us % step_us;
    let mut extra: u64 = extra_us + left_over;
    let ghost carried: int = extra as int;
    let ghost base: int = runs as int;
    proof {
        vstd::arithmetic::div_mod::lemma_fundamental_div_mod(delta_us as int, step_us as int);
        assert(base * step_us <= delta_us) by (nonlinear_arith)
            requires
                base == delta_us / step_us,
                step_us > 0,
        ;
        assert(base * step_us + left_over == delta_us);
        if carried > step_us {
            assert((carried - 1) / (step_us as int) >= 1) by (nonlinear_arith)
                requires
                    carried - 1 >= step_us,
                    step_us > 0,
            ;
        }
    }
    while extra > step_us
        invariant
            step_us > 0,
            base * step_us + left_over == delta_us,
            carried == extra_us + left_over,
            0 <= runs - base,
            (runs - base) * step_us + extra == carried,
            extra > step_us ==> carried_steps(carried, step_us as int) >= runs - base + 1,
            extra <= step_us ==> runs - base == carried_steps(carried, step_us as int),
            runs > base ==> extra >= 1,
            runs - base <= carried_steps(carried, step_us as int),
            base + carried_steps(carried, step_us as int) <= u64::MAX,
        decreases extra,
    {
        extra = extra - step_us;
        runs = runs + 1;
        proof {
            let m = runs - base;
            assert(m * step_us + extra == carried) by (nonlinear_arith)
                requires
                    (m - 1) * step_us + extra + step_us == carried,
            ;
            assert(carried - 1 == (m - 1) * step_us + (extra + step_us - 1)) by (nonlinear_arith)
                requires
                    (m - 1) * step_us + extra + step_us == carried,
            ;
            if extra > step_us {
                assert(carried - 1 == m * step_us + (extra - 1)) by (nonlinear_arith)
                    requires
                        m * step_us + extra == carried,
                ;
                assert((carried - 1) / (step_us as int) >= m + 1) by (nonlinear_arith)
                    requires
                        carried - 1 == m * step_us + (extra - 1),
                        extra - 1 >= step_us,
                        step_us > 0,
                ;
            } else {
                assert(0 <= extra + step_us - 1 < 2 * step_us);
                assert(carried - 1 == m * step_us + (extra - 1));
                vstd::arithmetic::div_mod::lemma_fundamental_div_mod_converse(
                    carried - 1,
                    step_us as int,
                    m,
                    extra - 1,
                );
            }
            assert(m * step_us >= m) by (nonlinear_arith)
                requires
                    m >= 0,
                    step_us >= 1,
            ;
        }
    }
    proof {
        assert(runs * step_us + extra == delta_us + extra_us) by (nonlinear_arith)
            requires
                base * step_us + left_over == delta_us,
                carried == extra_us + left_over,
                (runs - base) * step_us + extra == carried,
        ;
    }
    (runs, extra)
}

} // verus!
