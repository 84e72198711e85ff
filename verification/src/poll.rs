//! Poll-interval calculator: how many fixed-size polling ticks cover a
//! maximum wait window.

use vstd::prelude::*;
use vstd::arithmetic::div_mod::{
    lemma_fundamental_div_mod, lemma_fundamental_div_mod_converse,
    lemma_mod_division_less_than_divisor,
};

verus! {

/// Number of ticks of length `delay_interval_millis` needed to cover a wait
/// window of `max_wait_millis`: the ceiling of their quotient, but at least
/// one tick even for an empty window.
pub open spec fn spec_poll_iters(delay_interval_millis: u64, max_wait_millis: u64) -> int
    recommends
        delay_interval_millis > 0,
{
    if max_wait_millis == 0 {
        1
    } else {
        (max_wait_millis + delay_interval_millis - 1) / (delay_interval_millis as int)
    }
}

/// Returns the number of iterations `delay_interval_millis` fits into
/// `max_wait_millis`, rounding up and polling at least once.
pub fn poll_iters(delay_interval_millis: u64, max_wait_millis: u64) -> (n: u64)
    requires
        delay_interval_millis > 0,
    ensures
        n == spec_poll_iters(delay_interval_millis, max_wait_millis),
{
    let q: u64 = max_wait_millis / delay_interval_millis;
    let r: u64 = max_wait_millis % delay_interval_millis;
    if max_wait_millis == 0 {
        1
    } else if r == 0 {
        proof {
            lemma_fundamental_div_mod(max_wait_millis as int, delay_interval_millis as int);
            lemma_fundamental_div_mod_converse(
                max_wait_millis + delay_interval_millis - 1,
                delay_interval_millis as int,
                q as int,
                delay_interval_millis - 1,
            );
        }
        q
    } else {
        proof {
            lemma_fundamental_div_mod(max_wait_millis as int, delay_interval_millis as int);
            lemma_mod_division_less_than_divisor(
                max_wait_millis as int,
                delay_interval_millis as int,
            );
            assert(delay_interval_millis >= 2);
            assert(delay_interval_millis * q >= 2 * q) by (nonlinear_arith)
                requires
                    delay_interval_millis >= 2,
                    q >= 0,
            ;
            assert((q + 1) * (delay_interval_millis as int)
                == q * delay_interval_millis + delay_interval_millis) by (nonlinear_arith);
            lemma_fundamental_div_mod_converse(
                max_wait_millis + delay_interval_millis - 1,
                delay_interval_millis as int,
                q + 1,
                r - 1,
            );
        }
        q + 1
    }
}

/// Law: the tick count is the least `n >= 1` whose ticks cover the window,
/// i.e. `n * d >= w` holds, and for a non-empty window one tick fewer falls
/// short.
pub proof fn lemma_poll_iters_minimal(delay_interval_millis: u64, max_wait_millis: u64)
    requires
        delay_interval_millis > 0,
    ensures
        spec_poll_iters(delay_interval_millis, max_wait_millis) >= 1,
        spec_poll_iters(delay_interval_millis, max_wait_millis) * delay_interval_millis
            >= max_wait_millis,
        max_wait_millis > 0 ==> (spec_poll_iters(delay_interval_millis, max_wait_millis) - 1)
            * delay_interval_millis < max_wait_millis,
{
    let d = delay_interval_millis as int;
    let w = max_wait_millis as int;
    let n = spec_poll_iters(delay_interval_millis, max_wait_millis);
    if max_wait_millis == 0 {
        assert(n == 1);
        assert(n * d == d);
    } else {
        lemma_fundamental_div_mod(w + d - 1, d);
        lemma_mod_division_less_than_divisor(w + d - 1, d);
        let rr = (w + d - 1) % d;
        assert(w + d - 1 == d * n + rr);
        assert(n * d == w + d - 1 - rr);
        assert(n * d >= w);
        assert(n >= 1) by (nonlinear_arith)
            requires
                d >= 1,
                n * d >= 1,
        ;
        assert((n - 1) * d == n * d - d) by (nonlinear_arith);
        assert((n - 1) * d < w);
    }
}

} // verus!
