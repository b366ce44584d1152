//! Laws of the load indicator: how it grows with active time and decays with
//! idle time. Each proof function states one property of the spec functions
//! that the executable contracts are phrased over.

use crate::logic::{class_text, idle_remaining, idle_removed, load_units_of};
use crate::{sat_mul64, Args};
use vstd::arithmetic::div_mod::{
    lemma_basic_div, lemma_div_is_ordered, lemma_div_multiples_vanish, lemma_fundamental_div_mod,
};
use vstd::arithmetic::mul::lemma_mul_inequality;
use vstd::prelude::*;

verus! {

/// A saturating product grows with its left factor.
proof fn lemma_sat_mul64_monotone(a1: u64, a2: u64, b: u64)
    requires
        a1 <= a2,
    ensures
        sat_mul64(a1, b) <= sat_mul64(a2, b),
{
    lemma_mul_inequality(a1 as int, a2 as int, b as int);
}

/// While a session's elapsed time has not reached one idle timeout, the load
/// indicator shows nothing and the class is `ok`.
pub proof fn lemma_fresh_session_load_zero(args: Args, elapsed_ms: u64)
    requires
        args.idle_timeout > 0,
        elapsed_ms / 1000 < args.idle_timeout,
    ensures
        load_units_of(args, elapsed_ms) == 0,
        class_text(load_units_of(args, elapsed_ms), args.max_active_sessions) == "ok"@,
{
    lemma_basic_div((elapsed_ms / 1000) as int, args.idle_timeout as int);
}

/// While active, the load indicator never decreases as elapsed time grows,
/// and never exceeds the configured maximum.
pub proof fn lemma_load_monotone(args: Args, e1: u64, e2: u64)
    requires
        args.idle_timeout > 0,
        e1 <= e2,
    ensures
        load_units_of(args, e1) <= load_units_of(args, e2),
        load_units_of(args, e2) <= args.max_active_sessions,
{
    lemma_div_is_ordered(e1 as int, e2 as int, 1000);
    lemma_div_is_ordered((e1 / 1000) as int, (e2 / 1000) as int, args.idle_timeout as int);
}

/// While idle, the remaining load indicator never increases as idle time
/// grows.
pub proof fn lemma_idle_decay_monotone(args: Args, e1: u64, e2: u64)
    requires
        args.idle_timeout > 0,
        args.max_active_sessions > 0,
        e1 <= e2,
    ensures
        idle_remaining(args, e2) <= idle_remaining(args, e1),
{
    let den = sat_mul64(args.max_active_sessions, args.idle_timeout);
    assert(args.max_active_sessions * args.idle_timeout >= 1) by (nonlinear_arith)
        requires
            args.max_active_sessions >= 1,
            args.idle_timeout >= 1,
    ;
    lemma_div_is_ordered(e1 as int, e2 as int, 1000);
    lemma_sat_mul64_monotone(e1 / 1000, e2 / 1000, args.max_active_sessions);
    lemma_div_is_ordered(
        sat_mul64(e1 / 1000, args.max_active_sessions) as int,
        sat_mul64(e2 / 1000, args.max_active_sessions) as int,
        den as int,
    );
}

/// While idle, the remaining load indicator is zero exactly once the idle
/// seconds have reached one full saturation cycle. Stated where the products
/// involved stay representable; beyond that the indicator is long since zero.
pub proof fn lemma_idle_decay_zero(args: Args, elapsed_ms: u64)
    requires
        args.idle_timeout > 0,
        args.max_active_sessions > 0,
        args.max_active_sessions * args.idle_timeout <= u64::MAX,
        (elapsed_ms / 1000) * args.max_active_sessions <= u64::MAX,
    ensures
        idle_remaining(args, elapsed_ms) == 0 <==> elapsed_ms / 1000 >= args.idle_timeout
            * args.max_active_sessions,
{
    let es = (elapsed_ms / 1000) as int;
    let max = args.max_active_sessions as int;
    let it = args.idle_timeout as int;
    let num = sat_mul64(elapsed_ms / 1000, args.max_active_sessions) as int;
    let den = sat_mul64(args.max_active_sessions, args.idle_timeout) as int;
    assert(num == es * max);
    assert(den == max * it);
    assert(den >= 1) by (nonlinear_arith)
        requires
            max >= 1,
            it >= 1,
            den == max * it,
    ;

    if es >= it * max {
        assert(num >= max * den) by (nonlinear_arith)
            requires
                es >= it * max,
                max >= 1,
                num == es * max,
                den == max * it,
        ;
        lemma_div_multiples_vanish(max, den);
        lemma_div_is_ordered(max * den, num, den);
        assert(idle_removed(args, elapsed_ms) >= args.max_active_sessions);
    }

    if idle_remaining(args, elapsed_ms) == 0 {
        let q = num / den;
        lemma_fundamental_div_mod(num, den);
        assert(q >= max);
        lemma_mul_inequality(max, q, den);
        assert(num >= max * den);
        assert(es >= it * max) by (nonlinear_arith)
            requires
                num >= max * den,
                max >= 1,
                num == es * max,
                den == max * it,
        ;
    }
}

} // verus!


