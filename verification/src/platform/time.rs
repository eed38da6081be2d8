//! ARM generic timer on the Cortex-A53 (BCM2837).
//!
//! The CPU-local interrupt controller (BCM2836) routes the physical
//! non-secure timer interrupt (CNTPNSIRQ, local IRQ 1) to the CPU when
//! `LOCAL_TIMER_INT_CONTROL0` bit 1 is set. The timer frequency comes from
//! `CNTFRQ_EL0`, which the GPU firmware programs at boot; this module holds
//! the conversions between ticks and nanoseconds.

use vstd::prelude::*;
use super::config::GENERIC_TIMER_FREQ;

verus! {

/// Nanoseconds per second.
pub const NANOS_PER_SEC: u64 = 1_000_000_000;

/// The timer frequency to use given `CNTFRQ_EL0`: the register, or the
/// standard BCM2837 firmware value if it reads 0.
pub open spec fn spec_timer_freq(cntfrq: u64) -> u64 {
    if cntfrq == 0 {
        GENERIC_TIMER_FREQ
    } else {
        cntfrq
    }
}

/// The timer frequency to use given `CNTFRQ_EL0` (see [`spec_timer_freq`]).
pub fn timer_freq(cntfrq: u64) -> (f: u64)
    ensures
        f == spec_timer_freq(cntfrq),
        f != 0,
{
    if cntfrq == 0 {
        // Fallback: the standard BCM2837 firmware value.
        GENERIC_TIMER_FREQ
    } else {
        cntfrq
    }
}

/// The timer frequency given the cached value (0 while nothing is cached)
/// and `CNTFRQ_EL0`: a cached frequency is kept, otherwise it comes from
/// the register.
pub open spec fn spec_cached_timer_freq(cached: u64, cntfrq: u64) -> u64 {
    if cached != 0 {
        cached
    } else {
        spec_timer_freq(cntfrq)
    }
}

/// Looks the timer frequency up through the cache (see
/// [`spec_cached_timer_freq`]); the result is what the cache holds
/// afterwards.
pub fn cached_timer_freq(cached: u64, cntfrq: u64) -> (f: u64)
    ensures
        f == spec_cached_timer_freq(cached, cntfrq),
        f != 0,
{
    if cached != 0 {
        cached
    } else {
        timer_freq(cntfrq)
    }
}

/// Once a lookup has filled the cache, every later lookup gives the same
/// nonzero frequency, whatever the register reads then.
pub proof fn lemma_timer_freq_stable(cached: u64, cntfrq: u64, later: u64)
    ensures
        spec_cached_timer_freq(cached, cntfrq) != 0,
        spec_cached_timer_freq(spec_cached_timer_freq(cached, cntfrq), later)
            == spec_cached_timer_freq(cached, cntfrq),
{
}

/// `ticks` at frequency `f`, in nanoseconds (rounded down, truncated to 64
/// bits); 0 when `f` is 0.
pub open spec fn spec_ticks_to_nanos(ticks: u64, f: u64) -> u64 {
    if f == 0 {
        0
    } else {
        ((ticks * NANOS_PER_SEC) / (f as int)) as u64
    }
}

/// `nanos` in ticks at frequency `f` (rounded down, truncated to 64 bits);
/// 0 when `f` is 0.
pub open spec fn spec_nanos_to_ticks(nanos: u64, f: u64) -> u64 {
    if f == 0 {
        0
    } else {
        ((nanos * f) / (NANOS_PER_SEC as int)) as u64
    }
}

/// Converts a tick count at timer frequency `f` to nanoseconds.
pub fn ticks_to_nanos_shared(ticks: u64, f: u64) -> (nanos: u64)
    ensures
        nanos == spec_ticks_to_nanos(ticks, f),
{
    if f == 0 {
        return 0;
    }
    assert((ticks as u128) * (NANOS_PER_SEC as u128) <= u128::MAX) by (nonlinear_arith)
        requires
            ticks <= u64::MAX,
    ;
    (((ticks as u128) * (NANOS_PER_SEC as u128)) / (f as u128)) as u64
}

/// Converts nanoseconds to a tick count at timer frequency `f`.
pub fn nanos_to_ticks_shared(nanos: u64, f: u64) -> (ticks: u64)
    ensures
        ticks == spec_nanos_to_ticks(nanos, f),
{
    if f == 0 {
        return 0;
    }
    assert((nanos as u128) * (f as u128) <= u128::MAX) by (nonlinear_arith)
        requires
            nanos <= u64::MAX,
            f <= u64::MAX,
    ;
    (((nanos as u128) * (f as u128)) / (NANOS_PER_SEC as u128)) as u64
}

/// The countdown to program for a one-shot timer firing at tick `deadline`
/// when the counter reads `now`: the difference, or 0 if the deadline has
/// passed.
pub fn oneshot_interval(now: u64, deadline: u64) -> (interval: u64)
    ensures
        interval == (if now < deadline {
            (deadline - now) as u64
        } else {
            0
        }),
{
    if now < deadline {
        deadline - now
    } else {
        0
    }
}

/// Converting nanoseconds to ticks and back never overshoots: at any
/// timer frequency up to 1 GHz, the round trip gives at most the original
/// value, and the tick count itself is at most the nanosecond count.
pub proof fn lemma_nanos_roundtrip(nanos: u64, f: u64)
    requires
        0 < f <= NANOS_PER_SEC,
    ensures
        spec_ticks_to_nanos(spec_nanos_to_ticks(nanos, f), f) <= nanos,
        spec_nanos_to_ticks(nanos, f) <= nanos,
{
    let g = NANOS_PER_SEC as int;
    let n = nanos as int;
    let fi = f as int;
    let t = (n * fi) / g;
    assert(0 <= t <= n) by (nonlinear_arith)
        requires
            t == (n * fi) / g,
            0 < fi <= g,
            0 <= n,
            g > 0,
    {
        assert(n * fi <= n * g) by (nonlinear_arith)
            requires
                0 < fi <= g,
                0 <= n,
        ;
        assert((n * g) / g == n) by (nonlinear_arith)
            requires
                g > 0,
        ;
        vstd::arithmetic::div_mod::lemma_div_is_ordered(n * fi, n * g, g);
        vstd::arithmetic::div_mod::lemma_div_pos_is_pos(n * fi, g);
        vstd::arithmetic::mul::lemma_mul_nonnegative(n, fi);
    }
    let back = (t * g) / fi;
    assert(back <= n) by (nonlinear_arith)
        requires
            t == (n * fi) / g,
            back == (t * g) / fi,
            0 < fi <= g,
            0 <= n,
            0 <= t,
    {
        vstd::arithmetic::div_mod::lemma_fundamental_div_mod(n * fi, g);
        assert(t * g <= n * fi);
        vstd::arithmetic::div_mod::lemma_div_is_ordered(t * g, n * fi, fi);
        assert((n * fi) / fi == n);
    }
}


/// At any nonzero frequency `f`, converting `nanos` nanoseconds gives
/// exactly `floor(nanos * f / 10^9)` ticks whenever that count fits in 64
/// bits, with no intermediate overflow.
pub proof fn lemma_nanos_to_ticks_exact(nanos: u64, f: u64)
    requires
        f > 0,
        (nanos as int) * (f as int) / 1_000_000_000 <= u64::MAX,
    ensures
        spec_nanos_to_ticks(nanos, f) as int == (nanos as int) * (f as int) / 1_000_000_000,
{
    assert((nanos as int) * (f as int) >= 0) by (nonlinear_arith);
}

/// At any nonzero frequency `f`, converting `ticks` ticks gives exactly
/// `floor(ticks * 10^9 / f)` nanoseconds whenever that fits in 64 bits.
pub proof fn lemma_ticks_to_nanos_exact(ticks: u64, f: u64)
    requires
        f > 0,
        (ticks as int) * 1_000_000_000 / (f as int) <= u64::MAX,
    ensures
        spec_ticks_to_nanos(ticks, f) as int == (ticks as int) * 1_000_000_000 / (f as int),
{
    assert((ticks as int) * 1_000_000_000 / (f as int) >= 0) by (nonlinear_arith)
        requires
            f > 0,
    ;
}

/// A later deadline never converts to an earlier tick count, and a later
/// tick count never to an earlier time, as long as the later result fits
/// in 64 bits.
pub proof fn lemma_conversions_monotone(a: u64, b: u64, f: u64)
    requires
        f > 0,
        a <= b,
    ensures
        (b as int) * (f as int) / 1_000_000_000 <= u64::MAX ==> spec_nanos_to_ticks(a, f)
            <= spec_nanos_to_ticks(b, f),
        (b as int) * 1_000_000_000 / (f as int) <= u64::MAX ==> spec_ticks_to_nanos(a, f)
            <= spec_ticks_to_nanos(b, f),
{
    let fi = f as int;
    let g = 1_000_000_000int;
    assert((a as int) * fi / g <= (b as int) * fi / g) by (nonlinear_arith)
        requires
            0 <= a <= b,
            fi > 0,
            g > 0,
    {
        assert((a as int) * fi <= (b as int) * fi);
        vstd::arithmetic::div_mod::lemma_div_is_ordered((a as int) * fi, (b as int) * fi, g);
    }
    assert((a as int) * g / fi <= (b as int) * g / fi) by (nonlinear_arith)
        requires
            0 <= a <= b,
            fi > 0,
            g > 0,
    {
        assert((a as int) * g <= (b as int) * g);
        vstd::arithmetic::div_mod::lemma_div_is_ordered((a as int) * g, (b as int) * g, fi);
    }
    if (b as int) * fi / g <= u64::MAX {
        lemma_nanos_to_ticks_exact(a, f);
        lemma_nanos_to_ticks_exact(b, f);
    }
    if (b as int) * g / fi <= u64::MAX {
        lemma_ticks_to_nanos_exact(a, f);
        lemma_ticks_to_nanos_exact(b, f);
    }
}

} // verus!
