//! The countdown that bounds a run.

use vstd::prelude::*;

verus! {

/// Nanoseconds in one second.
pub const NANOS_PER_SEC: u128 = 1_000_000_000;

/// Whole seconds left of a run of `duration` nanoseconds after `elapsed`
/// nanoseconds, clamped to zero once the run is over.
pub open spec fn seconds_left(duration: int, elapsed: int) -> int {
    if elapsed > duration {
        0
    } else {
        (duration - elapsed) / (NANOS_PER_SEC as int)
    }
}

/// The value of the tick taken `elapsed_nanos` after the start of a run that
/// lasts `duration_nanos`. The time is read from a clock at each tick, so
/// late ticks do not make the count drift.
pub fn remaining_secs(duration_nanos: u128, elapsed_nanos: u128) -> (r: u64)
    requires
        duration_nanos / NANOS_PER_SEC <= u64::MAX,
    ensures
        r == seconds_left(duration_nanos as int, elapsed_nanos as int),
{
    if elapsed_nanos > duration_nanos {
        0
    } else {
        let left = duration_nanos - elapsed_nanos;
        proof {
            vstd::arithmetic::div_mod::lemma_div_is_ordered(
                left as int,
                duration_nanos as int,
                NANOS_PER_SEC as int,
            );
        }
        (left / NANOS_PER_SEC) as u64
    }
}

/// The count never rises as time goes on, and never goes below zero.
pub proof fn countdown_never_rises(duration: int, earlier: int, later: int)
    requires
        0 <= duration,
        0 <= earlier,
        earlier <= later,
    ensures
        0 <= seconds_left(duration, later) <= seconds_left(duration, earlier),
{
    if later <= duration {
        vstd::arithmetic::div_mod::lemma_div_is_ordered(
            duration - later,
            duration - earlier,
            NANOS_PER_SEC as int,
        );
        vstd::arithmetic::div_mod::lemma_div_is_ordered(
            0,
            duration - later,
            NANOS_PER_SEC as int,
        );
    } else if earlier <= duration {
        vstd::arithmetic::div_mod::lemma_div_is_ordered(
            0,
            duration - earlier,
            NANOS_PER_SEC as int,
        );
    }
}

/// A run of whole seconds starts at its length: a tick at the start shows
/// all of it, and one within the first second shows it less at most one.
pub proof fn countdown_starts_at_duration(secs: int, elapsed: int)
    requires
        0 <= secs,
        0 <= elapsed,
        elapsed < NANOS_PER_SEC,
    ensures
        elapsed == 0 ==> seconds_left(secs * NANOS_PER_SEC as int, elapsed) == secs,
        0 < elapsed && 0 < secs ==> seconds_left(secs * NANOS_PER_SEC as int, elapsed) == secs - 1,
        0 < elapsed && secs == 0 ==> seconds_left(secs * NANOS_PER_SEC as int, elapsed) == 0,
{
    let n = NANOS_PER_SEC as int;
    if elapsed == 0 {
        vstd::arithmetic::div_mod::lemma_div_by_multiple(secs, n);
    } else if secs > 0 {
        let x = secs * n - elapsed;
        assert((secs - 1) * n <= x < secs * n) by (nonlinear_arith)
            requires
                x == secs * n - elapsed,
                0 < elapsed < n,
                secs > 0,
        ;
        vstd::arithmetic::div_mod::lemma_fundamental_div_mod(x, n);
        assert(x / n == secs - 1) by (nonlinear_arith)
            requires
                (secs - 1) * n <= x < secs * n,
                x == n * (x / n) + x % n,
                0 <= x % n < n,
                n > 0,
        ;
    }
}

} // verus!
