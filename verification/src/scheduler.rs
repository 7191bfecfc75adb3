//! Decision logic of the three accounting loops.
//!
//! The loops themselves sleep, lock and do I/O outside this library; each
//! iteration hands the fresh counter reading and the current time to one of
//! the step functions here and then carries out the returned decision:
//! persist, throttle, release, and how long to sleep.

use vstd::prelude::*;
use num_bigint::BigUint;
use crate::bigint::{big_clone, big_from_u64, big_lt, big_sub, big_value};
use crate::checkpoint::Checkpoint;

verus! {

/// Usage in the current window: how far `current` has run past the baseline,
/// clamped to zero. A reading below the baseline means the interface counters
/// were reset since the baseline was taken; that is not a quota breach.
pub open spec fn window_usage(starting_bytes: nat, current: nat) -> nat {
    if current > starting_bytes {
        (current - starting_bytes) as nat
    } else {
        0
    }
}

/// How far the fresh reading has run past the baseline, clamped to zero.
/// The result is a non-negative count by construction; in particular it is
/// exactly zero whenever the reading sits at or below the baseline.
pub fn clamped_dist(current: &BigUint, starting_bytes: &BigUint) -> (r: BigUint)
    ensures
        big_value(r) == window_usage(big_value(*starting_bytes), big_value(*current)),
        big_value(*current) < big_value(*starting_bytes) ==> big_value(r) == 0,
{
    if big_lt(starting_bytes, current) {
        big_sub(current, starting_bytes)
    } else {
        big_from_u64(0)
    }
}

/// What one quota-check iteration decided.
pub struct QuotaDecision {
    /// `Some` exactly when usage reached `save_every_n_bytes`: the checkpoint
    /// to persist immediately, with the fresh reading as its last saved
    /// bytes. This out-of-cadence persist bounds the traffic lost on an
    /// unclean shutdown.
    pub save: Option<Checkpoint>,
    /// True exactly when usage exceeds `max_bytes`: the caller applies the
    /// throttle and then sleeps until the window deadline instead of
    /// re-checking every interval.
    pub throttle: bool,
}

/// One iteration of the quota-check loop, over a snapshot of the checkpoint
/// and a fresh counter reading taken without the lock.
pub fn quota_check_step(
    cp: &Checkpoint,
    current: &BigUint,
    save_every_n_bytes: u64,
    max_bytes: u64,
) -> (d: QuotaDecision)
    ensures
        d.throttle == (window_usage(cp@.starting_bytes, big_value(*current)) > max_bytes),
        (d.save is Some) == (window_usage(cp@.starting_bytes, big_value(*current))
            >= save_every_n_bytes),
        d.save matches Some(s) ==> {
            &&& s@.reset_at_ms == cp@.reset_at_ms
            &&& s@.starting_bytes == cp@.starting_bytes
            &&& s@.last_saved_bytes == big_value(*current)
        },
{
    let dist = clamped_dist(current, &cp.starting_bytes);
    let threshold = big_from_u64(save_every_n_bytes);
    let save = if !big_lt(&dist, &threshold) {
        Some(
            Checkpoint {
                reset_at_ms: cp.reset_at_ms,
                starting_bytes: big_clone(&cp.starting_bytes),
                last_saved_bytes: big_clone(current),
            },
        )
    } else {
        None
    };
    let ceiling = big_from_u64(max_bytes);
    let throttle = big_lt(&ceiling, &dist);
    QuotaDecision { save, throttle }
}

/// The window-reset loop's decision, taken when the window deadline passes:
/// the throttle is lifted exactly when the bytes accounted to the closing
/// window exceeded the ceiling, that is, when the window closed throttled.
/// The caller releases before rebaselining.
pub fn window_reset_decision(cp: &Checkpoint, max_bytes: u64) -> (release: bool)
    ensures
        release == (cp@.last_saved_bytes > cp@.starting_bytes + max_bytes),
{
    if big_lt(&cp.starting_bytes, &cp.last_saved_bytes) {
        let dist = big_sub(&cp.last_saved_bytes, &cp.starting_bytes);
        let ceiling = big_from_u64(max_bytes);
        big_lt(&ceiling, &dist)
    } else {
        false
    }
}

/// Open the next window: the baseline becomes the fresh reading and the new
/// deadline lies one full window length past the moment the reset fired, so
/// it strictly exceeds that moment whenever the window has any length.
pub fn rebaseline(cp: &mut Checkpoint, current: BigUint, now_ms: u64, capture_timeframe_ms: u64)
    requires
        now_ms + capture_timeframe_ms <= u64::MAX,
    ensures
        final(cp)@.starting_bytes == big_value(current),
        final(cp)@.reset_at_ms == now_ms + capture_timeframe_ms,
        final(cp)@.last_saved_bytes == old(cp)@.last_saved_bytes,
        capture_timeframe_ms > 0 ==> final(cp)@.reset_at_ms > now_ms,
{
    cp.starting_bytes = current;
    cp.reset_at_ms = now_ms + capture_timeframe_ms;
}

/// How long to sleep until the window deadline: the time left to `reset_at_ms`,
/// or nothing when the deadline already passed.
pub fn sleep_until_reset_ms(reset_at_ms: u64, now_ms: u64) -> (r: u64)
    ensures
        r == if now_ms <= reset_at_ms {
            reset_at_ms - now_ms
        } else {
            0
        },
{
    if now_ms <= reset_at_ms {
        reset_at_ms - now_ms
    } else {
        0
    }
}

/// The shaper takes its rate in bits per second; the configured limit is in
/// bytes per second.
pub fn rate_in_bits(lower_limit_bytes: u64) -> (r: u64)
    requires
        lower_limit_bytes <= u64::MAX / 8,
    ensures
        r == 8 * lower_limit_bytes,
{
    8 * lower_limit_bytes
}

} // verus!
