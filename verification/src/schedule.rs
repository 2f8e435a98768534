//! Periodic deadlines that keep their cadence: a late tick is skipped, never
//! replayed, and the next deadline stays on the grid of the first one.
//!
//! Points in time are nanoseconds on a monotonic clock (`u64`); intervals are
//! nanoseconds too.

use vstd::prelude::*;

verus! {

/// How many intervals past `previous` the next deadline lies, so that it is
/// the first point of the grid `previous + k * interval` (`k >= 1`) after `now`.
pub open spec fn steps_after(previous: int, interval: int, now: int) -> int {
    if now < previous {
        1
    } else {
        (now - previous) / interval + 1
    }
}

/// The smaller of two integers.
pub open spec fn min_int(a: int, b: int) -> int {
    if a <= b { a } else { b }
}

/// The first point of the grid `previous + k * interval` (`k >= 1`) after `now`.
pub open spec fn grid_deadline(previous: int, interval: int, now: int) -> int {
    previous + interval * steps_after(previous, interval, now)
}

/// The next frame deadline: `previous` itself while it is still ahead;
/// otherwise the first grid point after `now`, with the advance saturated at
/// the clock's range, and `now + interval` where `previous` plus that advance
/// does not fit the clock.
pub open spec fn frame_deadline(previous: int, interval: int, now: int) -> int {
    if previous > now {
        previous
    } else {
        let advance = min_int(interval * steps_after(previous, interval, now), u64::MAX as int);
        if previous + advance <= u64::MAX {
            previous + advance
        } else {
            now + interval
        }
    }
}

proof fn lemma_steps_bracket(distance: int, interval: int, k: int)
    by (nonlinear_arith)
    requires
        interval > 0,
        distance >= 0,
        interval * (k - 1) <= distance,
        distance < interval * k,
    ensures
        distance / interval == k - 1,
{
}

proof fn lemma_steps_positive(distance: int, interval: int)
    by (nonlinear_arith)
    requires
        interval > 0,
        distance >= 0,
    ensures
        distance / interval >= 0,
        interval * (distance / interval) <= distance,
        distance < interval * (distance / interval + 1),
{
}

/// The grid deadline lies after `now`, no later than one interval after it
/// (once `previous` has passed), and on the grid of `previous`.
pub proof fn lemma_grid_deadline_is_next_tick(previous: int, interval: int, now: int)
    requires
        interval > 0,
    ensures
        steps_after(previous, interval, now) >= 1,
        grid_deadline(previous, interval, now) > now,
        grid_deadline(previous, interval, now) == previous + interval
            || grid_deadline(previous, interval, now) - interval <= now,
        previous <= now ==> grid_deadline(previous, interval, now) <= now + interval,
{
    if now >= previous {
        lemma_steps_positive(now - previous, interval);
        let q = (now - previous) / interval;
        assert(interval * (q + 1) == interval * q + interval) by (nonlinear_arith);
    }
}

/// The next time the terminal size is polled: the first tick of the grid
/// `previous + k * interval` (`k >= 1`) after `now`; missed ticks are skipped.
/// The interval may be zero only while `previous` is still ahead (else no
/// tick ever passes `now`), and the tick must lie within the clock's range.
pub fn next_poll_deadline(previous: u64, interval: u64, now: u64) -> (r: u64)
    requires
        interval > 0 || now < previous,
        grid_deadline(previous as int, interval as int, now as int) <= u64::MAX,
    ensures
        r == grid_deadline(previous as int, interval as int, now as int),
{
    let ghost steps = steps_after(previous as int, interval as int, now as int);
    proof {
        if interval > 0 {
            lemma_grid_deadline_is_next_tick(previous as int, interval as int, now as int);
            assert(interval * steps >= interval * 1) by (nonlinear_arith)
                requires
                    interval > 0,
                    steps >= 1,
            ;
        }
    }
    let mut next = previous + interval;
    let ghost mut k: int = 1;
    while next <= now
        invariant
            interval > 0 || next > now,
            steps == steps_after(previous as int, interval as int, now as int),
            previous + interval * steps <= u64::MAX,
            interval > 0 ==> previous + interval * steps > now,
            1 <= k <= steps || (interval == 0 && k == 1),
            next == previous + interval * k,
            k == 1 || interval * (k - 1) <= now - previous,
        decreases now + interval - next,
    {
        assert(interval * (k + 1) == interval * k + interval) by (nonlinear_arith);
        assert(k + 1 <= steps) by (nonlinear_arith)
            requires
                interval > 0,
                previous + interval * k <= now,
                previous + interval * steps > now,
        ;
        assert(interval * (k + 1) <= interval * steps) by (nonlinear_arith)
            requires
                interval > 0,
                k + 1 <= steps,
        ;
        next = next + interval;
        proof {
            k = k + 1;
        }
    }
    proof {
        if now >= previous {
            assert(interval * (k - 1) <= now - previous) by (nonlinear_arith)
                requires
                    k == 1 || interval * (k - 1) <= now - previous,
                    now >= previous,
            ;
            lemma_steps_bracket(now - previous, interval as int, k);
        } else {
            assert(interval * (k - 1) >= 0) by (nonlinear_arith)
                requires
                    k >= 1,
            ;
        }
    }
    next
}

/// The next frame deadline after a frame was due at `previous`: `previous`
/// while it is still ahead, else the first tick of its grid after `now`, so a
/// slow frame skips the ticks it missed instead of bunching frames up. Once
/// `previous` has passed, the interval must be positive, and where the tick
/// lies past the clock's range, one interval after `now` must not.
pub fn next_frame_deadline(previous: u64, interval: u64, now: u64) -> (r: u64)
    requires
        previous > now || interval > 0,
        previous > now || previous + min_int(interval * steps_after(previous as int, interval as int, now as int), u64::MAX as int) <= u64::MAX
            || now + interval <= u64::MAX,
    ensures
        r == frame_deadline(previous as int, interval as int, now as int),
{
    if previous > now {
        return previous;
    }
    let elapsed = (now - previous) as u128;
    let steps: u128 = elapsed / (interval as u128) + 1;
    proof {
        lemma_steps_positive(elapsed as int, interval as int);
    }
    let advance: u64 = match (interval as u128).checked_mul(steps) {
        Some(advance) => if advance > u64::MAX as u128 {
            u64::MAX
        } else {
            advance as u64
        },
        None => u64::MAX,
    };
    match previous.checked_add(advance) {
        Some(deadline) => deadline,
        None => now + interval,
    }
}

/// A frame deadline computed after `previous` has passed lies after `now`,
/// on the grid of `previous`, and skips exactly the ticks that were missed
/// (wherever the clock's range does not cut the grid short).
pub proof fn lemma_frame_deadline_keeps_cadence(previous: u64, interval: u64, now: u64)
    requires
        interval > 0,
        previous <= now,
        now + interval <= u64::MAX,
    ensures
        frame_deadline(previous as int, interval as int, now as int) == grid_deadline(
            previous as int,
            interval as int,
            now as int,
        ),
        frame_deadline(previous as int, interval as int, now as int) > now,
        frame_deadline(previous as int, interval as int, now as int) - interval <= now,
{
    lemma_grid_deadline_is_next_tick(previous as int, interval as int, now as int);
}

} // verus!
