//! The schedule of the recurring swaps: one checkpoint every interval, counted from the start.
use vstd::arithmetic::div_mod::{lemma_fundamental_div_mod, lemma_mod_multiples_basic};
use vstd::prelude::*;

verus! {

/// The largest distance, in seconds, between a checkpoint and the swap that serves it.
pub const MAX_TOLERANCE_IN_SECONDS: u64 = 3600;

/// How far from a checkpoint, in seconds, its swap may run: one percent of the interval, and at
/// most an hour.
pub open spec fn tolerance(interval: int) -> int {
    if interval / 100 < MAX_TOLERANCE_IN_SECONDS {
        interval / 100
    } else {
        MAX_TOLERANCE_IN_SECONDS as int
    }
}

/// Whether `t` is a checkpoint: a whole number of intervals after the start.
pub open spec fn on_schedule(start: int, interval: int, t: int) -> bool {
    start <= t && (t - start) % interval == 0
}

/// Whether the checkpoint `t` may be served at time `now`, where `last` is the checkpoint that was
/// served last.
pub open spec fn due(start: int, interval: int, last: int, now: int, t: int) -> bool {
    &&& on_schedule(start, interval, t)
    &&& now - tolerance(interval) <= t <= now + tolerance(interval)
    &&& t != last
}

/// The last checkpoint that is not after `now`.
pub open spec fn checkpoint_before(start: int, interval: int, now: int) -> int {
    start + (now - start) / interval * interval
}

/// The first checkpoint after `now`.
pub open spec fn checkpoint_after(start: int, interval: int, now: int) -> int {
    start + ((now - start) / interval + 1) * interval
}

/// Whether the checkpoints around `now`, and the bounds of the windows around them that have to
/// be looked at, fit in 64 bits.
pub open spec fn schedule_in_range(start: u64, interval: u64, last: u64, now: u64) -> bool {
    let before = checkpoint_before(start as int, interval as int, now as int);
    let after = checkpoint_after(start as int, interval as int, now as int);
    let margin = tolerance(interval as int);
    &&& 0 < interval
    &&& start <= now
    &&& after <= u64::MAX
    &&& last != before ==> margin <= before
    &&& (last == before || before + margin < now) && last != after && after - margin <= now
        ==> after + margin <= u64::MAX
}

/// Two distinct checkpoints are at least one interval apart.
pub proof fn checkpoints_are_an_interval_apart(start: int, interval: int, a: int, b: int)
    requires
        0 < interval,
        on_schedule(start, interval, a),
        on_schedule(start, interval, b),
        a < b,
    ensures
        b - a >= interval,
{
    lemma_fundamental_div_mod(a - start, interval);
    lemma_fundamental_div_mod(b - start, interval);
    let i = (a - start) / interval;
    let j = (b - start) / interval;
    assert(interval * i < interval * j);
    assert(i < j) by (nonlinear_arith)
        requires
            interval * i < interval * j,
            0 < interval,
    ;
    assert(interval * j >= interval * i + interval) by (nonlinear_arith)
        requires
            i + 1 <= j,
            0 < interval,
    ;
}

/// The checkpoints around `now` are on the schedule, one interval apart, and enclose `now`.
pub proof fn checkpoints_enclose_now(start: int, interval: int, now: int)
    requires
        0 < interval,
        start <= now,
    ensures
        on_schedule(start, interval, checkpoint_before(start, interval, now)),
        on_schedule(start, interval, checkpoint_after(start, interval, now)),
        checkpoint_before(start, interval, now) <= now < checkpoint_after(start, interval, now),
        checkpoint_after(start, interval, now) == checkpoint_before(start, interval, now)
            + interval,
        checkpoint_before(start, interval, now) == now - (now - start) % interval,
{
    let q = (now - start) / interval;
    lemma_fundamental_div_mod(now - start, interval);
    assert(q * interval == interval * q) by (nonlinear_arith);
    assert((q + 1) * interval == q * interval + interval) by (nonlinear_arith);
    lemma_mod_multiples_basic(q, interval);
    lemma_mod_multiples_basic(q + 1, interval);
}

/// Every checkpoint that is within the tolerance of `now` is one of the two around `now`.
proof fn lemma_due_is_adjacent(start: int, interval: int, now: int, t: int)
    requires
        0 < interval,
        start <= now,
        on_schedule(start, interval, t),
        now - tolerance(interval) <= t <= now + tolerance(interval),
    ensures
        t == checkpoint_before(start, interval, now) || t == checkpoint_after(
            start,
            interval,
            now,
        ),
{
    checkpoints_enclose_now(start, interval, now);
    let before = checkpoint_before(start, interval, now);
    let after = checkpoint_after(start, interval, now);
    assert(tolerance(interval) < interval);
    if t < before {
        checkpoints_are_an_interval_apart(start, interval, t, before);
    } else if after < t {
        checkpoints_are_an_interval_apart(start, interval, after, t);
    } else if before < t && t < after {
        checkpoints_are_an_interval_apart(start, interval, before, t);
    }
}

/// At any time at most one checkpoint is due.
pub proof fn at_most_one_checkpoint_is_due(
    start: int,
    interval: int,
    last: int,
    now: int,
    t: int,
    u: int,
)
    requires
        0 < interval,
        due(start, interval, last, now, t),
        due(start, interval, last, now, u),
    ensures
        t == u,
{
    assert(2 * tolerance(interval) < interval);
    if t < u {
        checkpoints_are_an_interval_apart(start, interval, t, u);
    } else if u < t {
        checkpoints_are_an_interval_apart(start, interval, u, t);
    }
}

/// As time goes on, so do the checkpoints: one that is due after another was served is later.
pub proof fn next_due_checkpoint_is_later(
    start: int,
    interval: int,
    earlier_last: int,
    earlier_now: int,
    served: int,
    now: int,
    t: int,
)
    requires
        0 < interval,
        earlier_now <= now,
        due(start, interval, earlier_last, earlier_now, served),
        due(start, interval, served, now, t),
    ensures
        served + interval <= t,
{
    assert(2 * tolerance(interval) < interval);
    if t < served {
        checkpoints_are_an_interval_apart(start, interval, t, served);
    } else {
        checkpoints_are_an_interval_apart(start, interval, served, t);
    }
}

/// The tolerance around each checkpoint of a schedule with this interval, in seconds.
pub fn tolerance_in_seconds(interval: u64) -> (margin: u64)
    ensures
        margin == tolerance(interval as int),
        margin <= 3600,
        100 * margin <= interval,
        margin == 3600 || interval < 100 * (margin + 1),
{
    let percent: u64 = interval / 100;
    if percent < MAX_TOLERANCE_IN_SECONDS {
        percent
    } else {
        MAX_TOLERANCE_IN_SECONDS
    }
}

/// The checkpoint that a swap at time `now` would serve, if there is one.
pub fn due_checkpoint(start: u64, interval: u64, last: u64, now: u64) -> (checkpoint: Option<u64>)
    requires
        schedule_in_range(start, interval, last, now),
    ensures
        match checkpoint {
            Some(t) => {
                &&& due(start as int, interval as int, last as int, now as int, t as int)
                &&& start <= t && (t - start) % interval as int == 0
                &&& -3600 <= now - t <= 3600
                &&& -interval <= 100 * (now - t) <= interval
                &&& t != last
            },
            None => forall|t: int|
                !due(start as int, interval as int, last as int, now as int, t),
        },
{
    proof {
        checkpoints_enclose_now(start as int, interval as int, now as int);
        assert forall|t: int|
            due(start as int, interval as int, last as int, now as int, t) implies t
            == checkpoint_before(start as int, interval as int, now as int) || t
            == checkpoint_after(start as int, interval as int, now as int) by {
            lemma_due_is_adjacent(start as int, interval as int, now as int, t);
        }
    }
    let margin: u64 = tolerance_in_seconds(interval);
    let prev_checkpoint: u64 = (now - start) / interval;
    assert(prev_checkpoint + 1 <= (prev_checkpoint + 1) * interval) by (nonlinear_arith)
        requires
            0 < interval,
            0 <= prev_checkpoint,
    ;
    let prev_ts: u64 = start + prev_checkpoint * interval;
    let next_checkpoint: u64 = prev_checkpoint + 1;
    let next_ts: u64 = start + next_checkpoint * interval;
    if last != prev_ts && now >= prev_ts - margin && now <= prev_ts + margin {
        Some(prev_ts)
    } else if last != next_ts && now >= next_ts - margin && now <= next_ts + margin {
        Some(next_ts)
    } else {
        None
    }
}

/// Whether [`due_checkpoint`] can be asked about these times.
pub fn schedule_fits(start: u64, interval: u64, last: u64, now: u64) -> (fits: bool)
    ensures
        fits == schedule_in_range(start, interval, last, now),
{
    if interval == 0 || now < start {
        return false;
    }
    proof {
        checkpoints_enclose_now(start as int, interval as int, now as int);
    }
    let margin: u64 = tolerance_in_seconds(interval);
    let before: u64 = now - (now - start) % interval;
    let max: u64 = u64::MAX;
    if max - before < interval {
        return false;
    }
    let after: u64 = before + interval;
    if last != before && before < margin {
        return false;
    }
    let before_is_served: bool = last == before || margin < now - before;
    !(before_is_served && last != after && after - now <= margin && max - after < margin)
}

} // verus!
