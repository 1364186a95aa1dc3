//! The per-owner fixed-window post-frequency guard.
//!
//! Before a post is created the owner's [`RateLimit`] record is checked at
//! the current time `now`: a window that ended at least 24 hours ago is
//! first treated as cleared, then the daily cap and the minimum inter-post
//! spacing are evaluated. A successful check commits the new window state;
//! a failing check leaves the record untouched.

use vstd::prelude::*;

use crate::constant::{MAX_POSTS_PER_DAY, MIN_TIME_BETWEEN_POSTS, RATE_WINDOW_SECONDS};
use crate::error::CaterpillarError;
use crate::state::RateLimit;

verus! {

/// Whether the rolling 24-hour window of the record has expired at `now`,
/// so that its count no longer applies.
pub open spec fn window_expired(rl: RateLimit, now: i64) -> bool {
    now - rl.last_reset_time >= RATE_WINDOW_SECONDS
}

/// The post count that the check evaluates at `now`: the stored count, or
/// zero once the window has expired.
pub open spec fn effective_count(rl: RateLimit, now: i64) -> u32 {
    if window_expired(rl, now) {
        0
    } else {
        rl.post_count_24h
    }
}

/// Whether a post creation at `now` passes the rate check: the effective
/// count is under the daily cap and at least the minimum spacing has passed
/// since the last post.
pub open spec fn rate_limit_ok(rl: RateLimit, now: i64) -> bool {
    effective_count(rl, now) < MAX_POSTS_PER_DAY && now - rl.last_post_time
        >= MIN_TIME_BETWEEN_POSTS
}

/// The record after a successful check at `now`: the post is counted, the
/// last post time becomes `now`, and an expired window is restarted at
/// `now`.
pub open spec fn rate_limit_commit(rl: RateLimit, now: i64) -> RateLimit {
    RateLimit {
        user: rl.user,
        last_post_time: now,
        post_count_24h: (effective_count(rl, now) + 1) as u32,
        last_reset_time: if window_expired(rl, now) {
            now
        } else {
            rl.last_reset_time
        },
    }
}

/// Whether the record's timestamps were taken from a monotonic clock that
/// now reads `now`.
pub open spec fn clock_consistent(rl: RateLimit, now: i64) -> bool {
    0 <= rl.last_post_time <= now && 0 <= rl.last_reset_time <= now
}

/// Applies the rate check at `now` and, on success, commits the new window
/// state. A failing check returns `RateLimitExceeded` — for the daily cap
/// and for the minimum spacing alike — and changes nothing.
pub fn check_rate_limit(rl: &mut RateLimit, now: i64) -> (r: Result<(), CaterpillarError>)
    requires
        clock_consistent(*old(rl), now),
    ensures
        rate_limit_ok(*old(rl), now) ==> r == Ok::<(), CaterpillarError>(()) && *final(rl)
            == rate_limit_commit(*old(rl), now),
        !rate_limit_ok(*old(rl), now) ==> r == Err::<(), CaterpillarError>(
            CaterpillarError::RateLimitExceeded,
        ) && *final(rl) == *old(rl),
{
    let expired = now - rl.last_reset_time >= RATE_WINDOW_SECONDS;
    let count: u32 = if expired {
        0
    } else {
        rl.post_count_24h
    };
    if count >= MAX_POSTS_PER_DAY {
        return Err(CaterpillarError::RateLimitExceeded);
    }
    if now - rl.last_post_time < MIN_TIME_BETWEEN_POSTS {
        return Err(CaterpillarError::RateLimitExceeded);
    }
    rl.post_count_24h = count + 1;
    rl.last_post_time = now;
    if expired {
        rl.last_reset_time = now;
    }
    Ok(())
}

/// A successful check never stores a count above the daily cap: the
/// committed count is the effective count, which the check bounded,
/// plus one.
pub proof fn lemma_committed_count_capped(rl: RateLimit, now: i64)
    requires
        rate_limit_ok(rl, now),
    ensures
        rate_limit_commit(rl, now).post_count_24h <= MAX_POSTS_PER_DAY,
{
}

/// The result of running the rate check, with commit, at each time of
/// `times` in turn; `None` as soon as one check fails.
pub open spec fn run_rate_checks(rl: RateLimit, times: Seq<i64>) -> Option<RateLimit>
    decreases times.len(),
{
    if times.len() == 0 {
        Some(rl)
    } else if rate_limit_ok(rl, times[0]) {
        run_rate_checks(rate_limit_commit(rl, times[0]), times.drop_first())
    } else {
        None
    }
}

/// Successful checks that all fall inside the record's current window
/// accumulate: each one adds exactly one to the stored count and leaves the
/// window start untouched.
pub proof fn lemma_window_accumulates(rl: RateLimit, times: Seq<i64>)
    requires
        run_rate_checks(rl, times) is Some,
        forall|i: int| 0 <= i < times.len() ==> times[i] - rl.last_reset_time
            < RATE_WINDOW_SECONDS,
    ensures
        run_rate_checks(rl, times)->Some_0.post_count_24h == rl.post_count_24h + times.len(),
        run_rate_checks(rl, times)->Some_0.last_reset_time == rl.last_reset_time,
    decreases times.len(),
{
    if times.len() > 0 {
        let rl1 = rate_limit_commit(rl, times[0]);
        assert(!window_expired(rl, times[0]));
        assert(rl1.post_count_24h == rl.post_count_24h + 1);
        assert(forall|i: int| 0 <= i < times.drop_first().len() ==> times.drop_first()[i]
            - rl1.last_reset_time < RATE_WINDOW_SECONDS);
        lemma_window_accumulates(rl1, times.drop_first());
    }
}

/// After ten successful checks inside one window, an eleventh check still
/// inside that window fails: the effective count has reached the daily cap.
pub proof fn lemma_daily_cap_blocks(rl: RateLimit, times: Seq<i64>, now: i64)
    requires
        rl.post_count_24h == 0,
        times.len() == MAX_POSTS_PER_DAY,
        run_rate_checks(rl, times) is Some,
        forall|i: int| 0 <= i < times.len() ==> times[i] - rl.last_reset_time
            < RATE_WINDOW_SECONDS,
        now - rl.last_reset_time < RATE_WINDOW_SECONDS,
    ensures
        !rate_limit_ok(run_rate_checks(rl, times)->Some_0, now),
{
    lemma_window_accumulates(rl, times);
}

/// Once the window has rolled over, a check at adequate spacing succeeds
/// again and restarts the window with a count of one.
pub proof fn lemma_window_rollover_resets(rl: RateLimit, now: i64)
    requires
        now - rl.last_reset_time >= RATE_WINDOW_SECONDS,
        now - rl.last_post_time >= MIN_TIME_BETWEEN_POSTS,
    ensures
        rate_limit_ok(rl, now),
        rate_limit_commit(rl, now).post_count_24h == 1,
        rate_limit_commit(rl, now).last_reset_time == now,
{
}

/// A successful check blocks any further check within the minimum spacing:
/// the committed record records the post time, so a check sooner than
/// `MIN_TIME_BETWEEN_POSTS` afterwards fails whatever the daily count.
pub proof fn lemma_minimum_spacing_blocks(rl: RateLimit, now1: i64, now2: i64)
    requires
        rate_limit_ok(rl, now1),
        now2 - now1 < MIN_TIME_BETWEEN_POSTS,
    ensures
        !rate_limit_ok(rate_limit_commit(rl, now1), now2),
{
}

} // verus!
