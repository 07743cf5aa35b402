use vstd::prelude::*;
use crate::error::OptimizeError;

verus! {

/// Requests used in one day bucket.
#[derive(Debug, Clone, Copy, PartialEq, Eq, Structural)]
pub struct QuotaState {
    pub day_bucket: u64,
    pub used: u32,
}

/// The number of requests allowed per day; zero turns the limit off.
pub const DEFAULT_DAILY_QUOTA: u32 = 20;

/// Seconds in a day.
pub const SECONDS_PER_DAY: u64 = 86_400;

/// The state before any request was made.
pub fn initial_quota() -> (r: QuotaState)
    ensures
        r == (QuotaState { day_bucket: 0, used: 0 }),
{
    QuotaState { day_bucket: 0, used: 0 }
}

/// The state after one request is granted on day `today`, or `None` when the
/// limit is reached. A limit of zero grants every request and changes nothing.
pub open spec fn grant(q: QuotaState, today: u64, limit: u32) -> Option<QuotaState> {
    let used = if q.day_bucket == today { q.used } else { 0 };
    if limit == 0 {
        Some(q)
    } else if used >= limit {
        None
    } else {
        Some(QuotaState { day_bucket: today, used: (used + 1) as u32 })
    }
}

/// The state after `n` requests on day `today`, or `None` if one of them is
/// refused.
pub open spec fn grants(q: QuotaState, today: u64, limit: u32, n: nat) -> Option<QuotaState>
    decreases n,
{
    if n == 0 {
        Some(q)
    } else {
        match grants(q, today, limit, (n - 1) as nat) {
            Some(p) => grant(p, today, limit),
            None => None,
        }
    }
}

/// The day bucket of a Unix time in seconds.
pub fn day_bucket_of(unix_secs: u64) -> (r: u64)
    ensures
        r == unix_secs / SECONDS_PER_DAY,
{
    unix_secs / SECONDS_PER_DAY
}

/// Relies on `SystemTime::now` and `SystemTime::duration_since` for the
/// seconds since the Unix epoch; a clock set before the epoch reads as zero.
#[verifier::external_body]
fn unix_seconds() -> (r: u64) {
    std::time::SystemTime::now()
        .duration_since(std::time::UNIX_EPOCH)
        .unwrap_or_default()
        .as_secs()
}

/// The current UTC day bucket.
pub fn current_day_bucket_utc() -> (r: u64)
    ensures
        r <= u64::MAX / SECONDS_PER_DAY,
{
    day_bucket_of(unix_seconds())
}

/// Takes one request from the daily quota: the state to persist, or
/// `QuotaExceeded(limit)` when the limit is reached, in which case nothing
/// changes.
pub fn consume_daily_quota(quota: &QuotaState, today: u64, limit: u32) -> (r: Result<
    QuotaState,
    OptimizeError,
>)
    ensures
        grant(*quota, today, limit) is Some ==> r == Ok::<QuotaState, OptimizeError>(
            grant(*quota, today, limit)->Some_0,
        ),
        grant(*quota, today, limit) is None ==> r == Err::<QuotaState, OptimizeError>(
            OptimizeError::QuotaExceeded(limit),
        ),
{
    if limit == 0 {
        return Ok(*quota);
    }
    let used: u32 = if quota.day_bucket == today { quota.used } else { 0 };
    if used >= limit {
        return Err(OptimizeError::QuotaExceeded(limit));
    }
    Ok(QuotaState { day_bucket: today, used: used + 1 })
}

/// Starting from a fresh day, the first `k <= limit` requests are granted and
/// leave `k` used.
pub proof fn lemma_grants_count(q: QuotaState, today: u64, limit: u32, k: nat)
    requires
        limit > 0,
        k <= limit,
        q.day_bucket != today || q.used == 0,
    ensures
        k > 0 ==> grants(q, today, limit, k) == Some(QuotaState { day_bucket: today, used: k as u32 }),
    decreases k,
{
    if k == 1 {
        assert(grants(q, today, limit, 0) == Some(q));
    } else if k > 1 {
        lemma_grants_count(q, today, limit, (k - 1) as nat);
        assert(grants(q, today, limit, (k - 1) as nat) == Some(
            QuotaState { day_bucket: today, used: (k - 1) as u32 },
        ));
    }
}

/// After exactly `limit` grants within one day the next request is refused;
/// on any later day the count starts over, and the first request leaves one
/// used.
pub proof fn lemma_quota_exhausts(q: QuotaState, today: u64, limit: u32, later: u64)
    requires
        limit > 0,
        q.day_bucket != today || q.used == 0,
        later != today,
    ensures
        grants(q, today, limit, limit as nat) == Some(QuotaState { day_bucket: today, used: limit }),
        grant(QuotaState { day_bucket: today, used: limit }, today, limit) is None,
        grant(QuotaState { day_bucket: today, used: limit }, later, limit)
            == Some(QuotaState { day_bucket: later, used: 1 }),
{
    lemma_grants_count(q, today, limit, limit as nat);
}

} // verus!
