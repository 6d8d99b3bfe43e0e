//! Usage windows of an imported account, as the account picker and the
//! schedulers see them.

use vstd::prelude::*;
use crate::text::str_eq;
use crate::timestamps::utc_now_seconds;

verus! {

/// What the account picker knows about one imported account's usage.
#[derive(Clone, Copy, Debug, Default, PartialEq, Eq, Structural)]
pub struct AccountUsage {
    pub primary_window_minutes: Option<i64>,
    pub five_hour_reset_at: Option<i64>,
    pub five_hour_remaining_percent: Option<u8>,
    pub five_hour_exhausted: bool,
    pub weekly_reset_at: Option<i64>,
    pub weekly_unused: Option<bool>,
    pub weekly_remaining_percent: Option<u8>,
    pub weekly_exhausted: bool,
}

/// The later of two optional timestamps; `None` only when both are absent.
pub open spec fn later_of(a: Option<i64>, b: Option<i64>) -> Option<i64> {
    match (a, b) {
        (Some(x), Some(y)) => Some(if x >= y { x } else { y }),
        (Some(x), None) => Some(x),
        (None, Some(y)) => Some(y),
        (None, None) => None,
    }
}

impl AccountUsage {
    /// The reset time of the five-hour window, counted only when that window is exhausted.
    pub open spec fn exhausted_five_hour_reset(self) -> Option<i64> {
        if self.five_hour_exhausted { self.five_hour_reset_at } else { None }
    }

    /// The reset time of the weekly window, counted only when that window is exhausted.
    pub open spec fn exhausted_weekly_reset(self) -> Option<i64> {
        if self.weekly_exhausted { self.weekly_reset_at } else { None }
    }

    /// When every exhausted window has reset again.
    pub open spec fn spec_exhausted_until(self) -> Option<i64> {
        later_of(self.exhausted_five_hour_reset(), self.exhausted_weekly_reset())
    }

    /// The latest reset time among the exhausted windows, if any exhausted
    /// window reports one.
    pub fn exhausted_until(self) -> (res: Option<i64>)
        ensures
            res == self.spec_exhausted_until(),
    {
        let five_hour = if self.five_hour_exhausted { self.five_hour_reset_at } else { None };
        let weekly = if self.weekly_exhausted { self.weekly_reset_at } else { None };
        match (five_hour, weekly) {
            (Some(x), Some(y)) => Some(if x >= y { x } else { y }),
            (Some(x), None) => Some(x),
            (None, Some(y)) => Some(y),
            (None, None) => None,
        }
    }
}

} // verus!

verus! {

/// Minutes in a week.
pub const MINUTES_PER_WEEK: i64 = 10080;

/// What the limit logic reads from a reported used percentage (a float
/// the backend sends): whether it is finite and not negative, whether it
/// is exactly 0, whether it is at least 100, and the percentage left
/// (`100 - used`, clamped to 0..=100 and rounded).
#[derive(Clone, Copy, Debug, PartialEq, Eq, Structural)]
pub struct UsedPercent {
    pub finite_nonnegative: bool,
    pub is_zero: bool,
    pub at_least_full: bool,
    pub remaining_percent: u8,
}

impl UsedPercent {
    /// The facts hang together as they do for any float.
    pub open spec fn wf(self) -> bool {
        &&& self.remaining_percent <= 100
        &&& self.is_zero ==> self.finite_nonnegative && !self.at_least_full && self.remaining_percent == 100
        &&& self.at_least_full ==> self.remaining_percent == 0
    }

    /// The reading of a whole-number percentage `used`.
    pub fn whole(used: i64) -> (res: UsedPercent)
        ensures
            res.wf(),
            res.finite_nonnegative == (used >= 0),
            res.is_zero == (used == 0),
            res.at_least_full == (used >= 100),
            res.remaining_percent as int == if used <= 0 { 100 } else if used >= 100 { 0 } else { 100 - used },
    {
        let remaining: u8 = if used <= 0 { 100 } else if used >= 100 { 0 } else { (100 - used) as u8 };
        UsedPercent {
            finite_nonnegative: used >= 0,
            is_zero: used == 0,
            at_least_full: used >= 100,
            remaining_percent: remaining,
        }
    }
}

/// One usage window of a rate-limit snapshot.
#[derive(Clone, Copy, Debug, PartialEq, Eq, Structural)]
pub struct RateLimitWindow {
    pub used: UsedPercent,
    pub window_minutes: Option<i64>,
    pub resets_at: Option<i64>,
}

/// One rate-limit snapshot reported for an account.
#[derive(Clone, Debug, PartialEq, Eq)]
pub struct RateLimitSnapshot {
    pub limit_id: Option<String>,
    pub primary: Option<RateLimitWindow>,
    pub secondary: Option<RateLimitWindow>,
    /// The backend reports that the rate limit itself was reached.
    pub rate_limit_reached: bool,
}

/// A window of between 95% and 105% of a week.
pub open spec fn about_a_week(minutes: i64) -> bool {
    MINUTES_PER_WEEK * 95 / 100 <= minutes <= MINUTES_PER_WEEK * 105 / 100
}

/// The primary window stands for the week when it is the only window and
/// lasts about a week.
pub open spec fn primary_is_weekly(s: RateLimitSnapshot) -> bool {
    s.secondary.is_none() && (s.primary matches Some(w) && (w.window_minutes matches Some(m) && about_a_week(m)))
}

/// The usage an account shows, read from one snapshot.
pub open spec fn spec_usage_from_snapshot(s: RateLimitSnapshot) -> AccountUsage {
    let (five, weekly) = if primary_is_weekly(s) { (None, s.primary) } else { (s.primary, s.secondary) };
    AccountUsage {
        primary_window_minutes: match five { Some(w) => w.window_minutes, None => None },
        five_hour_reset_at: match five { Some(w) => w.resets_at, None => None },
        five_hour_remaining_percent: match five { Some(w) => Some(w.used.remaining_percent), None => None },
        five_hour_exhausted: five matches Some(w) && w.used.at_least_full,
        weekly_reset_at: match weekly { Some(w) => w.resets_at, None => None },
        weekly_unused: match weekly { Some(w) => Some(w.used.is_zero), None => None },
        weekly_remaining_percent: match weekly { Some(w) => Some(w.used.remaining_percent), None => None },
        weekly_exhausted: weekly matches Some(w) && w.used.at_least_full,
    }
}

/// The snapshot with the `codex` limit id, else the first snapshot.
pub open spec fn is_codex_limit(s: RateLimitSnapshot) -> bool {
    s.limit_id matches Some(id) && id@ == "codex"@
}

/// The account usage for a whole response: from the first `codex`
/// snapshot, else from the first snapshot, else empty.
pub open spec fn spec_account_usage(snapshots: Seq<RateLimitSnapshot>) -> AccountUsage {
    if exists|i: int| 0 <= i < snapshots.len() && is_codex_limit(#[trigger] snapshots[i]) {
        let i = choose|i: int| 0 <= i < snapshots.len() && is_codex_limit(snapshots[i])
            && forall|j: int| 0 <= j < i ==> !is_codex_limit(#[trigger] snapshots[j]);
        spec_usage_from_snapshot(snapshots[i])
    } else if snapshots.len() > 0 {
        spec_usage_from_snapshot(snapshots[0])
    } else {
        AccountUsage {
            primary_window_minutes: None,
            five_hour_reset_at: None,
            five_hour_remaining_percent: None,
            five_hour_exhausted: false,
            weekly_reset_at: None,
            weekly_unused: None,
            weekly_remaining_percent: None,
            weekly_exhausted: false,
        }
    }
}

/// Whether a snapshot carries the `codex` limit id.
pub fn is_codex_snapshot(snapshot: &RateLimitSnapshot) -> (res: bool)
    ensures
        res == is_codex_limit(*snapshot),
{
    match &snapshot.limit_id {
        Some(id) => str_eq(id.as_str(), "codex"),
        None => false,
    }
}

/// The usage that one snapshot shows: a lone primary window of about a
/// week is the weekly window; otherwise the primary window is the short
/// one and the secondary window the weekly one.
pub fn account_usage_from_snapshot(snapshot: &RateLimitSnapshot) -> (res: AccountUsage)
    ensures
        res == spec_usage_from_snapshot(*snapshot),
{
    let lower = MINUTES_PER_WEEK * 95 / 100;
    let upper = MINUTES_PER_WEEK * 105 / 100;
    let primary_weekly = snapshot.secondary.is_none() && match snapshot.primary {
        Some(w) => match w.window_minutes {
            Some(m) => lower <= m && m <= upper,
            None => false,
        },
        None => false,
    };
    let (five, weekly) = if primary_weekly { (None, snapshot.primary) } else { (snapshot.primary, snapshot.secondary) };
    AccountUsage {
        primary_window_minutes: match five { Some(w) => w.window_minutes, None => None },
        five_hour_reset_at: match five { Some(w) => w.resets_at, None => None },
        five_hour_remaining_percent: match five { Some(w) => Some(w.used.remaining_percent), None => None },
        five_hour_exhausted: match five { Some(w) => w.used.at_least_full, None => false },
        weekly_reset_at: match weekly { Some(w) => w.resets_at, None => None },
        weekly_unused: match weekly { Some(w) => Some(w.used.is_zero), None => None },
        weekly_remaining_percent: match weekly { Some(w) => Some(w.used.remaining_percent), None => None },
        weekly_exhausted: match weekly { Some(w) => w.used.at_least_full, None => false },
    }
}

/// The usage an account shows for a whole rate-limit response.
pub fn account_usage(snapshots: &Vec<RateLimitSnapshot>) -> (res: AccountUsage)
    ensures
        res == spec_account_usage(snapshots@),
{
    let mut i: usize = 0;
    while i < snapshots.len()
        invariant
            i <= snapshots@.len(),
            forall|j: int| 0 <= j < i ==> !is_codex_limit(#[trigger] snapshots@[j]),
        decreases snapshots@.len() - i,
    {
        if is_codex_snapshot(&snapshots[i]) {
            proof {
                let k = choose|k: int| 0 <= k < snapshots@.len() && is_codex_limit(snapshots@[k])
                    && forall|j: int| 0 <= j < k ==> !is_codex_limit(#[trigger] snapshots@[j]);
                assert(0 <= i < snapshots@.len() && is_codex_limit(snapshots@[i as int]));
                if k < i {
                } else if k > i {
                    assert(!is_codex_limit(snapshots@[i as int]));
                }
            }
            return account_usage_from_snapshot(&snapshots[i]);
        }
        i = i + 1;
    }
    if snapshots.len() > 0 {
        account_usage_from_snapshot(&snapshots[0])
    } else {
        AccountUsage {
            primary_window_minutes: None,
            five_hour_reset_at: None,
            five_hour_remaining_percent: None,
            five_hour_exhausted: false,
            weekly_reset_at: None,
            weekly_unused: None,
            weekly_remaining_percent: None,
            weekly_exhausted: false,
        }
    }
}

/// When a cached cooldown for the account ends, given a fresh reading at
/// time `now`: the end of its exhausted windows while any window is
/// exhausted; `now` when the reading shows usage left; unknown when the
/// reading shows nothing, since an empty response is no evidence that an
/// exhausted account recovered.
pub open spec fn spec_reset_at(usage: AccountUsage, now: i64) -> Option<i64> {
    if usage.five_hour_exhausted || usage.weekly_exhausted {
        usage.spec_exhausted_until()
    } else if usage.five_hour_remaining_percent.is_some() || usage.weekly_remaining_percent.is_some() {
        Some(now)
    } else {
        None
    }
}

/// `reset_at` for a reading taken at time `now`.
pub fn reset_at_time(usage: AccountUsage, now: i64) -> (res: Option<i64>)
    ensures
        res == spec_reset_at(usage, now),
{
    if usage.five_hour_exhausted || usage.weekly_exhausted {
        return usage.exhausted_until();
    }
    if usage.five_hour_remaining_percent.is_some() || usage.weekly_remaining_percent.is_some() {
        return Some(now);
    }
    None
}

/// When a cached cooldown ends after this fresh reading, with the current
/// time where the reading shows usage left.
pub fn reset_at(usage: AccountUsage) -> (res: Option<i64>)
    ensures
        usage.five_hour_exhausted || usage.weekly_exhausted ==> res == usage.spec_exhausted_until(),
        !(usage.five_hour_exhausted || usage.weekly_exhausted) ==> (res.is_some() <==> (
        usage.five_hour_remaining_percent.is_some() || usage.weekly_remaining_percent.is_some())),
{
    let now = utc_now_seconds();
    reset_at_time(usage, now)
}

} // verus!
