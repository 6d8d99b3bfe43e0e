//! Keeping imported accounts' weekly windows started: the scheduler's
//! settings, its bounded per-account status, and how each ping outcome
//! is recorded.

use vstd::prelude::*;
use crate::account_usage::AccountUsage;
use crate::auto_redeem_resets::AutoRedeemResets;
use crate::auto_redeem_resets::FreshRedemption;
use crate::text::str_eq;

verus! {

/// Most accounts whose weekly-window status is kept.
pub const MAX_STATUS_ACCOUNTS: usize = 64;
/// Seconds between scans.
pub const SCAN_INTERVAL_SECS: u64 = 300;
/// Seconds one account's redemption may take in a scan.
pub const RESET_REDEMPTION_TIMEOUT_SECS: u64 = 90;

/// What the scheduler automates.
#[derive(Clone, Copy, Debug, PartialEq, Eq, Structural)]
pub struct SchedulerSettings {
    pub weekly: bool,
    pub auto_redeem: Option<AutoRedeemResets>,
}

impl SchedulerSettings {
    /// Nothing automated.
    pub fn default() -> (res: SchedulerSettings)
        ensures
            !res.weekly,
            res.auto_redeem.is_none(),
    {
        SchedulerSettings { weekly: false, auto_redeem: None }
    }

    /// The scheduler has work when either automation is on.
    pub fn enabled(self) -> (res: bool)
        ensures
            res == (self.weekly || self.auto_redeem.is_some()),
    {
        self.weekly || self.auto_redeem.is_some()
    }
}

/// An account's weekly-window state, with the weekly percentage left where known.
#[derive(Clone, Copy, Debug, PartialEq, Eq, Structural)]
pub enum WeeklyWindowStatus {
    Waiting(Option<u8>),
    Started(Option<u8>),
    Retrying(Option<u8>),
    SignInRequired,
    Failed,
}

/// The weekly usage handed to the attempt store.
#[derive(Clone, Copy, Debug, PartialEq, Eq, Structural)]
pub enum WeeklyWindowUsage {
    Missing,
    Present { unused: bool, resets_at: Option<i64> },
}

/// How pinging the weekly window went.
#[derive(Clone, Copy, Debug, PartialEq, Eq, Structural)]
pub enum WeeklyWindowPingOutcome {
    Completed,
    LocalSetup,
    Rejected { status: Option<u16> },
    LoginRequired,
    AuthenticationRecovery,
    Ambiguous { status: Option<u16> },
    UnsupportedConfiguration,
    UnsupportedRouting,
}

/// Why an attempt may be retried.
#[derive(Clone, Copy, Debug, PartialEq, Eq, Structural)]
pub enum WeeklyWindowRetryableError {
    Transient,
    LocalSetup,
    Rejected { status: Option<u16> },
    LoginRequired,
    AuthenticationRecovery,
}

/// Why an attempt cannot work with this configuration.
#[derive(Clone, Copy, Debug, PartialEq, Eq, Structural)]
pub enum WeeklyWindowError {
    UnsupportedConfiguration,
    UnsupportedRouting,
}

/// What the attempt store records for an attempt.
#[derive(Clone, Copy, Debug, PartialEq, Eq, Structural)]
pub enum WeeklyWindowAttemptOutcome {
    Completed { refreshed_usage: WeeklyWindowUsage },
    Retryable { error: WeeklyWindowRetryableError },
    Ambiguous { status: Option<u16> },
    Unsupported { error: WeeklyWindowError },
}

/// Whether the attempt store lets an attempt start now.
#[derive(Clone, Copy, Debug, PartialEq, Eq, Structural)]
pub enum WeeklyWindowAttemptDecision {
    Ready,
    NotDue,
    Locked,
    StateUnavailable,
}

/// The weekly usage of an account: present when its weekly window
/// reports whether it is unused.
pub open spec fn spec_weekly_usage(usage: Option<AccountUsage>) -> WeeklyWindowUsage {
    match usage {
        Some(u) => match u.weekly_unused {
            Some(unused) => WeeklyWindowUsage::Present { unused, resets_at: u.weekly_reset_at },
            None => WeeklyWindowUsage::Missing,
        },
        None => WeeklyWindowUsage::Missing,
    }
}

/// The weekly usage handed to the attempt store for an account.
pub fn weekly_usage(usage: Option<AccountUsage>) -> (res: WeeklyWindowUsage)
    ensures
        res == spec_weekly_usage(usage),
{
    match usage {
        Some(u) => match u.weekly_unused {
            Some(unused) => WeeklyWindowUsage::Present { unused, resets_at: u.weekly_reset_at },
            None => WeeklyWindowUsage::Missing,
        },
        None => WeeklyWindowUsage::Missing,
    }
}

/// The attempt record for a ping outcome: completion keeps the refreshed
/// usage, failures keep their evidence (status codes), unsupported setups
/// are recorded as such.
pub open spec fn spec_attempt_outcome(outcome: WeeklyWindowPingOutcome, refreshed_usage: WeeklyWindowUsage) -> WeeklyWindowAttemptOutcome {
    match outcome {
        WeeklyWindowPingOutcome::Completed => WeeklyWindowAttemptOutcome::Completed { refreshed_usage },
        WeeklyWindowPingOutcome::LocalSetup => WeeklyWindowAttemptOutcome::Retryable { error: WeeklyWindowRetryableError::LocalSetup },
        WeeklyWindowPingOutcome::Rejected { status } => WeeklyWindowAttemptOutcome::Retryable { error: WeeklyWindowRetryableError::Rejected { status } },
        WeeklyWindowPingOutcome::LoginRequired => WeeklyWindowAttemptOutcome::Retryable { error: WeeklyWindowRetryableError::LoginRequired },
        WeeklyWindowPingOutcome::AuthenticationRecovery => WeeklyWindowAttemptOutcome::Retryable { error: WeeklyWindowRetryableError::AuthenticationRecovery },
        WeeklyWindowPingOutcome::Ambiguous { status } => WeeklyWindowAttemptOutcome::Ambiguous { status },
        WeeklyWindowPingOutcome::UnsupportedConfiguration => WeeklyWindowAttemptOutcome::Unsupported { error: WeeklyWindowError::UnsupportedConfiguration },
        WeeklyWindowPingOutcome::UnsupportedRouting => WeeklyWindowAttemptOutcome::Unsupported { error: WeeklyWindowError::UnsupportedRouting },
    }
}

/// The attempt record for a ping outcome.
pub fn attempt_outcome(outcome: WeeklyWindowPingOutcome, refreshed_usage: WeeklyWindowUsage) -> (res: WeeklyWindowAttemptOutcome)
    ensures
        res == spec_attempt_outcome(outcome, refreshed_usage),
{
    match outcome {
        WeeklyWindowPingOutcome::Completed => WeeklyWindowAttemptOutcome::Completed { refreshed_usage },
        WeeklyWindowPingOutcome::LocalSetup => WeeklyWindowAttemptOutcome::Retryable { error: WeeklyWindowRetryableError::LocalSetup },
        WeeklyWindowPingOutcome::Rejected { status } => WeeklyWindowAttemptOutcome::Retryable { error: WeeklyWindowRetryableError::Rejected { status } },
        WeeklyWindowPingOutcome::LoginRequired => WeeklyWindowAttemptOutcome::Retryable { error: WeeklyWindowRetryableError::LoginRequired },
        WeeklyWindowPingOutcome::AuthenticationRecovery => WeeklyWindowAttemptOutcome::Retryable { error: WeeklyWindowRetryableError::AuthenticationRecovery },
        WeeklyWindowPingOutcome::Ambiguous { status } => WeeklyWindowAttemptOutcome::Ambiguous { status },
        WeeklyWindowPingOutcome::UnsupportedConfiguration => WeeklyWindowAttemptOutcome::Unsupported { error: WeeklyWindowError::UnsupportedConfiguration },
        WeeklyWindowPingOutcome::UnsupportedRouting => WeeklyWindowAttemptOutcome::Unsupported { error: WeeklyWindowError::UnsupportedRouting },
    }
}

/// The status shown after a ping: started with the refreshed percentage,
/// sign-in needed, retrying with the earlier percentage, or failed.
pub open spec fn spec_ping_status(outcome: WeeklyWindowPingOutcome, refreshed_remaining: Option<u8>, remaining: Option<u8>) -> WeeklyWindowStatus {
    match outcome {
        WeeklyWindowPingOutcome::Completed => WeeklyWindowStatus::Started(refreshed_remaining),
        WeeklyWindowPingOutcome::LoginRequired | WeeklyWindowPingOutcome::AuthenticationRecovery => WeeklyWindowStatus::SignInRequired,
        WeeklyWindowPingOutcome::LocalSetup | WeeklyWindowPingOutcome::Rejected { .. } | WeeklyWindowPingOutcome::Ambiguous { .. } => WeeklyWindowStatus::Retrying(remaining),
        WeeklyWindowPingOutcome::UnsupportedConfiguration | WeeklyWindowPingOutcome::UnsupportedRouting => WeeklyWindowStatus::Failed,
    }
}

/// The status shown after a ping.
pub fn ping_status(outcome: WeeklyWindowPingOutcome, refreshed_remaining: Option<u8>, remaining: Option<u8>) -> (res: WeeklyWindowStatus)
    ensures
        res == spec_ping_status(outcome, refreshed_remaining, remaining),
{
    match outcome {
        WeeklyWindowPingOutcome::Completed => WeeklyWindowStatus::Started(refreshed_remaining),
        WeeklyWindowPingOutcome::LoginRequired | WeeklyWindowPingOutcome::AuthenticationRecovery => WeeklyWindowStatus::SignInRequired,
        WeeklyWindowPingOutcome::LocalSetup | WeeklyWindowPingOutcome::Rejected { .. } | WeeklyWindowPingOutcome::Ambiguous { .. } => WeeklyWindowStatus::Retrying(remaining),
        WeeklyWindowPingOutcome::UnsupportedConfiguration | WeeklyWindowPingOutcome::UnsupportedRouting => WeeklyWindowStatus::Failed,
    }
}

/// The status of an account whose attempt did not start: `None` when it
/// is ready to start; waiting when it is not due or another process holds
/// it (failed when its usage could not be read); failed when the attempt
/// state cannot be read.
pub fn decision_status(decision: WeeklyWindowAttemptDecision, has_usage: bool, remaining: Option<u8>) -> (res: Option<WeeklyWindowStatus>)
    ensures
        res == match decision {
            WeeklyWindowAttemptDecision::Ready => None,
            WeeklyWindowAttemptDecision::NotDue | WeeklyWindowAttemptDecision::Locked =>
                Some(if has_usage { WeeklyWindowStatus::Waiting(remaining) } else { WeeklyWindowStatus::Failed }),
            WeeklyWindowAttemptDecision::StateUnavailable => Some(WeeklyWindowStatus::Failed),
        },
{
    match decision {
        WeeklyWindowAttemptDecision::Ready => None,
        WeeklyWindowAttemptDecision::NotDue | WeeklyWindowAttemptDecision::Locked =>
            Some(if has_usage { WeeklyWindowStatus::Waiting(remaining) } else { WeeklyWindowStatus::Failed }),
        WeeklyWindowAttemptDecision::StateUnavailable => Some(WeeklyWindowStatus::Failed),
    }
}

/// What a scan does once started.
#[derive(Clone, Copy, Debug, PartialEq, Eq, Structural)]
pub struct ScanPlan {
    /// Redemption settings, when reset redemption runs in this scan.
    pub auto_redeem: Option<AutoRedeemResets>,
    /// Whether new redemptions may start.
    pub fresh_redemption: FreshRedemption,
    /// Whether weekly windows are pinged in this scan.
    pub weekly: bool,
}

/// The plan of a scan: nothing when automation is off; when the model
/// provider cannot ping weekly windows, no pings and only the completion
/// of redemptions already under way.
pub fn scan_plan(settings: SchedulerSettings, ping_supported: bool) -> (res: Option<ScanPlan>)
    ensures
        !(settings.weekly || settings.auto_redeem.is_some()) ==> res.is_none(),
        (settings.weekly || settings.auto_redeem.is_some()) ==> res == Some(ScanPlan {
            auto_redeem: settings.auto_redeem,
            fresh_redemption: if ping_supported { FreshRedemption::Allowed } else { FreshRedemption::RecoveryOnly },
            weekly: settings.weekly && ping_supported,
        }),
{
    if !settings.enabled() {
        return None;
    }
    Some(ScanPlan {
        auto_redeem: settings.auto_redeem,
        fresh_redemption: if ping_supported { FreshRedemption::Allowed } else { FreshRedemption::RecoveryOnly },
        weekly: settings.weekly && ping_supported,
    })
}

/// Account statuses as a map from account id.
pub open spec fn statuses_view(statuses: Seq<(String, WeeklyWindowStatus)>) -> Map<Seq<char>, WeeklyWindowStatus> {
    Map::new(
        |id: Seq<char>| exists|i: int| 0 <= i < statuses.len() && #[trigger] statuses[i].0@ == id,
        |id: Seq<char>| statuses[choose|i: int| 0 <= i < statuses.len() && #[trigger] statuses[i].0@ == id].1,
    )
}

/// No account id occurs twice.
pub open spec fn statuses_wf(statuses: Seq<(String, WeeklyWindowStatus)>) -> bool {
    forall|i: int, j: int| 0 <= i < j < statuses.len() ==> statuses[i].0@ != statuses[j].0@
}

/// Recording `status` for `id` in statuses seen as `view` and holding
/// `len` accounts: a known account's status is replaced; a new account is
/// added only while there are fewer than `MAX_STATUS_ACCOUNTS`.
pub open spec fn status_recorded(
    view: Map<Seq<char>, WeeklyWindowStatus>,
    len: nat,
    id: Seq<char>,
    status: WeeklyWindowStatus,
) -> (Map<Seq<char>, WeeklyWindowStatus>, nat) {
    if view.dom().contains(id) {
        (view.insert(id, status), len)
    } else if len < MAX_STATUS_ACCOUNTS {
        (view.insert(id, status), len + 1)
    } else {
        (view, len)
    }
}

/// The statuses, and how many accounts they hold, after recording each of
/// `records` in turn from none.
pub open spec fn statuses_recorded(
    records: Seq<(Seq<char>, WeeklyWindowStatus)>,
) -> (Map<Seq<char>, WeeklyWindowStatus>, nat)
    decreases records.len(),
{
    if records.len() == 0 {
        (Map::empty(), 0)
    } else {
        let before = statuses_recorded(records.drop_last());
        status_recorded(before.0, before.1, records.last().0, records.last().1)
    }
}

/// However many statuses are recorded, and for however many accounts, at
/// most `MAX_STATUS_ACCOUNTS` accounts are kept.
pub proof fn lemma_recorded_statuses_stay_bounded(records: Seq<(Seq<char>, WeeklyWindowStatus)>)
    ensures
        statuses_recorded(records).1 <= MAX_STATUS_ACCOUNTS,
    decreases records.len(),
{
    if records.len() > 0 {
        lemma_recorded_statuses_stay_bounded(records.drop_last());
    }
}

/// Records an account's status, keeping at most `MAX_STATUS_ACCOUNTS`
/// accounts: a known account's status is replaced; a new account is added
/// only while there is room.
pub fn record_status(statuses: &mut Vec<(String, WeeklyWindowStatus)>, account_id: &str, status: WeeklyWindowStatus)
    requires
        statuses_wf(old(statuses)@),
    ensures
        statuses_wf(final(statuses)@),
        old(statuses)@.len() <= MAX_STATUS_ACCOUNTS ==> final(statuses)@.len() <= MAX_STATUS_ACCOUNTS,
        (statuses_view(final(statuses)@), final(statuses)@.len()) == status_recorded(
            statuses_view(old(statuses)@), old(statuses)@.len(), account_id@, status),
{
    let ghost before = statuses@;
    let mut i: usize = 0;
    while i < statuses.len()
        invariant
            statuses@ == before,
            before == old(statuses)@,
            statuses_wf(before),
            i <= before.len(),
            forall|j: int| 0 <= j < i ==> before[j].0@ != account_id@,
        decreases before.len() - i,
    {
        if str_eq(statuses[i].0.as_str(), account_id) {
            let key = statuses[i].0.clone();
            statuses.set(i, (key, status));
            proof {
                let after = statuses@;
                assert(before[i as int].0@ == account_id@);
                assert(statuses_view(before).dom().contains(account_id@));
                assert forall|k: int| 0 <= k < after.len() implies #[trigger] after[k].0@ == before[k].0@ by {}
                assert forall|id: Seq<char>| #[trigger] statuses_view(after).dom().contains(id) == statuses_view(before).insert(account_id@, status).dom().contains(id) by {
                    if exists|k: int| 0 <= k < before.len() && #[trigger] before[k].0@ == id {
                        let k = choose|k: int| 0 <= k < before.len() && #[trigger] before[k].0@ == id;
                        assert(after[k].0@ == id);
                    }
                    if exists|k: int| 0 <= k < after.len() && #[trigger] after[k].0@ == id {
                        let k = choose|k: int| 0 <= k < after.len() && #[trigger] after[k].0@ == id;
                        assert(before[k].0@ == id);
                    }
                }
                assert forall|id: Seq<char>| #[trigger] statuses_view(after).dom().contains(id) implies statuses_view(after)[id] == statuses_view(before).insert(account_id@, status)[id] by {
                    let k = choose|k: int| 0 <= k < after.len() && #[trigger] after[k].0@ == id;
                    if id == account_id@ {
                        if k != i {
                            if k < i { assert(before[k].0@ != before[i as int].0@); } else { assert(before[i as int].0@ != before[k].0@); }
                        }
                    } else {
                        let k2 = choose|k2: int| 0 <= k2 < before.len() && #[trigger] before[k2].0@ == id;
                        assert(after[k2].0@ == id);
                        if k != k2 {
                            if k < k2 { assert(before[k].0@ != before[k2].0@); } else { assert(before[k2].0@ != before[k].0@); }
                        }
                    }
                }
                assert(statuses_view(after) =~= statuses_view(before).insert(account_id@, status));
            }
            return;
        }
        i = i + 1;
    }
    proof {
        assert(!statuses_view(before).dom().contains(account_id@));
    }
    if statuses.len() < MAX_STATUS_ACCOUNTS {
        statuses.push((String::from_str(account_id), status));
        proof {
            let after = statuses@;
            let n = before.len() as int;
            assert(after[n].0@ == account_id@);
            assert forall|id: Seq<char>| #[trigger] statuses_view(after).dom().contains(id) == statuses_view(before).insert(account_id@, status).dom().contains(id) by {
                if exists|k: int| 0 <= k < before.len() && #[trigger] before[k].0@ == id {
                    let k = choose|k: int| 0 <= k < before.len() && #[trigger] before[k].0@ == id;
                    assert(after[k].0@ == id);
                }
                if exists|k: int| 0 <= k < after.len() && #[trigger] after[k].0@ == id {
                    let k = choose|k: int| 0 <= k < after.len() && #[trigger] after[k].0@ == id;
                    if k < n { assert(before[k].0@ == id); }
                }
            }
            assert forall|id: Seq<char>| #[trigger] statuses_view(after).dom().contains(id) implies statuses_view(after)[id] == statuses_view(before).insert(account_id@, status)[id] by {
                let k = choose|k: int| 0 <= k < after.len() && #[trigger] after[k].0@ == id;
                if id == account_id@ {
                    if k < n { assert(before[k].0@ == id); }
                } else {
                    let k2 = choose|k2: int| 0 <= k2 < before.len() && #[trigger] before[k2].0@ == id;
                    assert(after[k2].0@ == id);
                    if k != k2 {
                        if k == n {
                        } else if k < k2 { assert(before[k].0@ != before[k2].0@); } else { assert(before[k2].0@ != before[k].0@); }
                    }
                }
            }
            assert(statuses_view(after) =~= statuses_view(before).insert(account_id@, status));
        }
    }
}

/// The scheduler's shared state: what it automates, and the latest
/// weekly-window status of each account.
pub struct WeeklyWindowScheduler {
    settings: SchedulerSettings,
    statuses: Vec<(String, WeeklyWindowStatus)>,
}

impl WeeklyWindowScheduler {
    /// The current settings.
    pub closed spec fn spec_settings(self) -> SchedulerSettings {
        self.settings
    }

    /// The account statuses.
    pub closed spec fn spec_statuses(self) -> Map<Seq<char>, WeeklyWindowStatus> {
        statuses_view(self.statuses@)
    }

    /// No account twice, at most `MAX_STATUS_ACCOUNTS` accounts.
    pub closed spec fn wf(self) -> bool {
        statuses_wf(self.statuses@) && self.statuses@.len() <= MAX_STATUS_ACCOUNTS
    }

    /// A scheduler with these settings and no statuses yet.
    pub fn new(settings: SchedulerSettings) -> (res: WeeklyWindowScheduler)
        ensures
            res.wf(),
            res.spec_settings() == settings,
            res.spec_statuses() == Map::<Seq<char>, WeeklyWindowStatus>::empty(),
    {
        let res = WeeklyWindowScheduler { settings, statuses: Vec::new() };
        assert(res.spec_statuses() =~= Map::<Seq<char>, WeeklyWindowStatus>::empty());
        res
    }

    /// What the scheduler automates now.
    pub fn settings(&self) -> (res: SchedulerSettings)
        ensures
            res == self.spec_settings(),
    {
        self.settings
    }

    /// Changes what the scheduler automates. Turning weekly starts off
    /// forgets the statuses. Returns whether the settings changed, which is
    /// when a running scan must stop and a new one start if enabled.
    pub fn set_settings(&mut self, weekly: bool, auto_redeem: Option<AutoRedeemResets>) -> (changed: bool)
        requires
            old(self).wf(),
        ensures
            final(self).wf(),
            final(self).spec_settings() == (SchedulerSettings { weekly, auto_redeem }),
            changed == (old(self).spec_settings() != (SchedulerSettings { weekly, auto_redeem })),
            !weekly ==> final(self).spec_statuses() == Map::<Seq<char>, WeeklyWindowStatus>::empty(),
            weekly ==> final(self).spec_statuses() == old(self).spec_statuses(),
    {
        if !weekly {
            self.statuses.clear();
            assert(self.spec_statuses() =~= Map::<Seq<char>, WeeklyWindowStatus>::empty());
        }
        let next = SchedulerSettings { weekly, auto_redeem };
        let changed = !(self.settings == next);
        self.settings = next;
        changed
    }

    /// Turns weekly starts on or off, keeping the redemption settings.
    pub fn set_weekly(&mut self, weekly: bool) -> (changed: bool)
        requires
            old(self).wf(),
        ensures
            final(self).wf(),
            final(self).spec_settings() == (SchedulerSettings { weekly, auto_redeem: old(self).spec_settings().auto_redeem }),
            changed == (old(self).spec_settings().weekly != weekly),
    {
        let auto_redeem = self.settings.auto_redeem;
        self.set_settings(weekly, auto_redeem)
    }

    /// Replaces the statuses with the ones a finished scan collected.
    pub fn publish_statuses(&mut self, statuses: Vec<(String, WeeklyWindowStatus)>)
        requires
            old(self).wf(),
            statuses_wf(statuses@),
            statuses@.len() <= MAX_STATUS_ACCOUNTS,
        ensures
            final(self).wf(),
            final(self).spec_settings() == old(self).spec_settings(),
            final(self).spec_statuses() == statuses_view(statuses@),
    {
        self.statuses = statuses;
    }

    /// The statuses of the accounts, one entry per account.
    pub fn statuses(&self) -> (res: Vec<(String, WeeklyWindowStatus)>)
        requires
            self.wf(),
        ensures
            statuses_wf(res@),
            statuses_view(res@) == self.spec_statuses(),
    {
        let mut out: Vec<(String, WeeklyWindowStatus)> = Vec::new();
        let mut i: usize = 0;
        while i < self.statuses.len()
            invariant
                i <= self.statuses@.len(),
                out@.len() == i,
                forall|k: int| 0 <= k < i ==> (#[trigger] out@[k]).0@ == self.statuses@[k].0@ && out@[k].1 == self.statuses@[k].1,
            decreases self.statuses@.len() - i,
        {
            out.push((self.statuses[i].0.clone(), self.statuses[i].1));
            i = i + 1;
        }
        proof {
            let a = out@;
            let b = self.statuses@;
            assert forall|id: Seq<char>| #[trigger] statuses_view(a).dom().contains(id) == statuses_view(b).dom().contains(id) by {
                if exists|k: int| 0 <= k < a.len() && #[trigger] a[k].0@ == id {
                    let k = choose|k: int| 0 <= k < a.len() && #[trigger] a[k].0@ == id;
                    assert(b[k].0@ == id);
                }
                if exists|k: int| 0 <= k < b.len() && #[trigger] b[k].0@ == id {
                    let k = choose|k: int| 0 <= k < b.len() && #[trigger] b[k].0@ == id;
                    assert(a[k].0@ == id);
                }
            }
            assert forall|id: Seq<char>| #[trigger] statuses_view(a).dom().contains(id) implies statuses_view(a)[id] == statuses_view(b)[id] by {
                let k = choose|k: int| 0 <= k < a.len() && #[trigger] a[k].0@ == id;
                let k2 = choose|k2: int| 0 <= k2 < b.len() && #[trigger] b[k2].0@ == id;
                assert(a[k2].0@ == id);
                if k != k2 {
                    if k < k2 { assert(b[k].0@ != b[k2].0@); } else { assert(b[k2].0@ != b[k].0@); }
                }
            }
            assert(statuses_view(a) =~= statuses_view(b));
            assert forall|x: int, y: int| 0 <= x < y < a.len() implies a[x].0@ != a[y].0@ by {
                assert(b[x].0@ != b[y].0@);
            }
        }
        out
    }
}

} // verus!

verus! {

/// Where the weekly start of one account stands within a scan.
#[derive(Clone, Copy, Debug, PartialEq, Eq, Structural)]
pub enum AccountScanStage {
    /// The attempt store is asked whether an attempt may start.
    Deciding { has_usage: bool, remaining: Option<u8> },
    /// The attempt may start; the account's reset lease is requested.
    Leasing { remaining: Option<u8> },
    /// The weekly window is pinged.
    Pinging { remaining: Option<u8> },
    /// The usage after a completed ping is read.
    Refreshing,
    /// Without the reset lease the attempt is being deferred; the account
    /// shows retrying whether or not the deferral is stored.
    Deferring { remaining: Option<u8> },
    /// The attempt's outcome is stored; `status` is shown once it is.
    Finishing { status: WeeklyWindowStatus },
    Done,
}

/// What the previous step of an account's weekly start reported.
#[derive(Clone, Copy, Debug, PartialEq, Eq, Structural)]
pub enum AccountScanEvent {
    /// The attempt store's decision; `None` when it could not be asked.
    Decided(Option<WeeklyWindowAttemptDecision>),
    /// Whether the reset lease was acquired.
    Leased(bool),
    Pinged(WeeklyWindowPingOutcome),
    /// The refreshed weekly usage and percentage left.
    Refreshed { usage: WeeklyWindowUsage, remaining: Option<u8> },
    /// Whether the outcome was stored.
    Finished(bool),
}

/// The next step of an account's weekly start.
#[derive(Clone, Copy, Debug, PartialEq, Eq, Structural)]
pub enum AccountScanAction {
    AcquireLease,
    Ping,
    RefreshUsage,
    /// Store the attempt's outcome.
    Finish(WeeklyWindowAttemptOutcome),
    /// Record the account's status; the account is done.
    Record(WeeklyWindowStatus),
}

/// The step an account's weekly start begins with: its usage (a read that
/// failed counts as missing) and the percentage it has left.
pub open spec fn spec_account_scan_start(usage: Option<AccountUsage>) -> AccountScanStage {
    AccountScanStage::Deciding {
        has_usage: usage.is_some(),
        remaining: match usage { Some(u) => u.weekly_remaining_percent, None => None },
    }
}

/// How an account's weekly start begins.
pub fn account_scan_start(usage: Option<AccountUsage>) -> (res: AccountScanStage)
    ensures
        res == spec_account_scan_start(usage),
{
    AccountScanStage::Deciding {
        has_usage: usage.is_some(),
        remaining: match usage { Some(u) => u.weekly_remaining_percent, None => None },
    }
}

/// The event reports the step the account waits for.
pub open spec fn scan_event_fits(stage: AccountScanStage, event: AccountScanEvent) -> bool {
    match event {
        AccountScanEvent::Decided(_) => stage is Deciding,
        AccountScanEvent::Leased(_) => stage is Leasing,
        AccountScanEvent::Pinged(_) => stage is Pinging,
        AccountScanEvent::Refreshed { .. } => stage is Refreshing,
        AccountScanEvent::Finished(_) => stage is Finishing || stage is Deferring,
    }
}

/// One step of an account's weekly start: an attempt that is not due or
/// locked waits (failed without usage), an unreadable attempt state fails;
/// without the reset lease the attempt is deferred as transient and shown
/// retrying (also when the deferral cannot be stored); a completed ping is followed by a usage read, and the outcome
/// is stored with the refreshed usage (missing otherwise); an outcome that
/// cannot be stored shows the account failed.
pub open spec fn spec_account_scan_step(stage: AccountScanStage, event: AccountScanEvent) -> (AccountScanStage, AccountScanAction) {
    match (stage, event) {
        (AccountScanStage::Deciding { has_usage, remaining }, AccountScanEvent::Decided(d)) => match d {
            Some(WeeklyWindowAttemptDecision::Ready) => (AccountScanStage::Leasing { remaining }, AccountScanAction::AcquireLease),
            Some(WeeklyWindowAttemptDecision::NotDue) | Some(WeeklyWindowAttemptDecision::Locked) => (
                AccountScanStage::Done,
                AccountScanAction::Record(if has_usage { WeeklyWindowStatus::Waiting(remaining) } else { WeeklyWindowStatus::Failed }),
            ),
            _ => (AccountScanStage::Done, AccountScanAction::Record(WeeklyWindowStatus::Failed)),
        },
        (AccountScanStage::Leasing { remaining }, AccountScanEvent::Leased(acquired)) => if acquired {
            (AccountScanStage::Pinging { remaining }, AccountScanAction::Ping)
        } else {
            (
                AccountScanStage::Deferring { remaining },
                AccountScanAction::Finish(WeeklyWindowAttemptOutcome::Retryable { error: WeeklyWindowRetryableError::Transient }),
            )
        },
        (AccountScanStage::Pinging { remaining }, AccountScanEvent::Pinged(outcome)) => if outcome == WeeklyWindowPingOutcome::Completed {
            (AccountScanStage::Refreshing, AccountScanAction::RefreshUsage)
        } else {
            (
                AccountScanStage::Finishing { status: spec_ping_status(outcome, remaining, remaining) },
                AccountScanAction::Finish(spec_attempt_outcome(outcome, WeeklyWindowUsage::Missing)),
            )
        },
        (AccountScanStage::Refreshing, AccountScanEvent::Refreshed { usage, remaining }) => (
            AccountScanStage::Finishing { status: WeeklyWindowStatus::Started(remaining) },
            AccountScanAction::Finish(WeeklyWindowAttemptOutcome::Completed { refreshed_usage: usage }),
        ),
        (AccountScanStage::Finishing { status }, AccountScanEvent::Finished(stored)) => (
            AccountScanStage::Done,
            AccountScanAction::Record(if stored { status } else { WeeklyWindowStatus::Failed }),
        ),
        (AccountScanStage::Deferring { remaining }, AccountScanEvent::Finished(_)) => (
            AccountScanStage::Done,
            AccountScanAction::Record(WeeklyWindowStatus::Retrying(remaining)),
        ),
        _ => (AccountScanStage::Done, AccountScanAction::Record(WeeklyWindowStatus::Failed)),
    }
}

/// A ping that reports the account must sign in again (a login requirement
/// or an authentication recovery) leaves the account shown as needing a
/// sign-in once the attempt is stored, and never as started or retrying,
/// whatever percentages are known. Conversely, an account is shown as
/// needing a sign-in after its ping only when the ping reported so.
pub proof fn lemma_sign_in_pings_show_sign_in_required(
    remaining: Option<u8>,
    outcome: WeeklyWindowPingOutcome,
    refreshed_remaining: Option<u8>,
    stored: bool,
)
    ensures
        ({
            let sign_in = outcome == WeeklyWindowPingOutcome::LoginRequired
                || outcome == WeeklyWindowPingOutcome::AuthenticationRecovery;
            let (finishing, _) = spec_account_scan_step(AccountScanStage::Pinging { remaining }, AccountScanEvent::Pinged(outcome));
            let recorded = spec_account_scan_step(finishing, AccountScanEvent::Finished(stored)).1;
            &&& sign_in ==> spec_ping_status(outcome, refreshed_remaining, remaining) == WeeklyWindowStatus::SignInRequired
            &&& sign_in && stored ==> recorded == AccountScanAction::Record(WeeklyWindowStatus::SignInRequired)
            &&& sign_in ==> !(recorded matches AccountScanAction::Record(WeeklyWindowStatus::Retrying(_)))
                && !(recorded matches AccountScanAction::Record(WeeklyWindowStatus::Started(_)))
            &&& spec_ping_status(outcome, refreshed_remaining, remaining) == WeeklyWindowStatus::SignInRequired ==> sign_in
            &&& recorded == AccountScanAction::Record(WeeklyWindowStatus::SignInRequired) ==> sign_in
        }),
{
}

/// Takes one step of an account's weekly start; see `spec_account_scan_step`.
pub fn account_scan_step(stage: AccountScanStage, event: AccountScanEvent) -> (res: (AccountScanStage, AccountScanAction))
    requires
        scan_event_fits(stage, event),
    ensures
        res == spec_account_scan_step(stage, event),
{
    match (stage, event) {
        (AccountScanStage::Deciding { has_usage, remaining }, AccountScanEvent::Decided(d)) => match d {
            Some(WeeklyWindowAttemptDecision::Ready) => (AccountScanStage::Leasing { remaining }, AccountScanAction::AcquireLease),
            Some(WeeklyWindowAttemptDecision::NotDue) | Some(WeeklyWindowAttemptDecision::Locked) => (
                AccountScanStage::Done,
                AccountScanAction::Record(if has_usage { WeeklyWindowStatus::Waiting(remaining) } else { WeeklyWindowStatus::Failed }),
            ),
            _ => (AccountScanStage::Done, AccountScanAction::Record(WeeklyWindowStatus::Failed)),
        },
        (AccountScanStage::Leasing { remaining }, AccountScanEvent::Leased(acquired)) => if acquired {
            (AccountScanStage::Pinging { remaining }, AccountScanAction::Ping)
        } else {
            (
                AccountScanStage::Deferring { remaining },
                AccountScanAction::Finish(WeeklyWindowAttemptOutcome::Retryable { error: WeeklyWindowRetryableError::Transient }),
            )
        },
        (AccountScanStage::Pinging { remaining }, AccountScanEvent::Pinged(outcome)) => if outcome == WeeklyWindowPingOutcome::Completed {
            (AccountScanStage::Refreshing, AccountScanAction::RefreshUsage)
        } else {
            (
                AccountScanStage::Finishing { status: ping_status(outcome, remaining, remaining) },
                AccountScanAction::Finish(attempt_outcome(outcome, WeeklyWindowUsage::Missing)),
            )
        },
        (AccountScanStage::Refreshing, AccountScanEvent::Refreshed { usage, remaining }) => (
            AccountScanStage::Finishing { status: WeeklyWindowStatus::Started(remaining) },
            AccountScanAction::Finish(WeeklyWindowAttemptOutcome::Completed { refreshed_usage: usage }),
        ),
        (AccountScanStage::Finishing { status }, AccountScanEvent::Finished(stored)) => (
            AccountScanStage::Done,
            AccountScanAction::Record(if stored { status } else { WeeklyWindowStatus::Failed }),
        ),
        (AccountScanStage::Deferring { remaining }, AccountScanEvent::Finished(_)) => (
            AccountScanStage::Done,
            AccountScanAction::Record(WeeklyWindowStatus::Retrying(remaining)),
        ),
        _ => (AccountScanStage::Done, AccountScanAction::Record(WeeklyWindowStatus::Failed)),
    }
}

/// What woke the schedule up.
#[derive(Clone, Copy, Debug, PartialEq, Eq, Structural)]
pub enum ScheduleEvent {
    /// The scan interval elapsed.
    Tick,
    /// The settings changed (`closed`: their sender is gone).
    SettingsChanged { closed: bool, enabled: bool },
}

/// What the schedule does next.
#[derive(Clone, Copy, Debug, PartialEq, Eq, Structural)]
pub enum ScheduleAction {
    Scan,
    /// Scan now and restart the interval.
    ScanAndResetInterval,
    Wait,
    Stop,
}

/// The schedule: scan on every tick; when the settings change, stop once
/// nobody can change them again, scan at once (restarting the interval)
/// when automation is on, else keep waiting.
pub fn schedule_action(event: ScheduleEvent) -> (res: ScheduleAction)
    ensures
        res == match event {
            ScheduleEvent::Tick => ScheduleAction::Scan,
            ScheduleEvent::SettingsChanged { closed, enabled } => if closed {
                ScheduleAction::Stop
            } else if enabled {
                ScheduleAction::ScanAndResetInterval
            } else {
                ScheduleAction::Wait
            },
        },
{
    match event {
        ScheduleEvent::Tick => ScheduleAction::Scan,
        ScheduleEvent::SettingsChanged { closed, enabled } => if closed {
            ScheduleAction::Stop
        } else if enabled {
            ScheduleAction::ScanAndResetInterval
        } else {
            ScheduleAction::Wait
        },
    }
}

} // verus!

verus! {

/// The ping outcome of an account whose credentials could not be loaded:
/// a new login is needed, or the local setup failed.
pub fn activation_failure_outcome(login_required: bool) -> (res: WeeklyWindowPingOutcome)
    ensures
        res == if login_required { WeeklyWindowPingOutcome::LoginRequired } else { WeeklyWindowPingOutcome::LocalSetup },
{
    if login_required { WeeklyWindowPingOutcome::LoginRequired } else { WeeklyWindowPingOutcome::LocalSetup }
}

} // verus!

verus! {

/// Where a scan stands. A scan polls completion notices, reads the
/// settings, takes the scan lease, reads the enabled accounts, runs
/// redemptions account by account, then starts weekly windows account by
/// account and publishes the statuses; every account step, and the
/// publication, is preceded by a check that the settings did not change.
#[derive(Clone, Copy, Debug, PartialEq, Eq, Structural)]
pub enum ScanStage {
    PollingFirstNotices,
    ReadingSettings,
    AcquiringLease { plan: ScanPlan },
    ReadingAccounts { plan: ScanPlan },
    CheckingAfterAccounts { plan: ScanPlan, count: usize },
    CheckingBeforeRedeem { plan: ScanPlan, count: usize, index: usize },
    Redeeming { plan: ScanPlan, count: usize, index: usize },
    LoadingUsage { count: usize },
    /// The first pass: account `index`'s usage is read to see whether it
    /// needs a new login.
    ReadingSignIn { count: usize, index: usize },
    /// The first pass: account `index` is recorded as needing a new login.
    RecordingSignIn { count: usize, index: usize },
    CheckingBeforeAccount { count: usize, index: usize },
    ReadingAccountUsage { count: usize, index: usize },
    Account { count: usize, index: usize, stage: AccountScanStage },
    Recording { count: usize, index: usize },
    CheckingBeforePublish,
    Publishing,
    PollingLastNotices,
    Done,
}

/// What the previous step of a scan reported.
#[derive(Clone, Copy, Debug, PartialEq, Eq, Structural)]
pub enum ScanEvent {
    NoticesPolled,
    /// The settings, and whether the model provider can ping weekly windows.
    SettingsRead { settings: SchedulerSettings, ping_supported: bool },
    /// Whether this process holds the scan lease (`false` also when it
    /// could not be asked).
    LeaseAcquired(bool),
    /// How many enabled accounts there are; `None` when they could not be read.
    AccountsRead(Option<usize>),
    /// Whether the settings changed since the scan read them.
    SettingsChecked { changed: bool },
    /// An account's redemption ended; `cancelled` when the settings changed
    /// while it ran (a failure or a timeout is not a cancellation).
    Redeemed { cancelled: bool },
    UsageLoaded,
    /// An account's loaded usage, and whether it needs a new login.
    AccountUsageRead { login_required: bool, usage: Option<AccountUsage> },
    /// A step of the current account's weekly start.
    Account(AccountScanEvent),
    StatusRecorded,
    StatusesPublished,
}

/// The next step of a scan.
#[derive(Clone, Copy, Debug, PartialEq, Eq, Structural)]
pub enum ScanAction {
    /// Announce redemptions completed by other processes.
    PollNotices,
    /// Read the settings and check whether weekly windows can be pinged.
    ReadSettings,
    AcquireScanLease,
    ReadAccounts,
    /// Check whether the settings changed since they were read.
    CheckSettings,
    /// Process the redemption of account `index` (with a time limit),
    /// stopping early if the settings change.
    Redeem { index: usize, settings: AutoRedeemResets, fresh: FreshRedemption },
    /// Load the usage of all accounts, and record in the store the login
    /// requirement of each account that needs a new login.
    LoadUsage,
    ReadAccountUsage { index: usize },
    /// Ask the attempt store whether account `index` may start its weekly
    /// window now, handing it this usage.
    DecideAttempt { index: usize, usage: WeeklyWindowUsage },
    /// Carry out a step of account `index`'s weekly start.
    Account { index: usize, action: AccountScanAction },
    /// Record this status for account `index`.
    RecordStatus { index: usize, status: WeeklyWindowStatus },
    /// Make the recorded statuses the ones shown.
    PublishStatuses,
    Stop,
}

/// The plan of a scan; see `scan_plan`.
pub open spec fn spec_scan_plan(settings: SchedulerSettings, ping_supported: bool) -> Option<ScanPlan> {
    if settings.weekly || settings.auto_redeem.is_some() {
        Some(ScanPlan {
            auto_redeem: settings.auto_redeem,
            fresh_redemption: if ping_supported { FreshRedemption::Allowed } else { FreshRedemption::RecoveryOnly },
            weekly: settings.weekly && ping_supported,
        })
    } else {
        None
    }
}

/// The event answers what the stage asked for.
pub open spec fn scan_step_fits(stage: ScanStage, event: ScanEvent) -> bool {
    match stage {
        ScanStage::PollingFirstNotices | ScanStage::PollingLastNotices => event is NoticesPolled,
        ScanStage::ReadingSettings => event is SettingsRead,
        ScanStage::AcquiringLease { .. } => event is LeaseAcquired,
        ScanStage::ReadingAccounts { .. } => event is AccountsRead,
        ScanStage::CheckingAfterAccounts { .. } | ScanStage::CheckingBeforeRedeem { .. }
            | ScanStage::CheckingBeforeAccount { .. } | ScanStage::CheckingBeforePublish => event is SettingsChecked,
        ScanStage::Redeeming { .. } => event is Redeemed,
        ScanStage::LoadingUsage { .. } => event is UsageLoaded,
        ScanStage::ReadingAccountUsage { .. } | ScanStage::ReadingSignIn { .. } => event is AccountUsageRead,
        ScanStage::Account { stage: s, .. } => event matches ScanEvent::Account(e) && scan_event_fits(s, e),
        ScanStage::Recording { .. } | ScanStage::RecordingSignIn { .. } => event is StatusRecorded,
        ScanStage::Publishing => event is StatusesPublished,
        ScanStage::Done => false,
    }
}

/// The stage is consistent: the account it works on exists, redemptions
/// run only with redemption settings, and an account's weekly start is
/// under way while the scan is on it.
pub open spec fn scan_wf(stage: ScanStage) -> bool {
    match stage {
        ScanStage::CheckingBeforeRedeem { plan, count, index } | ScanStage::Redeeming { plan, count, index } =>
            index < count && plan.auto_redeem.is_some(),
        ScanStage::CheckingBeforeAccount { count, index } | ScanStage::ReadingAccountUsage { count, index }
            | ScanStage::Recording { count, index } | ScanStage::ReadingSignIn { count, index }
            | ScanStage::RecordingSignIn { count, index } => index < count,
        ScanStage::Account { count, index, stage } => index < count && !(stage is Done),
        _ => true,
    }
}

/// The plan a stage works under, where it carries one.
pub open spec fn stage_plan(stage: ScanStage) -> Option<ScanPlan> {
    match stage {
        ScanStage::AcquiringLease { plan } | ScanStage::ReadingAccounts { plan } => Some(plan),
        ScanStage::CheckingAfterAccounts { plan, .. } | ScanStage::CheckingBeforeRedeem { plan, .. }
            | ScanStage::Redeeming { plan, .. } => Some(plan),
        _ => None,
    }
}

/// Redemptions from account `index` on, then the weekly pass if the plan
/// has one, else the final notices.
pub open spec fn redeem_from(plan: ScanPlan, count: usize, index: usize) -> (ScanStage, ScanAction) {
    if plan.auto_redeem.is_some() && index < count {
        (ScanStage::CheckingBeforeRedeem { plan, count, index }, ScanAction::CheckSettings)
    } else if plan.weekly {
        (ScanStage::LoadingUsage { count }, ScanAction::LoadUsage)
    } else {
        (ScanStage::PollingLastNotices, ScanAction::PollNotices)
    }
}

/// The first pass from account `index` on, which records every account
/// that needs a new login, then the weekly pass from the first account.
pub open spec fn sign_in_from(count: usize, index: usize) -> (ScanStage, ScanAction) {
    if index < count {
        (ScanStage::ReadingSignIn { count, index }, ScanAction::ReadAccountUsage { index })
    } else {
        account_from(count, 0)
    }
}

/// The weekly pass from account `index` on, then the publication.
pub open spec fn account_from(count: usize, index: usize) -> (ScanStage, ScanAction) {
    if index < count {
        (ScanStage::CheckingBeforeAccount { count, index }, ScanAction::CheckSettings)
    } else {
        (ScanStage::CheckingBeforePublish, ScanAction::CheckSettings)
    }
}

/// One step of a scan. Nothing runs while automation is off; without the
/// scan lease, or without the list of accounts, the scan stops. A change of
/// the settings seen before an account's redemption or weekly start, or
/// during a redemption, stops the scan with nothing published; seen before
/// the publication, the statuses are not published. Once the usage is
/// loaded, a first pass records every account that needs a new login as
/// such, before any other status; the weekly pass then leaves those
/// accounts alone (they are not pinged), and the others go through their
/// weekly start (see `spec_account_scan_step`).
pub open spec fn spec_scan_step(stage: ScanStage, event: ScanEvent) -> (ScanStage, ScanAction) {
    match (stage, event) {
        (ScanStage::PollingFirstNotices, _) => (ScanStage::ReadingSettings, ScanAction::ReadSettings),
        (ScanStage::ReadingSettings, ScanEvent::SettingsRead { settings, ping_supported }) =>
            match spec_scan_plan(settings, ping_supported) {
                Some(plan) => (ScanStage::AcquiringLease { plan }, ScanAction::AcquireScanLease),
                None => (ScanStage::Done, ScanAction::Stop),
            },
        (ScanStage::AcquiringLease { plan }, ScanEvent::LeaseAcquired(held)) => if held {
            (ScanStage::ReadingAccounts { plan }, ScanAction::ReadAccounts)
        } else {
            (ScanStage::Done, ScanAction::Stop)
        },
        (ScanStage::ReadingAccounts { plan }, ScanEvent::AccountsRead(count)) => match count {
            Some(n) => (ScanStage::CheckingAfterAccounts { plan, count: n }, ScanAction::CheckSettings),
            None => (ScanStage::Done, ScanAction::Stop),
        },
        (ScanStage::CheckingAfterAccounts { plan, count }, ScanEvent::SettingsChecked { changed }) => if changed {
            (ScanStage::Done, ScanAction::Stop)
        } else {
            redeem_from(plan, count, 0)
        },
        (ScanStage::CheckingBeforeRedeem { plan, count, index }, ScanEvent::SettingsChecked { changed }) => if changed {
            (ScanStage::Done, ScanAction::Stop)
        } else {
            (
                ScanStage::Redeeming { plan, count, index },
                ScanAction::Redeem { index, settings: plan.auto_redeem.unwrap(), fresh: plan.fresh_redemption },
            )
        },
        (ScanStage::Redeeming { plan, count, index }, ScanEvent::Redeemed { cancelled }) => if cancelled {
            (ScanStage::Done, ScanAction::Stop)
        } else {
            redeem_from(plan, count, (index + 1) as usize)
        },
        (ScanStage::LoadingUsage { count }, ScanEvent::UsageLoaded) => sign_in_from(count, 0),
        (ScanStage::ReadingSignIn { count, index }, ScanEvent::AccountUsageRead { login_required, .. }) => if login_required {
            (ScanStage::RecordingSignIn { count, index }, ScanAction::RecordStatus { index, status: WeeklyWindowStatus::SignInRequired })
        } else {
            sign_in_from(count, (index + 1) as usize)
        },
        (ScanStage::RecordingSignIn { count, index }, ScanEvent::StatusRecorded) => sign_in_from(count, (index + 1) as usize),
        (ScanStage::CheckingBeforeAccount { count, index }, ScanEvent::SettingsChecked { changed }) => if changed {
            (ScanStage::Done, ScanAction::Stop)
        } else {
            (ScanStage::ReadingAccountUsage { count, index }, ScanAction::ReadAccountUsage { index })
        },
        (ScanStage::ReadingAccountUsage { count, index }, ScanEvent::AccountUsageRead { login_required, usage }) => if login_required {
            account_from(count, (index + 1) as usize)
        } else {
            (
                ScanStage::Account { count, index, stage: spec_account_scan_start(usage) },
                ScanAction::DecideAttempt { index, usage: spec_weekly_usage(usage) },
            )
        },
        (ScanStage::Account { count, index, stage: s }, ScanEvent::Account(e)) => {
            let (next, action) = spec_account_scan_step(s, e);
            match action {
                AccountScanAction::Record(status) => (ScanStage::Recording { count, index }, ScanAction::RecordStatus { index, status }),
                _ => (ScanStage::Account { count, index, stage: next }, ScanAction::Account { index, action }),
            }
        },
        (ScanStage::Recording { count, index }, ScanEvent::StatusRecorded) => account_from(count, (index + 1) as usize),
        (ScanStage::CheckingBeforePublish, ScanEvent::SettingsChecked { changed }) => if changed {
            (ScanStage::PollingLastNotices, ScanAction::PollNotices)
        } else {
            (ScanStage::Publishing, ScanAction::PublishStatuses)
        },
        (ScanStage::Publishing, ScanEvent::StatusesPublished) => (ScanStage::PollingLastNotices, ScanAction::PollNotices),
        _ => (ScanStage::Done, ScanAction::Stop),
    }
}

/// How a scan begins: by announcing completed redemptions.
pub fn scan_start() -> (res: (ScanStage, ScanAction))
    ensures
        res == (ScanStage::PollingFirstNotices, ScanAction::PollNotices),
{
    (ScanStage::PollingFirstNotices, ScanAction::PollNotices)
}

fn next_redemption(plan: ScanPlan, count: usize, index: usize) -> (res: (ScanStage, ScanAction))
    ensures
        res == redeem_from(plan, count, index),
{
    if plan.auto_redeem.is_some() && index < count {
        (ScanStage::CheckingBeforeRedeem { plan, count, index }, ScanAction::CheckSettings)
    } else if plan.weekly {
        (ScanStage::LoadingUsage { count }, ScanAction::LoadUsage)
    } else {
        (ScanStage::PollingLastNotices, ScanAction::PollNotices)
    }
}

fn next_sign_in(count: usize, index: usize) -> (res: (ScanStage, ScanAction))
    ensures
        res == sign_in_from(count, index),
{
    if index < count {
        (ScanStage::ReadingSignIn { count, index }, ScanAction::ReadAccountUsage { index })
    } else {
        next_account(count, 0)
    }
}

fn next_account(count: usize, index: usize) -> (res: (ScanStage, ScanAction))
    ensures
        res == account_from(count, index),
{
    if index < count {
        (ScanStage::CheckingBeforeAccount { count, index }, ScanAction::CheckSettings)
    } else {
        (ScanStage::CheckingBeforePublish, ScanAction::CheckSettings)
    }
}

/// Takes one step of a scan; see `spec_scan_step`.
pub fn scan_step(stage: ScanStage, event: ScanEvent) -> (res: (ScanStage, ScanAction))
    requires
        scan_wf(stage),
        scan_step_fits(stage, event),
    ensures
        res == spec_scan_step(stage, event),
        scan_wf(res.0),
{
    match (stage, event) {
        (ScanStage::PollingFirstNotices, _) => (ScanStage::ReadingSettings, ScanAction::ReadSettings),
        (ScanStage::ReadingSettings, ScanEvent::SettingsRead { settings, ping_supported }) =>
            match scan_plan(settings, ping_supported) {
                Some(plan) => (ScanStage::AcquiringLease { plan }, ScanAction::AcquireScanLease),
                None => (ScanStage::Done, ScanAction::Stop),
            },
        (ScanStage::AcquiringLease { plan }, ScanEvent::LeaseAcquired(held)) => if held {
            (ScanStage::ReadingAccounts { plan }, ScanAction::ReadAccounts)
        } else {
            (ScanStage::Done, ScanAction::Stop)
        },
        (ScanStage::ReadingAccounts { plan }, ScanEvent::AccountsRead(count)) => match count {
            Some(n) => (ScanStage::CheckingAfterAccounts { plan, count: n }, ScanAction::CheckSettings),
            None => (ScanStage::Done, ScanAction::Stop),
        },
        (ScanStage::CheckingAfterAccounts { plan, count }, ScanEvent::SettingsChecked { changed }) => if changed {
            (ScanStage::Done, ScanAction::Stop)
        } else {
            next_redemption(plan, count, 0)
        },
        (ScanStage::CheckingBeforeRedeem { plan, count, index }, ScanEvent::SettingsChecked { changed }) => if changed {
            (ScanStage::Done, ScanAction::Stop)
        } else {
            let settings = match plan.auto_redeem {
                Some(s) => s,
                None => AutoRedeemResets::default(),
            };
            (
                ScanStage::Redeeming { plan, count, index },
                ScanAction::Redeem { index, settings, fresh: plan.fresh_redemption },
            )
        },
        (ScanStage::Redeeming { plan, count, index }, ScanEvent::Redeemed { cancelled }) => if cancelled {
            (ScanStage::Done, ScanAction::Stop)
        } else {
            next_redemption(plan, count, index + 1)
        },
        (ScanStage::LoadingUsage { count }, ScanEvent::UsageLoaded) => next_sign_in(count, 0),
        (ScanStage::ReadingSignIn { count, index }, ScanEvent::AccountUsageRead { login_required, .. }) => if login_required {
            (ScanStage::RecordingSignIn { count, index }, ScanAction::RecordStatus { index, status: WeeklyWindowStatus::SignInRequired })
        } else {
            next_sign_in(count, index + 1)
        },
        (ScanStage::RecordingSignIn { count, index }, ScanEvent::StatusRecorded) => next_sign_in(count, index + 1),
        (ScanStage::CheckingBeforeAccount { count, index }, ScanEvent::SettingsChecked { changed }) => if changed {
            (ScanStage::Done, ScanAction::Stop)
        } else {
            (ScanStage::ReadingAccountUsage { count, index }, ScanAction::ReadAccountUsage { index })
        },
        (ScanStage::ReadingAccountUsage { count, index }, ScanEvent::AccountUsageRead { login_required, usage }) => if login_required {
            next_account(count, index + 1)
        } else {
            (
                ScanStage::Account { count, index, stage: account_scan_start(usage) },
                ScanAction::DecideAttempt { index, usage: weekly_usage(usage) },
            )
        },
        (ScanStage::Account { count, index, stage: s }, ScanEvent::Account(e)) => {
            let (next, action) = account_scan_step(s, e);
            match action {
                AccountScanAction::Record(status) => (ScanStage::Recording { count, index }, ScanAction::RecordStatus { index, status }),
                _ => (ScanStage::Account { count, index, stage: next }, ScanAction::Account { index, action }),
            }
        },
        (ScanStage::Recording { count, index }, ScanEvent::StatusRecorded) => next_account(count, index + 1),
        (ScanStage::CheckingBeforePublish, ScanEvent::SettingsChecked { changed }) => if changed {
            (ScanStage::PollingLastNotices, ScanAction::PollNotices)
        } else {
            (ScanStage::Publishing, ScanAction::PublishStatuses)
        },
        (ScanStage::Publishing, ScanEvent::StatusesPublished) => (ScanStage::PollingLastNotices, ScanAction::PollNotices),
        _ => (ScanStage::Done, ScanAction::Stop),
    }
}

/// Accounts that need a new login are recorded before any other account:
/// the first pass records only sign-in requirements, the weekly pass begins
/// only once the first pass went through every account, and in the weekly
/// pass an account that needs a new login is passed over.
pub proof fn lemma_sign_ins_are_recorded_first(stage: ScanStage, event: ScanEvent)
    requires
        scan_wf(stage),
        scan_step_fits(stage, event),
    ensures
        ({
            let (next, action) = spec_scan_step(stage, event);
            &&& ((stage is ReadingSignIn || stage is RecordingSignIn || stage is LoadingUsage) && action is RecordStatus)
                ==> action->RecordStatus_status == WeeklyWindowStatus::SignInRequired
            &&& (next is CheckingBeforeAccount && next->CheckingBeforeAccount_index == 0) ==> {
                ||| stage is ReadingSignIn && stage->ReadingSignIn_index + 1 == stage->ReadingSignIn_count
                    && stage->ReadingSignIn_count == next->CheckingBeforeAccount_count
                ||| stage is RecordingSignIn && stage->RecordingSignIn_index + 1 == stage->RecordingSignIn_count
                    && stage->RecordingSignIn_count == next->CheckingBeforeAccount_count
            }
            &&& (stage is ReadingAccountUsage && event is AccountUsageRead && event->login_required)
                ==> !(action is RecordStatus) && !(action is DecideAttempt)
        }),
{
}

/// Statuses are published only when the check right before found the
/// settings unchanged; a change seen at any other check ends the scan at
/// once; redemptions run with the settings of the scan's plan; and the
/// weekly pass is entered only under a plan that pings weekly windows.
pub proof fn lemma_scan_respects_settings(stage: ScanStage, event: ScanEvent)
    requires
        scan_wf(stage),
        scan_step_fits(stage, event),
    ensures
        spec_scan_step(stage, event).1 == ScanAction::PublishStatuses ==> stage == ScanStage::CheckingBeforePublish
            && event == (ScanEvent::SettingsChecked { changed: false }),
        event == (ScanEvent::SettingsChecked { changed: true }) && stage != ScanStage::CheckingBeforePublish
            ==> spec_scan_step(stage, event) == (ScanStage::Done, ScanAction::Stop),
        spec_scan_step(stage, event).1 matches ScanAction::Redeem { settings, fresh, .. } ==> (stage_plan(stage) matches Some(p)
            && p.auto_redeem == Some(settings) && p.fresh_redemption == fresh),
        spec_scan_step(stage, event).0 is LoadingUsage ==> (stage_plan(stage) matches Some(p) && p.weekly),
{
}

} // verus!
