//! Resuming a turn that failed on an exhausted usage limit once a usage
//! reset makes quota available again.

use vstd::prelude::*;
use vstd::utf8::encode_utf8;
use crate::account_identity::profile_id_for;
use crate::account_identity::profile_id_of;
use crate::account_identity::push_utf8;
use crate::account_usage::MINUTES_PER_WEEK;
use crate::text::str_eq;

verus! {

/// How a turn ended.
#[derive(Clone, Copy, Debug, PartialEq, Eq, Structural)]
pub enum TurnStatus {
    Completed,
    Interrupted,
    Failed,
    InProgress,
}

/// The server notifications that bear on resuming after a usage reset.
#[derive(Clone, Debug, PartialEq, Eq)]
pub enum ServerNotification {
    /// An error in a turn; `usage_limit_exceeded` when it reports the usage limit.
    Error { turn_id: String, will_retry: bool, usage_limit_exceeded: bool },
    /// A turn ended; `usage_limit_exceeded` when its error reports the usage
    /// limit; `completed_at` in server seconds.
    TurnCompleted { turn_id: String, status: TurnStatus, usage_limit_exceeded: bool, completed_at: Option<i64> },
    TurnStarted,
    AccountUpdated,
    ThreadClosed,
    Other,
}

/// The user commands that bear on resuming after a usage reset.
#[derive(Clone, Copy, Debug, PartialEq, Eq, Structural)]
pub enum AppCommand {
    Interrupt,
    UserTurn,
    Review,
    Compact,
    Other,
}

/// A turn waiting for a usage reset, and when (in nanoseconds) it failed.
#[derive(Clone, Debug, PartialEq, Eq)]
pub struct UsageResetWait {
    pub turn_id: String,
    pub failed_at: i64,
}

/// The state of the conversation that decides whether a failed turn is
/// resumed.
#[derive(Clone, Debug, PartialEq, Eq)]
pub struct UsageResetState {
    pub usage_reset_wait: Option<UsageResetWait>,
    pub last_resumed_usage_reset_at: Option<i64>,
    pub agent_turn_running: bool,
    pub user_turn_pending_start: bool,
    pub last_turn_id: Option<String>,
    pub has_queued_follow_up_messages: bool,
    pub has_pending_steers: bool,
}

/// `x` clamped to the range of `i64`.
pub open spec fn saturate(x: int) -> i64 {
    if x > i64::MAX { i64::MAX } else if x < i64::MIN { i64::MIN } else { x as i64 }
}

/// A server completion time in seconds as the first nanosecond after that
/// whole second, saturating.
pub open spec fn after_second_nanos(at: i64) -> i64 {
    saturate(saturate(at + 1) * 1_000_000_000)
}

/// The failed turn that an event reports, with the server's time of failure
/// when it carries one.
pub open spec fn failed_turn(event: ServerNotification) -> Option<(String, Option<i64>)> {
    match event {
        ServerNotification::Error { turn_id, will_retry, usage_limit_exceeded } =>
            if !will_retry && usage_limit_exceeded { Some((turn_id, None)) } else { None },
        ServerNotification::TurnCompleted { turn_id, status, usage_limit_exceeded, completed_at } =>
            if status == TurnStatus::Failed && usage_limit_exceeded {
                Some((turn_id, match completed_at { Some(at) => Some(after_second_nanos(at)), None => None }))
            } else {
                None
            },
        _ => None,
    }
}

/// The event ends any wait: a new turn, an account change, a closed thread,
/// or a turn that ended other than by failing.
pub open spec fn clears_wait(event: ServerNotification) -> bool {
    match event {
        ServerNotification::TurnStarted | ServerNotification::AccountUpdated | ServerNotification::ThreadClosed => true,
        ServerNotification::TurnCompleted { status, .. } => status != TurnStatus::Failed,
        _ => false,
    }
}

/// The wait after an event observed at `now` (nanoseconds): a live turn
/// failing on the usage limit starts a wait, stamped with the server's time
/// when known; a later report of the waiting turn's server time corrects
/// the stamp; events that end the turn's relevance end the wait.
pub open spec fn spec_observe_turn(s: UsageResetState, event: ServerNotification, now: i64) -> Option<UsageResetWait> {
    let wait = if clears_wait(event) { None } else { s.usage_reset_wait };
    match failed_turn(event) {
        Some((turn_id, completed_at)) => {
            if s.agent_turn_running && !s.user_turn_pending_start && (s.last_turn_id matches Some(l) && l@ == turn_id@) {
                Some(UsageResetWait { turn_id, failed_at: match completed_at { Some(at) => at, None => now } })
            } else if wait matches Some(w) && w.turn_id@ == turn_id@ && completed_at.is_some() {
                Some(UsageResetWait { turn_id: wait->0.turn_id, failed_at: completed_at->0 })
            } else {
                wait
            }
        },
        None => wait,
    }
}

/// The turn to resume for a usage reset completed at `completed_at`: the
/// waiting turn, when the reset completed after it failed and after the
/// last resumption, and nothing else is running, starting or queued.
pub open spec fn spec_usage_reset_turn(s: UsageResetState, completed_at: i64) -> Option<Seq<char>> {
    match s.usage_reset_wait {
        Some(w) => if completed_at >= w.failed_at
            && (match s.last_resumed_usage_reset_at { Some(last) => completed_at > last, None => true })
            && !s.agent_turn_running && !s.user_turn_pending_start && !s.has_queued_follow_up_messages
            && !s.has_pending_steers {
            Some(w.turn_id@)
        } else {
            None
        },
        None => None,
    }
}

impl UsageResetState {
    /// Nothing waiting, nothing running.
    pub fn new() -> (res: UsageResetState)
        ensures
            res.usage_reset_wait.is_none(),
            res.last_resumed_usage_reset_at.is_none(),
            !res.agent_turn_running,
            !res.user_turn_pending_start,
            res.last_turn_id.is_none(),
            !res.has_queued_follow_up_messages,
            !res.has_pending_steers,
    {
        UsageResetState {
            usage_reset_wait: None,
            last_resumed_usage_reset_at: None,
            agent_turn_running: false,
            user_turn_pending_start: false,
            last_turn_id: None,
            has_queued_follow_up_messages: false,
            has_pending_steers: false,
        }
    }

    /// Observes a server event at time `now` (nanoseconds); see `spec_observe_turn`.
    pub fn observe_usage_reset_turn_at(&mut self, event: &ServerNotification, now: i64)
        ensures
            final(self).usage_reset_wait == spec_observe_turn(*old(self), *event, now),
            final(self).last_resumed_usage_reset_at == old(self).last_resumed_usage_reset_at,
            final(self).agent_turn_running == old(self).agent_turn_running,
            final(self).user_turn_pending_start == old(self).user_turn_pending_start,
            final(self).last_turn_id == old(self).last_turn_id,
            final(self).has_queued_follow_up_messages == old(self).has_queued_follow_up_messages,
            final(self).has_pending_steers == old(self).has_pending_steers,
    {
        let failed: Option<(&String, Option<i64>)> = match event {
            ServerNotification::Error { turn_id, will_retry, usage_limit_exceeded } => {
                if !*will_retry && *usage_limit_exceeded { Some((turn_id, None)) } else { None }
            },
            ServerNotification::TurnCompleted { turn_id, status, usage_limit_exceeded, completed_at } => {
                if *status == TurnStatus::Failed && *usage_limit_exceeded {
                    let stamp = match completed_at {
                        Some(at) => {
                            let next: i64 = match at.checked_add(1) { Some(n) => n, None => i64::MAX };
                            let nanos: i64 = match next.checked_mul(1_000_000_000) {
                                Some(n) => n,
                                None => if next < 0 { i64::MIN } else { i64::MAX },
                            };
                            Some(nanos)
                        },
                        None => None,
                    };
                    Some((turn_id, stamp))
                } else {
                    if *status != TurnStatus::Failed {
                        self.usage_reset_wait = None;
                    }
                    None
                }
            },
            ServerNotification::TurnStarted | ServerNotification::AccountUpdated | ServerNotification::ThreadClosed => {
                self.usage_reset_wait = None;
                None
            },
            _ => None,
        };
        if let Some((turn_id, completed_at)) = failed {
            let is_live = match &self.last_turn_id {
                Some(last) => str_eq(last.as_str(), turn_id.as_str()),
                None => false,
            };
            if self.agent_turn_running && !self.user_turn_pending_start && is_live {
                let failed_at = match completed_at { Some(at) => at, None => now };
                self.usage_reset_wait = Some(UsageResetWait { turn_id: turn_id.clone(), failed_at });
            } else {
                let matches_wait = match &self.usage_reset_wait {
                    Some(w) => str_eq(w.turn_id.as_str(), turn_id.as_str()),
                    None => false,
                };
                if matches_wait {
                    if let Some(at) = completed_at {
                        let id = match &self.usage_reset_wait { Some(w) => w.turn_id.clone(), None => String::new() };
                        self.usage_reset_wait = Some(UsageResetWait { turn_id: id, failed_at: at });
                    }
                }
            }
        }
    }

    /// Observes a server event; a turn failing without a server time is
    /// stamped with the current time.
    pub fn observe_usage_reset_turn(&mut self, event: &ServerNotification)
        ensures
            exists|now: i64| final(self).usage_reset_wait == spec_observe_turn(*old(self), *event, now),
            final(self).last_resumed_usage_reset_at == old(self).last_resumed_usage_reset_at,
            final(self).agent_turn_running == old(self).agent_turn_running,
            final(self).last_turn_id == old(self).last_turn_id,
    {
        let now = match crate::timestamps::utc_now_nanos() {
            Some(n) => n,
            None => i64::MAX,
        };
        self.observe_usage_reset_turn_at(event, now);
    }

    /// A user action that starts other work ends the wait.
    pub fn observe_usage_reset_command(&mut self, command: AppCommand)
        ensures
            final(self).usage_reset_wait == if command == AppCommand::Other { old(self).usage_reset_wait } else { None },
            final(self).last_resumed_usage_reset_at == old(self).last_resumed_usage_reset_at,
            final(self).agent_turn_running == old(self).agent_turn_running,
            final(self).user_turn_pending_start == old(self).user_turn_pending_start,
            final(self).last_turn_id == old(self).last_turn_id,
            final(self).has_queued_follow_up_messages == old(self).has_queued_follow_up_messages,
            final(self).has_pending_steers == old(self).has_pending_steers,
    {
        match command {
            AppCommand::Interrupt | AppCommand::UserTurn | AppCommand::Review | AppCommand::Compact => {
                self.usage_reset_wait = None;
            },
            AppCommand::Other => {},
        }
    }

    /// The turn to resume for a usage reset completed at `completed_at`;
    /// see `spec_usage_reset_turn`.
    pub fn usage_reset_turn(&self, completed_at: i64) -> (res: Option<String>)
        ensures
            match res {
                Some(t) => spec_usage_reset_turn(*self, completed_at) == Some(t@),
                None => spec_usage_reset_turn(*self, completed_at).is_none(),
            },
    {
        match &self.usage_reset_wait {
            Some(w) => {
                let after_last = match self.last_resumed_usage_reset_at { Some(last) => completed_at > last, None => true };
                if completed_at >= w.failed_at && after_last && !self.agent_turn_running && !self.user_turn_pending_start
                    && !self.has_queued_follow_up_messages && !self.has_pending_steers {
                    Some(w.turn_id.clone())
                } else {
                    None
                }
            },
            None => None,
        }
    }
}

/// One usage window in an account's rate-limit reading.
#[derive(Clone, Copy, Debug, PartialEq, Eq, Structural)]
pub struct QuotaWindow {
    pub used_percent: i32,
    pub window_duration_mins: Option<i64>,
}

/// One rate-limit reading of the signed-in account.
#[derive(Clone, Debug, PartialEq, Eq)]
pub struct AccountRateLimits {
    pub limit_id: Option<String>,
    pub primary: Option<QuotaWindow>,
    pub secondary: Option<QuotaWindow>,
    /// The backend reports a reached rate limit of some kind.
    pub rate_limit_reached: bool,
    pub spend_control_reached: Option<bool>,
}

/// The signed-in account's rate limits.
#[derive(Clone, Debug, PartialEq, Eq)]
pub struct GetAccountRateLimitsResponse {
    pub account_id: Option<String>,
    pub rate_limits: AccountRateLimits,
    /// The reading filed under the `codex` limit id, when the response has one.
    pub codex_rate_limits: Option<AccountRateLimits>,
}

/// The reading judged: the one filed under `codex`, else the main one.
pub open spec fn judged_limits(r: GetAccountRateLimitsResponse) -> AccountRateLimits {
    match r.codex_rate_limits {
        Some(l) => l,
        None => r.rate_limits,
    }
}

/// The window is within 0..100 percent used.
pub open spec fn window_has_room(w: Option<QuotaWindow>) -> bool {
    w matches Some(x) ==> 0 <= x.used_percent < 100
}

/// The window is a week long.
pub open spec fn window_is_weekly(w: Option<QuotaWindow>) -> bool {
    w matches Some(x) && x.window_duration_mins == Some(MINUTES_PER_WEEK)
}

/// The response belongs to the imported profile `account_id` and shows
/// Codex quota left: no reached limit or spend control, a weekly window,
/// and every window below 100% used (and not below 0%).
pub open spec fn spec_reset_account_has_quota(account_id: Seq<char>, r: GetAccountRateLimitsResponse) -> bool {
    let l = judged_limits(r);
    &&& r.account_id matches Some(b) && profile_id_of(encode_utf8("account:"@) + encode_utf8(b@)) == account_id
    &&& (l.limit_id matches Some(id) ==> id@ == "codex"@)
    &&& !l.rate_limit_reached
    &&& l.spend_control_reached != Some(true)
    &&& (window_is_weekly(l.primary) || window_is_weekly(l.secondary))
    &&& window_has_room(l.primary)
    &&& window_has_room(l.secondary)
}

/// Whether a rate-limit response shows quota for the imported profile
/// `account_id`; see `spec_reset_account_has_quota`.
pub fn reset_account_has_quota(account_id: &str, response: &GetAccountRateLimitsResponse) -> (res: bool)
    ensures
        res == spec_reset_account_has_quota(account_id@, *response),
{
    let backend_id = match &response.account_id {
        Some(b) => b,
        None => { return false; },
    };
    let mut input: Vec<u8> = Vec::new();
    push_utf8(&mut input, "account:");
    push_utf8(&mut input, backend_id.as_str());
    let profile = profile_id_for(input.as_slice());
    if !str_eq(profile.as_str(), account_id) {
        return false;
    }
    let limits = match &response.codex_rate_limits {
        Some(l) => l,
        None => &response.rate_limits,
    };
    let codex_id = match &limits.limit_id {
        Some(id) => str_eq(id.as_str(), "codex"),
        None => true,
    };
    let weekly = match limits.primary { Some(w) => w.window_duration_mins == Some(MINUTES_PER_WEEK), None => false }
        || match limits.secondary { Some(w) => w.window_duration_mins == Some(MINUTES_PER_WEEK), None => false };
    let room = match limits.primary { Some(w) => 0 <= w.used_percent && w.used_percent < 100, None => true }
        && match limits.secondary { Some(w) => 0 <= w.used_percent && w.used_percent < 100, None => true };
    codex_id && !limits.rate_limit_reached && limits.spend_control_reached != Some(true) && weekly && room
}

/// What resuming after a usage reset did.
#[derive(Clone, Debug, PartialEq, Eq)]
pub enum ResumeOutcome {
    /// The waiting turn was resumed: submit this message.
    Submit(String),
    /// Nothing to resume.
    Skip,
}

/// The state after resuming for a reset completed at `completed_at`.
pub open spec fn spec_after_resume(s: UsageResetState, completed_at: i64) -> UsageResetState {
    UsageResetState { usage_reset_wait: None, last_resumed_usage_reset_at: Some(completed_at), ..s }
}

impl UsageResetState {
    /// Resumes the waiting turn `turn_id` once a reset completed at
    /// `completed_at` left quota for `account_id`: the wait ends and
    /// `continue` is submitted. Anything else changes nothing.
    pub fn resume_after_usage_reset(
        &mut self,
        turn_id: &str,
        account_id: &str,
        completed_at: i64,
        response: &GetAccountRateLimitsResponse,
    ) -> (res: ResumeOutcome)
        ensures
            ({
                let resume = spec_usage_reset_turn(*old(self), completed_at) == Some(turn_id@)
                    && spec_reset_account_has_quota(account_id@, *response);
                &&& resume ==> *final(self) == spec_after_resume(*old(self), completed_at)
                    && (res matches ResumeOutcome::Submit(m) && m@ == "continue"@)
                &&& !resume ==> *final(self) == *old(self) && res == ResumeOutcome::Skip
            }),
    {
        let current = self.usage_reset_turn(completed_at);
        let matches = match &current {
            Some(t) => str_eq(t.as_str(), turn_id),
            None => false,
        };
        if !matches || !reset_account_has_quota(account_id, response) {
            return ResumeOutcome::Skip;
        }
        self.usage_reset_wait = None;
        self.last_resumed_usage_reset_at = Some(completed_at);
        ResumeOutcome::Submit(String::from_str("continue"))
    }
}

/// A usage reset names a turn to resume only when nothing else would run:
/// while a turn runs or is starting, follow-up messages are queued or
/// steers are pending, no reset resumes anything. When one does name a
/// turn, it is the turn waiting for the reset, and the reset completed no
/// earlier than that turn failed and after the last resumption.
pub proof fn lemma_resume_only_when_idle(s: UsageResetState, completed_at: i64)
    ensures
        s.agent_turn_running || s.user_turn_pending_start || s.has_queued_follow_up_messages || s.has_pending_steers
            ==> spec_usage_reset_turn(s, completed_at).is_none(),
        spec_usage_reset_turn(s, completed_at) matches Some(t) ==> (s.usage_reset_wait matches Some(w)
            && w.turn_id@ == t && completed_at >= w.failed_at
            && (s.last_resumed_usage_reset_at matches Some(last) ==> completed_at > last)),
        s.usage_reset_wait.is_none() ==> spec_usage_reset_turn(s, completed_at).is_none(),
{
}

/// A usage reset resumes a failed turn at most once: after resuming,
/// no reset completed at the same time or earlier names a turn to resume.
pub proof fn lemma_resume_at_most_once(s: UsageResetState, completed_at: i64, again_at: i64)
    requires
        again_at <= completed_at,
    ensures
        spec_usage_reset_turn(spec_after_resume(s, completed_at), again_at).is_none(),
{
}

/// A turn waiting for a reset stops waiting when new work starts: after a
/// new turn, an account change, a closed thread or a turn ending other
/// than by failure, no reset resumes anything until a turn fails again.
pub proof fn lemma_new_work_supersedes_wait(s: UsageResetState, event: ServerNotification, now: i64, completed_at: i64)
    requires
        clears_wait(event),
    ensures
        spec_usage_reset_turn(UsageResetState { usage_reset_wait: spec_observe_turn(s, event, now), ..s }, completed_at).is_none(),
{
}

} // verus!
