//! Reading the usage of imported accounts: the steps of one account's
//! read, with one retry after refreshing rejected credentials, and how the
//! results of all accounts are gathered.

use vstd::prelude::*;
use crate::account_usage::AccountUsage;
use crate::text::str_eq;

verus! {

/// Why refreshing credentials failed, as the login service reports it.
#[derive(Clone, Copy, Debug, PartialEq, Eq, Structural)]
pub enum RefreshTokenFailedReason {
    Expired,
    Exhausted,
    Revoked,
    Other,
}

/// Only an expired, exhausted or revoked refresh token needs a new login.
pub fn login_required(reason: RefreshTokenFailedReason) -> (res: bool)
    ensures
        res == (reason == RefreshTokenFailedReason::Expired || reason == RefreshTokenFailedReason::Exhausted
            || reason == RefreshTokenFailedReason::Revoked),
{
    match reason {
        RefreshTokenFailedReason::Expired | RefreshTokenFailedReason::Exhausted | RefreshTokenFailedReason::Revoked => true,
        RefreshTokenFailedReason::Other => false,
    }
}

/// A failed read: its message, whether it calls for a new login, and the
/// credentials it tried when a refresh failed.
#[derive(Clone, Debug, PartialEq, Eq)]
pub struct UsageFetchError<A> {
    pub message: String,
    pub login_required: bool,
    pub attempted_auth: Option<A>,
}

/// Where a read stands.
#[derive(Clone, Copy, Debug, PartialEq, Eq, Structural)]
pub enum FetchStage {
    Start,
    LoadingAuth,
    Fetching { after_refresh: bool },
    Refreshing,
    Done,
}

/// What the previous step of a read reported.
pub enum FetchEvent<A> {
    /// Whether the managed policy permits ChatGPT accounts.
    Begin { chatgpt_allowed: bool },
    /// The stored credentials: `Ok(false)` when there are none.
    AuthLoaded(Result<bool, String>),
    /// The usage, or the error and whether the server rejected the credentials.
    Fetched(Result<AccountUsage, (String, bool)>),
    /// Refreshed credentials (`Ok(false)`: none), or why the refresh failed.
    Refreshed(Result<bool, (String, Option<RefreshTokenFailedReason>, Option<A>)>),
}

/// The next step of a read.
pub enum FetchAction<A> {
    LoadAuth,
    FetchUsage,
    RefreshAuth,
    Finish(Result<AccountUsage, UsageFetchError<A>>),
}

/// A failed read with only a message.
pub open spec fn plain_failure<A>(message: Seq<char>, e: UsageFetchError<A>) -> bool {
    e.message@ == message && !e.login_required && e.attempted_auth.is_none()
}

/// One step of reading an account's usage: a policy that forbids ChatGPT
/// accounts fails at once; missing credentials fail; a read the server
/// rejects is retried once after refreshing the credentials, and a failed
/// refresh reports whether it calls for a new login and what it tried.
pub open spec fn fetch_step_ok<A>(stage: FetchStage, event: FetchEvent<A>, next: FetchStage, action: FetchAction<A>) -> bool {
    match event {
        FetchEvent::Begin { chatgpt_allowed } => if chatgpt_allowed {
            next == FetchStage::LoadingAuth && action is LoadAuth
        } else {
            next == FetchStage::Done && (action matches FetchAction::Finish(Err(e))
                && plain_failure("managed authentication policy does not permit ChatGPT accounts"@, e))
        },
        FetchEvent::AuthLoaded(r) => match r {
            Ok(true) => next == (FetchStage::Fetching { after_refresh: false }) && action is FetchUsage,
            Ok(false) => next == FetchStage::Done && (action matches FetchAction::Finish(Err(e))
                && plain_failure("imported account is not authenticated"@, e)),
            Err(m) => next == FetchStage::Done && (action matches FetchAction::Finish(Err(e)) && plain_failure(m@, e)),
        },
        FetchEvent::Fetched(r) => match r {
            Ok(u) => next == FetchStage::Done && (action matches FetchAction::Finish(Ok(v)) && v == u),
            Err((m, unauthorized)) => if unauthorized && stage == (FetchStage::Fetching { after_refresh: false }) {
                next == FetchStage::Refreshing && action is RefreshAuth
            } else {
                next == FetchStage::Done && (action matches FetchAction::Finish(Err(e)) && plain_failure(m@, e))
            },
        },
        FetchEvent::Refreshed(r) => match r {
            Ok(true) => next == (FetchStage::Fetching { after_refresh: true }) && action is FetchUsage,
            Ok(false) => next == FetchStage::Done && (action matches FetchAction::Finish(Err(e))
                && plain_failure("imported account is not authenticated"@, e)),
            Err((m, reason, attempted)) => next == FetchStage::Done && (action matches FetchAction::Finish(Err(e))
                && e.message@ == m@
                && e.login_required == (reason matches Some(why) && (why == RefreshTokenFailedReason::Expired
                    || why == RefreshTokenFailedReason::Exhausted || why == RefreshTokenFailedReason::Revoked))
                && e.attempted_auth == attempted),
        },
    }
}

/// The event reports the step the read waits for.
pub open spec fn fetch_event_fits<A>(stage: FetchStage, event: FetchEvent<A>) -> bool {
    match event {
        FetchEvent::Begin { .. } => stage == FetchStage::Start,
        FetchEvent::AuthLoaded(_) => stage == FetchStage::LoadingAuth,
        FetchEvent::Fetched(_) => stage is Fetching,
        FetchEvent::Refreshed(_) => stage == FetchStage::Refreshing,
    }
}

fn failure<A>(message: String) -> (res: FetchAction<A>)
    ensures
        res matches FetchAction::Finish(Err(e)) && plain_failure(message@, e),
{
    FetchAction::Finish(Err(UsageFetchError { message, login_required: false, attempted_auth: None }))
}

/// Takes one step of reading an account's usage; see `fetch_step_ok`.
pub fn fetch_step<A>(stage: FetchStage, event: FetchEvent<A>) -> (res: (FetchStage, FetchAction<A>))
    requires
        fetch_event_fits(stage, event),
    ensures
        fetch_step_ok(stage, event, res.0, res.1),
{
    match event {
        FetchEvent::Begin { chatgpt_allowed } => if chatgpt_allowed {
            (FetchStage::LoadingAuth, FetchAction::LoadAuth)
        } else {
            (FetchStage::Done, failure("managed authentication policy does not permit ChatGPT accounts".to_string()))
        },
        FetchEvent::AuthLoaded(r) => match r {
            Ok(true) => (FetchStage::Fetching { after_refresh: false }, FetchAction::FetchUsage),
            Ok(false) => (FetchStage::Done, failure("imported account is not authenticated".to_string())),
            Err(m) => (FetchStage::Done, failure(m)),
        },
        FetchEvent::Fetched(r) => match r {
            Ok(u) => (FetchStage::Done, FetchAction::Finish(Ok(u))),
            Err((m, unauthorized)) => {
                let first = match stage {
                    FetchStage::Fetching { after_refresh } => !after_refresh,
                    _ => false,
                };
                if unauthorized && first {
                    (FetchStage::Refreshing, FetchAction::RefreshAuth)
                } else {
                    (FetchStage::Done, failure(m))
                }
            },
        },
        FetchEvent::Refreshed(r) => match r {
            Ok(true) => (FetchStage::Fetching { after_refresh: true }, FetchAction::FetchUsage),
            Ok(false) => (FetchStage::Done, failure("imported account is not authenticated".to_string())),
            Err((m, reason, attempted)) => {
                let needs_login = match reason {
                    Some(why) => login_required(why),
                    None => false,
                };
                (FetchStage::Done, FetchAction::Finish(Err(UsageFetchError {
                    message: m,
                    login_required: needs_login,
                    attempted_auth: attempted,
                })))
            },
        },
    }
}

/// The usage read for each account, and the accounts that need a new
/// login with the credentials that were tried.
pub struct UsageLoad<A> {
    pub usage: Vec<(String, AccountUsage)>,
    pub login_required: Vec<(String, A)>,
    /// When each exhausted account can be used again, to be recorded.
    pub resets_to_record: Vec<(String, i64)>,
}

/// The reads of all accounts, in order.
pub type UsageResults<A> = Seq<(String, Result<AccountUsage, UsageFetchError<A>>)>;

/// No account occurs twice.
pub open spec fn keys_unique<T>(s: Seq<(Seq<char>, T)>) -> bool {
    forall|i: int, j: int| 0 <= i < j < s.len() ==> s[i].0 != s[j].0
}

/// `s` with `v` recorded for account `k`: in place of an earlier entry for
/// it, else at the end.
pub open spec fn keyed_insert<T>(s: Seq<(Seq<char>, T)>, k: Seq<char>, v: T) -> Seq<(Seq<char>, T)> {
    if exists|i: int| 0 <= i < s.len() && s[i].0 == k {
        s.update(choose|i: int| 0 <= i < s.len() && s[i].0 == k, (k, v))
    } else {
        s.push((k, v))
    }
}

/// Records `value` for account `key`, replacing an earlier entry for it.
fn insert_keyed<T>(entries: &mut Vec<(String, T)>, key: String, value: T)
    requires
        keys_unique(keyed(old(entries)@)),
    ensures
        keys_unique(keyed(final(entries)@)),
        keyed(final(entries)@) == keyed_insert(keyed(old(entries)@), key@, value),
{
    let ghost before = keyed(entries@);
    let mut i: usize = 0;
    while i < entries.len()
        invariant
            i <= entries@.len(),
            keyed(entries@) == before,
            before == keyed(old(entries)@),
            keys_unique(before),
            forall|j: int| 0 <= j < i ==> (#[trigger] before[j]).0 != key@,
        decreases entries@.len() - i,
    {
        if str_eq(entries[i].0.as_str(), key.as_str()) {
            proof {
                assert(before[i as int].0 == key@);
                assert(exists|j: int| 0 <= j < before.len() && before[j].0 == key@);
                let c = choose|j: int| 0 <= j < before.len() && before[j].0 == key@;
                assert(0 <= c < before.len() && before[c].0 == key@);
                if c != i as int {
                    if c < i { assert(before[c].0 != before[i as int].0); } else { assert(before[i as int].0 != before[c].0); }
                }
                assert(c == i as int);
                assert(keyed_insert(before, key@, value) == before.update(i as int, (key@, value)));
            }
            entries.set(i, (key, value));
            proof {
                assert(keyed(entries@) =~= before.update(i as int, (key@, value)));
            }
            return;
        }
        i = i + 1;
    }
    entries.push((key, value));
    proof {
        assert(keyed(entries@) =~= before.push((key@, value)));
        assert(!(exists|j: int| 0 <= j < before.len() && before[j].0 == key@));
    }
}

/// The usage read, per account, in order.
pub open spec fn read_usage<A>(rs: UsageResults<A>) -> Seq<(Seq<char>, AccountUsage)>
    decreases rs.len(),
{
    if rs.len() == 0 {
        Seq::empty()
    } else {
        let rest = read_usage(rs.drop_last());
        match rs.last().1 {
            Ok(u) => keyed_insert(rest, rs.last().0@, u),
            Err(_) => rest,
        }
    }
}

/// When each exhausted account resets, per account, in order.
pub open spec fn read_resets<A>(rs: UsageResults<A>) -> Seq<(Seq<char>, i64)>
    decreases rs.len(),
{
    if rs.len() == 0 {
        Seq::empty()
    } else {
        let rest = read_resets(rs.drop_last());
        match rs.last().1 {
            Ok(u) => match u.spec_exhausted_until() {
                Some(t) => rest.push((rs.last().0@, t)),
                None => rest,
            },
            Err(_) => rest,
        }
    }
}

/// The accounts that need a new login, with the credentials tried.
pub open spec fn read_logins<A>(rs: UsageResults<A>) -> Seq<(Seq<char>, A)>
    decreases rs.len(),
{
    if rs.len() == 0 {
        Seq::empty()
    } else {
        let rest = read_logins(rs.drop_last());
        match rs.last().1 {
            Err(e) => if e.login_required && e.attempted_auth.is_some() {
                keyed_insert(rest, rs.last().0@, e.attempted_auth->0)
            } else {
                rest
            },
            Ok(_) => rest,
        }
    }
}

/// Pairs with their text.
pub open spec fn keyed<T>(v: Seq<(String, T)>) -> Seq<(Seq<char>, T)> {
    v.map_values(|p: (String, T)| (p.0@, p.1))
}

/// Gathers the reads of all accounts: the last usage read of each account
/// is kept, and every read's exhausted windows give a reset time to record;
/// a failure that calls for a new login and carries the credentials tried
/// marks the account (with the last such credentials); other failures are
/// dropped.
pub fn collect_usage<A>(results: Vec<(String, Result<AccountUsage, UsageFetchError<A>>)>) -> (res: UsageLoad<A>)
    ensures
        keyed(res.usage@) == read_usage(results@),
        keyed(res.resets_to_record@) == read_resets(results@),
        keyed(res.login_required@) == read_logins(results@),
        keys_unique(keyed(res.usage@)),
        keys_unique(keyed(res.login_required@)),
{
    let mut results = results;
    let ghost all = results@;
    let mut usage: Vec<(String, AccountUsage)> = Vec::new();
    let mut login: Vec<(String, A)> = Vec::new();
    let mut resets: Vec<(String, i64)> = Vec::new();
    let n = results.len();
    let mut i: usize = 0;
    while i < n
        invariant
            n == all.len(),
            results@ == all.subrange(i as int, n as int),
            i <= n,
            keyed(usage@) == read_usage(all.take(i as int)),
            keyed(resets@) == read_resets(all.take(i as int)),
            keyed(login@) == read_logins(all.take(i as int)),
            keys_unique(keyed(usage@)),
            keys_unique(keyed(login@)),
        decreases n - i,
    {
        let (id, result) = results.remove(0);
        proof {
            assert(all[i as int] == (id, result));
            assert(all.take(i + 1).drop_last() =~= all.take(i as int));
            assert(all.take(i + 1).last() == all[i as int]);
        }
        match result {
            Ok(u) => {
                match u.exhausted_until() {
                    Some(t) => {
                        resets.push((id.clone(), t));
                    },
                    None => {},
                }
                insert_keyed(&mut usage, id, u);
            },
            Err(e) => {
                if e.login_required {
                    match e.attempted_auth {
                        Some(a) => insert_keyed(&mut login, id, a),
                        None => {},
                    }
                }
            },
        }
        proof {
            assert(keyed(usage@) =~= read_usage(all.take(i + 1)));
            assert(keyed(resets@) =~= read_resets(all.take(i + 1)));
            assert(keyed(login@) =~= read_logins(all.take(i + 1)));
            assert(results@ =~= all.subrange(i + 1, n as int));
        }
        i = i + 1;
    }
    assert(all.take(n as int) =~= all);
    UsageLoad { usage, login_required: login, resets_to_record: resets }
}

/// A read refreshes credentials at most once: after the refresh, a
/// rejected read ends the read.
pub proof fn lemma_refresh_at_most_once<A>(event: FetchEvent<A>, next: FetchStage, action: FetchAction<A>)
    requires
        fetch_event_fits(FetchStage::Fetching { after_refresh: true }, event),
        fetch_step_ok(FetchStage::Fetching { after_refresh: true }, event, next, action),
    ensures
        next == FetchStage::Done,
        action is Finish,
{
}

} // verus!
