//! Automatic redemption of earned usage resets: which credit to redeem and
//! what each step of a redemption does next.

use vstd::prelude::*;
use vstd::utf8::encode_utf8;
use crate::account_identity::ascii_lower_bytes;
use crate::account_identity::profile_id_for;
use crate::account_identity::profile_id_of;
use crate::account_identity::push_utf8;
use crate::account_identity::push_utf8_ascii_lower;
use crate::account_usage::RateLimitSnapshot;
use crate::account_usage::RateLimitWindow;
use crate::account_usage::MINUTES_PER_WEEK;
use crate::account_usage::is_codex_limit;
use crate::account_usage::is_codex_snapshot;
use crate::history::HistoryCell;
use crate::seqs::chars_lt;
use crate::seqs::count_where;
use crate::seqs::lemma_chars_lt_total;
use crate::seqs::lemma_chars_lt_transitive;
use crate::seqs::lemma_count_one_unique;
use crate::seqs::lemma_count_positive;
use crate::seqs::lemma_count_take_step;
use crate::seqs::str_lt;
use crate::text::str_eq;
use crate::text::trim;
use crate::text::trimmed;
use crate::timestamps::parse_rfc3339_timestamp;
use crate::timestamps::rfc3339_timestamp;

verus! {

/// The user's automatic-redemption triggers: redeem a credit this many
/// minutes before it expires, and redeem when the weekly window is
/// exhausted and resets no sooner than this many hours away.
#[derive(Clone, Copy, Debug, PartialEq, Eq, Structural)]
pub struct AutoRedeemResets {
    pub before_expiry_minutes: u64,
    pub weekly_exhausted_min_wait_hours: u64,
}

impl AutoRedeemResets {
    /// The triggers used when redemption is turned on without settings of
    /// its own: an hour before expiry, or three days before a weekly reset.
    pub open spec fn spec_default() -> AutoRedeemResets {
        AutoRedeemResets { before_expiry_minutes: 60, weekly_exhausted_min_wait_hours: 72 }
    }
}

impl Default for AutoRedeemResets {
    fn default() -> (res: AutoRedeemResets)
        ensures
            res == AutoRedeemResets::spec_default(),
    {
        AutoRedeemResets { before_expiry_minutes: 60, weekly_exhausted_min_wait_hours: 72 }
    }
}

/// What `toml::from_str::<toml::Value>` makes of the user configuration
/// `text`, looked up at `auto_redeem_resets`: `None` when the text is not
/// valid TOML; `Some(None)` when there is no such key; else its
/// `before_expiry_minutes` and `weekly_exhausted_min_wait_hours`, each
/// where it is an integer.
pub uninterp spec fn toml_auto_redeem_entry(text: Seq<char>) -> Option<Option<(Option<i64>, Option<i64>)>>;

/// Parses `text` with `toml::from_str::<toml::Value>` and reads
/// `auto_redeem_resets` with `Value::get` and `Value::as_integer`.
/// Claimed: the outcome depends on the text alone, and is
/// `toml_auto_redeem_entry`.
#[verifier::external_body]
fn parse_auto_redeem_entry(text: &str) -> (res: Option<Option<(Option<i64>, Option<i64>)>>)
    ensures
        res == toml_auto_redeem_entry(text@),
{
    let value = toml::from_str::<toml::Value>(text).ok()?;
    let field = |t: &toml::Value, key: &str| t.get(key).and_then(toml::Value::as_integer);
    Some(value.get("auto_redeem_resets").map(|t| (field(t, "before_expiry_minutes"), field(t, "weekly_exhausted_min_wait_hours"))))
}

/// The redemption settings of an entry of the user configuration: both
/// triggers, each a positive number.
pub open spec fn spec_auto_redeem_of_entry(entry: Option<Option<(Option<i64>, Option<i64>)>>) -> Option<AutoRedeemResets> {
    match entry {
        Some(Some((Some(minutes), Some(hours)))) => if minutes > 0 && hours > 0 {
            Some(AutoRedeemResets { before_expiry_minutes: minutes as u64, weekly_exhausted_min_wait_hours: hours as u64 })
        } else {
            None
        },
        _ => None,
    }
}

/// The automatic-redemption settings of the user configuration text: its
/// `auto_redeem_resets` table when the text is valid TOML and the table
/// gives both triggers as positive numbers; `None` otherwise.
pub fn settings_of_user_config(text: &str) -> (res: Option<AutoRedeemResets>)
    ensures
        res == spec_auto_redeem_of_entry(toml_auto_redeem_entry(text@)),
{
    match parse_auto_redeem_entry(text) {
        Some(Some((Some(minutes), Some(hours)))) => if minutes > 0 && hours > 0 {
            Some(AutoRedeemResets { before_expiry_minutes: minutes as u64, weekly_exhausted_min_wait_hours: hours as u64 })
        } else {
            None
        },
        _ => None,
    }
}

/// One earned usage-reset credit, as the backend lists it.
#[derive(Clone, Debug, PartialEq, Eq)]
pub struct RateLimitResetCredit {
    pub id: String,
    pub reset_type: String,
    pub status: String,
    pub expires_at: Option<String>,
}

/// Whether a scan may start new redemptions or only finish ones in progress.
#[derive(Clone, Copy, Debug, PartialEq, Eq, Structural)]
pub enum FreshRedemption {
    Allowed,
    RecoveryOnly,
}

impl FreshRedemption {
    /// New redemptions may start.
    pub fn allowed(&self) -> (res: bool)
        ensures
            res == (*self == FreshRedemption::Allowed),
    {
        match self {
            FreshRedemption::Allowed => true,
            FreshRedemption::RecoveryOnly => false,
        }
    }
}

/// `x` clamped to the range of `i64`.
pub open spec fn clamp_i64(x: int) -> int {
    if x > i64::MAX { i64::MAX as int } else if x < i64::MIN { i64::MIN as int } else { x }
}

/// The credit's id occurs once in the listing, is not empty, has no
/// surrounding white space, and the credit is an available Codex
/// rate-limit reset.
pub open spec fn credit_is_clean(c: RateLimitResetCredit, all: Seq<RateLimitResetCredit>) -> bool {
    &&& c.id@.len() > 0
    &&& trimmed(c.id@) == c.id@
    &&& c.reset_type@ == "codex_rate_limits"@
    &&& c.status@ == "available"@
    &&& count_where(all, |o: RateLimitResetCredit| o.id@ == c.id@) == 1
}

/// The credit's expiry: `Some(None)` when it never expires, `None` when
/// its date does not parse.
pub open spec fn credit_expiry(c: RateLimitResetCredit) -> Option<Option<i64>> {
    match c.expires_at {
        None => Some(None),
        Some(t) => match rfc3339_timestamp(t@) {
            Some(x) => Some(Some(x)),
            None => None,
        },
    }
}

/// A clean, unexpired credit with its expiry; `None` for any other credit.
pub open spec fn spec_parsed_credit(c: RateLimitResetCredit, all: Seq<RateLimitResetCredit>, now: i64) -> Option<Option<i64>> {
    if !credit_is_clean(c, all) {
        None
    } else {
        match credit_expiry(c) {
            None => None,
            Some(None) => Some(None),
            Some(Some(x)) => if x > now { Some(Some(x)) } else { None },
        }
    }
}

/// How many credits in the listing carry `id`.
fn count_credits_with_id(all: &Vec<RateLimitResetCredit>, id: &str) -> (res: usize)
    ensures
        res as int == count_where(all@, |o: RateLimitResetCredit| o.id@ == id@),
{
    let ghost p = |o: RateLimitResetCredit| o.id@ == id@;
    let mut count: usize = 0;
    let mut i: usize = 0;
    assert(all@.take(0) =~= Seq::<RateLimitResetCredit>::empty());
    while i < all.len()
        invariant
            i <= all@.len(),
            count <= i,
            count as int == count_where(all@.take(i as int), p),
            p == (|o: RateLimitResetCredit| o.id@ == id@),
        decreases all@.len() - i,
    {
        proof {
            lemma_count_take_step(all@, p, i as int);
        }
        if str_eq(all[i].id.as_str(), id) {
            count = count + 1;
        }
        i = i + 1;
    }
    assert(all@.take(all@.len() as int) =~= all@);
    count
}

/// A credit that may be redeemed now, with its expiry (`None`: never).
pub fn parsed_credit(credit: &RateLimitResetCredit, all: &Vec<RateLimitResetCredit>, now: i64) -> (res: Option<Option<i64>>)
    ensures
        res == spec_parsed_credit(*credit, all@, now),
{
    let id = credit.id.as_str();
    if id.unicode_len() == 0 || !str_eq(trim(id), id) || !str_eq(credit.reset_type.as_str(), "codex_rate_limits")
        || !str_eq(credit.status.as_str(), "available") || count_credits_with_id(all, id) != 1 {
        return None;
    }
    let expiry = match &credit.expires_at {
        None => None,
        Some(text) => match parse_rfc3339_timestamp(text.as_str()) {
            Some(x) => Some(x),
            None => {
                return None;
            },
        },
    };
    match expiry {
        Some(x) => if x > now { Some(Some(x)) } else { None },
        None => Some(None),
    }
}

/// The window lasts exactly a week.
pub open spec fn is_week_window(w: Option<RateLimitWindow>) -> bool {
    w matches Some(x) && x.window_minutes == Some(MINUTES_PER_WEEK)
}

/// The snapshot's only week-long window.
pub open spec fn sole_week_window(s: RateLimitSnapshot) -> Option<RateLimitWindow> {
    if is_week_window(s.primary) && is_week_window(s.secondary) {
        None
    } else if is_week_window(s.primary) {
        s.primary
    } else if is_week_window(s.secondary) {
        s.secondary
    } else {
        None
    }
}

/// The weekly window of the only `codex` snapshot, when there is exactly
/// one such snapshot with exactly one week-long window whose reading is
/// finite and not negative.
pub open spec fn spec_exact_weekly(snapshots: Seq<RateLimitSnapshot>) -> Option<(RateLimitSnapshot, RateLimitWindow)> {
    if count_where(snapshots, |s: RateLimitSnapshot| is_codex_limit(s)) == 1 {
        let i = choose|i: int| 0 <= i < snapshots.len() && is_codex_limit(snapshots[i]);
        match sole_week_window(snapshots[i]) {
            Some(w) => if w.used.finite_nonnegative { Some((snapshots[i], w)) } else { None },
            None => None,
        }
    } else {
        None
    }
}

/// The weekly window of the only `codex` snapshot; see `spec_exact_weekly`.
pub fn exact_weekly(snapshots: &Vec<RateLimitSnapshot>) -> (res: Option<(&RateLimitSnapshot, RateLimitWindow)>)
    ensures
        match res {
            Some((s, w)) => spec_exact_weekly(snapshots@) == Some((*s, w)),
            None => spec_exact_weekly(snapshots@).is_none(),
        },
{
    let ghost p = |s: RateLimitSnapshot| is_codex_limit(s);
    let mut found: Option<usize> = None;
    let mut count: usize = 0;
    let mut i: usize = 0;
    assert(snapshots@.take(0) =~= Seq::<RateLimitSnapshot>::empty());
    while i < snapshots.len()
        invariant
            i <= snapshots@.len(),
            count <= i,
            count as int == count_where(snapshots@.take(i as int), p),
            p == (|s: RateLimitSnapshot| is_codex_limit(s)),
            match found {
                Some(k) => k < i && is_codex_limit(snapshots@[k as int]) && count >= 1,
                None => count == 0,
            },
        decreases snapshots@.len() - i,
    {
        proof {
            lemma_count_take_step(snapshots@, p, i as int);
        }
        if is_codex_snapshot(&snapshots[i]) {
            count = count + 1;
            if found.is_none() {
                found = Some(i);
            }
        }
        i = i + 1;
    }
    assert(snapshots@.take(snapshots@.len() as int) =~= snapshots@);
    if count != 1 {
        return None;
    }
    let k = match found { Some(k) => k, None => { return None; } };
    proof {
        let c = choose|c: int| 0 <= c < snapshots@.len() && is_codex_limit(snapshots@[c]);
        assert(0 <= k < snapshots@.len() && is_codex_limit(snapshots@[k as int]));
        lemma_count_one_unique(snapshots@, p, c, k as int);
    }
    let snapshot = &snapshots[k];
    let primary_week = match snapshot.primary {
        Some(w) => w.window_minutes == Some(MINUTES_PER_WEEK),
        None => false,
    };
    let secondary_week = match snapshot.secondary {
        Some(w) => w.window_minutes == Some(MINUTES_PER_WEEK),
        None => false,
    };
    let window = if primary_week && secondary_week {
        None
    } else if primary_week {
        snapshot.primary
    } else if secondary_week {
        snapshot.secondary
    } else {
        None
    };
    match window {
        Some(w) => if w.used.finite_nonnegative { Some((snapshot, w)) } else { None },
        None => None,
    }
}

/// How long, in seconds, the weekly window must still have to run before
/// its exhaustion makes a credit worth redeeming.
pub open spec fn min_wait_seconds(min_wait_hours: u64) -> int {
    if min_wait_hours * 3600 > i64::MAX { i64::MAX as int } else { min_wait_hours * 3600 }
}

/// The weekly window is exhausted, the backend says the limit was reached,
/// and the window resets at least `min_wait_hours` after `now`.
pub open spec fn spec_weekly_exhausted(snapshots: Seq<RateLimitSnapshot>, now: i64, min_wait_hours: u64) -> bool {
    match spec_exact_weekly(snapshots) {
        None => false,
        Some((s, w)) => s.rate_limit_reached && w.used.at_least_full && (w.resets_at matches Some(r)
            && clamp_i64(r - now) >= min_wait_seconds(min_wait_hours)),
    }
}

/// Whether weekly exhaustion makes redemption worthwhile now.
pub fn weekly_exhausted(snapshots: &Vec<RateLimitSnapshot>, now: i64, min_wait_hours: u64) -> (res: bool)
    ensures
        res == spec_weekly_exhausted(snapshots@, now, min_wait_hours),
{
    let (snapshot, window) = match exact_weekly(snapshots) {
        Some(found) => found,
        None => { return false; },
    };
    let threshold: i64 = match min_wait_hours.checked_mul(3600) {
        Some(s) => if s > i64::MAX as u64 { i64::MAX } else { s as i64 },
        None => i64::MAX,
    };
    let long_enough = match window.resets_at {
        Some(r) => {
            let remaining: i64 = match r.checked_sub(now) {
                Some(d) => d,
                None => if now < 0 { i64::MAX } else { i64::MIN },
            };
            remaining >= threshold
        },
        None => false,
    };
    snapshot.rate_limit_reached && window.used.at_least_full && long_enough
}

/// Weekly exhaustion counts only for the one weekly Codex window, when the
/// backend reports its limit reached, it is fully used, and it resets no
/// sooner than `min_wait_hours` hours after `now` (or as late as an `i64`
/// can say); a window that resets any sooner, or whose reset is unknown,
/// never counts.
pub proof fn lemma_weekly_exhaustion_needs_a_distant_reset(snapshots: Seq<RateLimitSnapshot>, now: i64, min_wait_hours: u64)
    ensures
        spec_weekly_exhausted(snapshots, now, min_wait_hours) ==> (spec_exact_weekly(snapshots) matches Some((s, w))
            && s.rate_limit_reached && w.used.at_least_full
            && (w.resets_at matches Some(r) && (r - now >= min_wait_hours * 3600 || r - now >= i64::MAX))),
        (spec_exact_weekly(snapshots) matches Some((s, w)) && s.rate_limit_reached && w.used.at_least_full
            && (w.resets_at matches Some(r) && r - now >= min_wait_hours * 3600))
            ==> spec_weekly_exhausted(snapshots, now, min_wait_hours),
{
}

/// The latest expiry that makes a credit due: `now` plus the configured
/// minutes, saturating at the bounds of `i64`.
pub open spec fn expiry_limit(settings: AutoRedeemResets, now: i64) -> int {
    let minutes = if settings.before_expiry_minutes > i64::MAX { i64::MAX as int } else { settings.before_expiry_minutes as int };
    clamp_i64(now + clamp_i64(minutes * 60))
}

/// The credit may be redeemed now and one trigger fires for it: the
/// weekly window is exhausted, or the credit expires within the limit.
pub open spec fn is_candidate(
    c: RateLimitResetCredit,
    all: Seq<RateLimitResetCredit>,
    usage: Seq<RateLimitSnapshot>,
    settings: AutoRedeemResets,
    now: i64,
) -> bool {
    match spec_parsed_credit(c, all, now) {
        None => false,
        Some(e) => spec_weekly_exhausted(usage, now, settings.weekly_exhausted_min_wait_hours)
            || (e matches Some(x) && x <= expiry_limit(settings, now)),
    }
}

/// Credits sort by: expiring before never-expiring, then earlier expiry,
/// then id.
pub open spec fn credit_key_lt(e1: Option<i64>, id1: Seq<char>, e2: Option<i64>, id2: Seq<char>) -> bool {
    let n1 = e1.is_none();
    let n2 = e2.is_none();
    let x1 = match e1 { Some(x) => x as int, None => i64::MAX as int };
    let x2 = match e2 { Some(x) => x as int, None => i64::MAX as int };
    if n1 != n2 {
        !n1
    } else if x1 != x2 {
        x1 < x2
    } else {
        chars_lt(id1, id2)
    }
}

/// The expiry a candidate credit carries (only meaningful for candidates).
pub open spec fn expiry_of(c: RateLimitResetCredit, all: Seq<RateLimitResetCredit>, now: i64) -> Option<i64> {
    match spec_parsed_credit(c, all, now) {
        Some(e) => e,
        None => None,
    }
}

/// Credit `a` sorts strictly before credit `b`.
pub open spec fn credit_lt(a: RateLimitResetCredit, b: RateLimitResetCredit, all: Seq<RateLimitResetCredit>, now: i64) -> bool {
    credit_key_lt(expiry_of(a, all, now), a.id@, expiry_of(b, all, now), b.id@)
}

/// `k` is the credit to redeem: a candidate, no candidate sorts before it,
/// and every earlier candidate sorts after it.
pub open spec fn is_selected_credit(
    all: Seq<RateLimitResetCredit>,
    usage: Seq<RateLimitSnapshot>,
    settings: AutoRedeemResets,
    now: i64,
    k: int,
) -> bool {
    &&& 0 <= k < all.len()
    &&& is_candidate(all[k], all, usage, settings, now)
    &&& forall|j: int| 0 <= j < all.len() && is_candidate(#[trigger] all[j], all, usage, settings, now) ==> !credit_lt(all[j], all[k], all, now)
    &&& forall|j: int| 0 <= j < k && is_candidate(#[trigger] all[j], all, usage, settings, now) ==> credit_lt(all[k], all[j], all, now)
}

/// When the weekly window resets sooner than the configured wait (or
/// there is no exhausted weekly window), the only credits that may be
/// redeemed are those expiring within `before_expiry_minutes` of `now`:
/// `select_credit` then picks no credit that expires later or never.
pub proof fn lemma_near_reset_redeems_only_expiring_credits(
    c: RateLimitResetCredit,
    all: Seq<RateLimitResetCredit>,
    usage: Seq<RateLimitSnapshot>,
    settings: AutoRedeemResets,
    now: i64,
)
    requires
        match spec_exact_weekly(usage) {
            Some((s, w)) => !(s.rate_limit_reached && w.used.at_least_full) || (match w.resets_at {
                Some(r) => r - now < settings.weekly_exhausted_min_wait_hours * 3600 && r - now < i64::MAX,
                None => true,
            }),
            None => true,
        },
        is_candidate(c, all, usage, settings, now),
    ensures
        expiry_of(c, all, now) matches Some(x) && x <= expiry_limit(settings, now),
{
    lemma_weekly_exhaustion_needs_a_distant_reset(usage, now, settings.weekly_exhausted_min_wait_hours);
}

proof fn lemma_key_order(e1: Option<i64>, id1: Seq<char>, e2: Option<i64>, id2: Seq<char>, e3: Option<i64>, id3: Seq<char>)
    ensures
        credit_key_lt(e1, id1, e2, id2) && credit_key_lt(e2, id2, e3, id3) ==> credit_key_lt(e1, id1, e3, id3),
        !credit_key_lt(e1, id1, e2, id2) && !credit_key_lt(e2, id2, e1, id1) ==> e1 == e2 && id1 == id2,
        !(credit_key_lt(e1, id1, e2, id2) && credit_key_lt(e2, id2, e1, id1)),
{
    lemma_chars_lt_total(id1, id2);
    if chars_lt(id1, id2) && chars_lt(id2, id3) {
        lemma_chars_lt_transitive(id1, id2, id3);
    }
}

/// The credit to redeem now, if any: among credits that may be redeemed and
/// for which a trigger fires, the first one that expires soonest (credits
/// that never expire last), ties broken by id.
pub fn select_credit(
    credits: &Vec<RateLimitResetCredit>,
    usage: &Vec<RateLimitSnapshot>,
    settings: AutoRedeemResets,
    now: i64,
) -> (res: Option<String>)
    ensures
        match res {
            Some(id) => exists|k: int| is_selected_credit(credits@, usage@, settings, now, k) && #[trigger] credits@[k].id@ == id@,
            None => forall|j: int| 0 <= j < credits@.len() ==> !is_candidate(#[trigger] credits@[j], credits@, usage@, settings, now),
        },
{
    let exhaustion_eligible = weekly_exhausted(usage, now, settings.weekly_exhausted_min_wait_hours);
    let minutes: i64 = if settings.before_expiry_minutes > i64::MAX as u64 { i64::MAX } else { settings.before_expiry_minutes as i64 };
    let span: i64 = match minutes.checked_mul(60) { Some(s) => s, None => i64::MAX };
    let limit: i64 = match now.checked_add(span) { Some(l) => l, None => i64::MAX };
    let mut best: Option<(usize, Option<i64>)> = None;
    let mut i: usize = 0;
    while i < credits.len()
        invariant
            i <= credits@.len(),
            exhaustion_eligible == spec_weekly_exhausted(usage@, now, settings.weekly_exhausted_min_wait_hours),
            limit as int == expiry_limit(settings, now),
            match best {
                Some((b, e)) => {
                    &&& b < i
                    &&& is_candidate(credits@[b as int], credits@, usage@, settings, now)
                    &&& e == expiry_of(credits@[b as int], credits@, now)
                    &&& forall|j: int| 0 <= j < i && is_candidate(#[trigger] credits@[j], credits@, usage@, settings, now)
                        ==> !credit_lt(credits@[j], credits@[b as int], credits@, now)
                    &&& forall|j: int| 0 <= j < b && is_candidate(#[trigger] credits@[j], credits@, usage@, settings, now)
                        ==> credit_lt(credits@[b as int], credits@[j], credits@, now)
                },
                None => forall|j: int| 0 <= j < i ==> !is_candidate(#[trigger] credits@[j], credits@, usage@, settings, now),
            },
        decreases credits@.len() - i,
    {
        let parsed = parsed_credit(&credits[i], credits, now);
        match parsed {
            Some(expiry) => {
                let due = exhaustion_eligible || match expiry { Some(x) => x <= limit, None => false };
                if due {
                    let better = match best {
                        None => true,
                        Some((b, be)) => {
                            let n1 = expiry.is_none();
                            let n2 = be.is_none();
                            let x1 = match expiry { Some(x) => x, None => i64::MAX };
                            let x2 = match be { Some(x) => x, None => i64::MAX };
                            if n1 != n2 {
                                !n1
                            } else if x1 != x2 {
                                x1 < x2
                            } else {
                                str_lt(credits[i].id.as_str(), credits[b].id.as_str())
                            }
                        },
                    };
                    if better {
                        proof {
                            match best {
                                Some((b, _)) => {
                                    let ci = credits@[i as int];
                                    let cb = credits@[b as int];
                                    assert forall|j: int| 0 <= j < i + 1 && is_candidate(#[trigger] credits@[j], credits@, usage@, settings, now)
                                        implies !credit_lt(credits@[j], ci, credits@, now) by {
                                        let cj = credits@[j];
                                        lemma_key_order(expiry_of(cj, credits@, now), cj.id@, expiry_of(ci, credits@, now), ci.id@, expiry_of(cb, credits@, now), cb.id@);
                                        lemma_key_order(expiry_of(ci, credits@, now), ci.id@, expiry_of(cj, credits@, now), cj.id@, expiry_of(ci, credits@, now), ci.id@);
                                    }
                                    assert forall|j: int| 0 <= j < i && is_candidate(#[trigger] credits@[j], credits@, usage@, settings, now)
                                        implies credit_lt(ci, credits@[j], credits@, now) by {
                                        let cj = credits@[j];
                                        lemma_key_order(expiry_of(ci, credits@, now), ci.id@, expiry_of(cb, credits@, now), cb.id@, expiry_of(cj, credits@, now), cj.id@);
                                        lemma_key_order(expiry_of(cb, credits@, now), cb.id@, expiry_of(cj, credits@, now), cj.id@, expiry_of(cb, credits@, now), cb.id@);
                                    }
                                },
                                None => {
                                    let ci = credits@[i as int];
                                    lemma_key_order(expiry_of(ci, credits@, now), ci.id@, expiry_of(ci, credits@, now), ci.id@, expiry_of(ci, credits@, now), ci.id@);
                                },
                            }
                        }
                        best = Some((i, expiry));
                    } else {
                        proof {
                            match best {
                                Some((b, _)) => {
                                    let ci = credits@[i as int];
                                    let cb = credits@[b as int];
                                    lemma_key_order(expiry_of(ci, credits@, now), ci.id@, expiry_of(cb, credits@, now), cb.id@, expiry_of(ci, credits@, now), ci.id@);
                                },
                                None => {},
                            }
                        }
                    }
                }
            },
            None => {},
        }
        i = i + 1;
    }
    match best {
        Some((b, _)) => {
            proof {
                assert(is_selected_credit(credits@, usage@, settings, now, b as int));
            }
            Some(credits[b].id.clone())
        },
        None => None,
    }
}


/// The identity claims of an imported account's tokens.
#[derive(Clone, Debug, PartialEq, Eq)]
pub struct ProfileTokens {
    pub account_id: Option<String>,
    pub chatgpt_account_id: Option<String>,
    pub chatgpt_user_id: Option<String>,
    pub email: Option<String>,
}

/// What is known of an account's stored credentials.
#[derive(Clone, Debug, PartialEq, Eq)]
pub struct ProfileAuth {
    pub is_chatgpt_auth: bool,
    pub uses_codex_backend: bool,
    /// The token claims, when they can be read.
    pub tokens: Option<ProfileTokens>,
}

/// The digest input naming the profile: `account:` with the account id
/// (from the tokens, else from the ID token), else `user:` with the
/// ChatGPT user id, else `email:` with the lower-cased email; in UTF-8.
pub open spec fn profile_digest_input(t: ProfileTokens) -> Option<Seq<u8>> {
    match t.account_id {
        Some(a) => Some(encode_utf8("account:"@) + encode_utf8(a@)),
        None => match t.chatgpt_account_id {
            Some(a) => Some(encode_utf8("account:"@) + encode_utf8(a@)),
            None => match t.chatgpt_user_id {
                Some(u) => Some(encode_utf8("user:"@) + encode_utf8(u@)),
                None => match t.email {
                    Some(e) => Some(encode_utf8("email:"@) + ascii_lower_bytes(encode_utf8(e@))),
                    None => None,
                },
            },
        },
    }
}

/// The profile id that the tokens name.
pub open spec fn spec_profile_id(t: ProfileTokens) -> Option<Seq<char>> {
    match profile_digest_input(t) {
        Some(input) => Some(profile_id_of(input)),
        None => None,
    }
}

/// The imported-account profile id that the token claims name, `None` when
/// they name no account, user or email.
pub fn profile_id(tokens: &ProfileTokens) -> (res: Option<String>)
    ensures
        match res {
            Some(id) => spec_profile_id(*tokens) == Some(id@),
            None => spec_profile_id(*tokens).is_none(),
        },
{
    let mut input: Vec<u8> = Vec::new();
    let account = match &tokens.account_id {
        Some(a) => Some(a),
        None => match &tokens.chatgpt_account_id {
            Some(a) => Some(a),
            None => None,
        },
    };
    match account {
        Some(a) => {
            push_utf8(&mut input, "account:");
            push_utf8(&mut input, a.as_str());
        },
        None => match &tokens.chatgpt_user_id {
            Some(u) => {
                push_utf8(&mut input, "user:");
                push_utf8(&mut input, u.as_str());
            },
            None => match &tokens.email {
                Some(e) => {
                    push_utf8(&mut input, "email:");
                    push_utf8_ascii_lower(&mut input, e.as_str());
                },
                None => {
                    return None;
                },
            },
        },
    }
    proof {
        assert(profile_digest_input(*tokens) == Some(input@));
    }
    Some(profile_id_for(input.as_slice()))
}

/// The stored credentials still belong to the profile `account_id`.
pub open spec fn spec_matches_profile(account_id: Seq<char>, auth: ProfileAuth) -> bool {
    &&& auth.is_chatgpt_auth
    &&& auth.uses_codex_backend
    &&& auth.tokens matches Some(t) && spec_profile_id(t) == Some(account_id)
}

/// Whether ChatGPT credentials for the Codex backend still name the
/// imported profile `account_id`.
pub fn matches_profile(account_id: &str, auth: &ProfileAuth) -> (res: bool)
    ensures
        res == spec_matches_profile(account_id@, *auth),
{
    if !auth.is_chatgpt_auth || !auth.uses_codex_backend {
        return false;
    }
    match &auth.tokens {
        Some(t) => match profile_id(t) {
            Some(id) => str_eq(id.as_str(), account_id),
            None => false,
        },
        None => false,
    }
}

/// The home directory of account `id` among the enabled signed-in
/// accounts: that of the first entry with its id, else the error that the
/// account is no longer available.
pub fn current_account_home(enabled: &Vec<(String, String)>, id: &str) -> (res: Result<String, String>)
    ensures
        match res {
            Ok(home) => exists|k: int| 0 <= k < enabled@.len() && (#[trigger] enabled@[k]).0@ == id@
                && (forall|m: int| 0 <= m < k ==> (#[trigger] enabled@[m]).0@ != id@)
                && home@ == enabled@[k].1@,
            Err(m) => m@ == "imported account is no longer enabled, signed in, or available"@
                && forall|k: int| 0 <= k < enabled@.len() ==> (#[trigger] enabled@[k]).0@ != id@,
        },
{
    let mut k: usize = 0;
    while k < enabled.len()
        invariant
            k <= enabled@.len(),
            forall|m: int| 0 <= m < k ==> (#[trigger] enabled@[m]).0@ != id@,
        decreases enabled@.len() - k,
    {
        if str_eq(enabled[k].0.as_str(), id) {
            return Ok(enabled[k].1.clone());
        }
        k = k + 1;
    }
    Err(String::from_str("imported account is no longer enabled, signed in, or available"))
}

/// Where an interrupted redemption stands, as its lease records it.
#[derive(Clone, Debug, PartialEq, Eq)]
pub enum ResetAttemptPhase {
    ActivatingWeekly,
    Redeeming { credit_id: String, redeem_request_id: String },
}

/// What processing an account does next.
#[derive(Clone, Debug, PartialEq, Eq)]
pub enum RedemptionPlan {
    /// Nothing to do for this account now.
    Skip,
    /// Finish the weekly activation that follows a redemption.
    Recover,
    /// Redeem this credit with this request id.
    Redeem { credit_id: String, redeem_request_id: String },
    /// Read usage and credits and select a credit to redeem.
    SelectFresh,
}

/// The next step for an account whose redemption lease was acquired:
/// recorded work is resumed first; new work starts only where allowed.
pub open spec fn spec_plan_redemption(phase: Option<ResetAttemptPhase>, fresh: FreshRedemption) -> RedemptionPlan {
    match phase {
        Some(ResetAttemptPhase::ActivatingWeekly) => RedemptionPlan::Recover,
        Some(ResetAttemptPhase::Redeeming { credit_id, redeem_request_id }) => RedemptionPlan::Redeem { credit_id, redeem_request_id },
        None => if fresh == FreshRedemption::Allowed { RedemptionPlan::SelectFresh } else { RedemptionPlan::Skip },
    }
}

/// The next step for an account; see `spec_plan_redemption`.
pub fn plan_redemption(phase: Option<ResetAttemptPhase>, fresh: &FreshRedemption) -> (res: RedemptionPlan)
    ensures
        res == spec_plan_redemption(phase, *fresh),
{
    match phase {
        Some(ResetAttemptPhase::ActivatingWeekly) => RedemptionPlan::Recover,
        Some(ResetAttemptPhase::Redeeming { credit_id, redeem_request_id }) => RedemptionPlan::Redeem { credit_id, redeem_request_id },
        None => if fresh.allowed() { RedemptionPlan::SelectFresh } else { RedemptionPlan::Skip },
    }
}

/// The backend's answer to a redemption request.
#[derive(Clone, Copy, Debug, PartialEq, Eq, Structural)]
pub enum ConsumeRateLimitResetCreditCode {
    Reset,
    AlreadyRedeemed,
    NothingToReset,
    NoCredit,
}

/// What follows the backend's answer to a redemption.
#[derive(Clone, Copy, Debug, PartialEq, Eq, Structural)]
pub enum RedeemFollowUp {
    /// Record the redemption as confirmed, then recover the weekly window.
    ConfirmThenRecover,
    /// Clear the redemption in progress; nothing was redeemed.
    ClearRedeeming,
}

/// A redemption that reset the windows, or had already done so, is
/// confirmed and followed by recovery; one with nothing to reset or no
/// credit is cleared.
pub fn redeem_follow_up(code: ConsumeRateLimitResetCreditCode) -> (res: RedeemFollowUp)
    ensures
        res == (if code == ConsumeRateLimitResetCreditCode::Reset || code == ConsumeRateLimitResetCreditCode::AlreadyRedeemed {
            RedeemFollowUp::ConfirmThenRecover
        } else {
            RedeemFollowUp::ClearRedeeming
        }),
{
    match code {
        ConsumeRateLimitResetCreditCode::Reset | ConsumeRateLimitResetCreditCode::AlreadyRedeemed => RedeemFollowUp::ConfirmThenRecover,
        ConsumeRateLimitResetCreditCode::NothingToReset | ConsumeRateLimitResetCreditCode::NoCredit => RedeemFollowUp::ClearRedeeming,
    }
}

/// What recovery does after reading fresh usage.
#[derive(Clone, Copy, Debug, PartialEq, Eq, Structural)]
pub enum RecoveryAction {
    /// The weekly window is unused: record the reset, then start the window
    /// and finish activation once that completes.
    RecordResetThenActivate,
    /// The weekly window is already running: record the reset and finish.
    RecordResetAndFinish,
    /// The weekly window is exhausted or cannot be read exactly: stop.
    Stop,
}

/// The recovery step for a usage reading; see `RecoveryAction`.
pub open spec fn spec_recovery_action(snapshots: Seq<RateLimitSnapshot>) -> RecoveryAction {
    match spec_exact_weekly(snapshots) {
        Some((_, w)) => if w.used.is_zero {
            RecoveryAction::RecordResetThenActivate
        } else if !w.used.at_least_full {
            RecoveryAction::RecordResetAndFinish
        } else {
            RecoveryAction::Stop
        },
        None => RecoveryAction::Stop,
    }
}

/// The recovery step for a usage reading.
pub fn recovery_action(snapshots: &Vec<RateLimitSnapshot>) -> (res: RecoveryAction)
    ensures
        res == spec_recovery_action(snapshots@),
{
    match exact_weekly(snapshots) {
        Some((_, w)) => if w.used.is_zero {
            RecoveryAction::RecordResetThenActivate
        } else if !w.used.at_least_full {
            RecoveryAction::RecordResetAndFinish
        } else {
            RecoveryAction::Stop
        },
        None => RecoveryAction::Stop,
    }
}

/// The history entry announcing a completed redemption for an account.
pub fn notice_cell(label: &str) -> (res: HistoryCell)
    ensures
        res == (HistoryCell::Info { message: res->Info_message, hint: None }),
        res.message() == "Codex++ auto-redeemed a usage reset for "@ + label@ + "."@,
{
    let mut message = String::from_str("Codex++ auto-redeemed a usage reset for ");
    message.append(label);
    message.append(".");
    HistoryCell::Info { message, hint: None }
}

/// Completions already reported by this process, one per profile.
pub struct CompletionNotices {
    started_at: i64,
    seen: Vec<(String, String)>,
}

impl CompletionNotices {
    /// No profile id occurs twice among the reported completions.
    pub closed spec fn wf(self) -> bool {
        forall|i: int, j: int| 0 <= i < j < self.seen@.len() ==> self.seen@[i].0@ != self.seen@[j].0@
    }

    /// The last completion id reported for each profile.
    pub closed spec fn view_seen(self) -> Map<Seq<char>, Seq<char>> {
        Map::new(
            |p: Seq<char>| exists|i: int| 0 <= i < self.seen@.len() && #[trigger] self.seen@[i].0@ == p,
            |p: Seq<char>| {
                let i = choose|i: int| 0 <= i < self.seen@.len() && #[trigger] self.seen@[i].0@ == p;
                self.seen@[i].1@
            },
        )
    }

    /// When this process started, in nanoseconds.
    pub closed spec fn spec_started_at(self) -> i64 {
        self.started_at
    }

    /// Notices for a process that started at `started_at`.
    pub fn starting_at(started_at: i64) -> (res: CompletionNotices)
        ensures
            res.wf(),
            res.spec_started_at() == started_at,
            res.view_seen() == Map::<Seq<char>, Seq<char>>::empty(),
    {
        let res = CompletionNotices { started_at, seen: Vec::new() };
        assert(res.view_seen() =~= Map::<Seq<char>, Seq<char>>::empty());
        res
    }

    /// Notices for a process starting now.
    pub fn new() -> (res: CompletionNotices)
        ensures
            res.wf(),
            res.view_seen() == Map::<Seq<char>, Seq<char>>::empty(),
    {
        let started_at = match crate::timestamps::utc_now_nanos() {
            Some(t) => t,
            None => i64::MAX,
        };
        CompletionNotices::starting_at(started_at)
    }

    /// Records that profile `profile` reports completion `completion`,
    /// finished at `completed_at`. Returns whether to announce it: only a
    /// completion not yet seen for the profile, finished after this process
    /// started.
    pub fn observe(&mut self, profile: &str, completion: &str, completed_at: i64) -> (announce: bool)
        requires
            old(self).wf(),
        ensures
            final(self).wf(),
            final(self).spec_started_at() == old(self).spec_started_at(),
            final(self).view_seen() == old(self).view_seen().insert(profile@, completion@),
            announce == spec_announces(old(self).view_seen(), profile@, completion@, completed_at, old(self).spec_started_at()),
    {
        let ghost before = self.view_seen();
        let mut i: usize = 0;
        while i < self.seen.len()
            invariant
                self.wf(),
                *self == *old(self),
                before == old(self).view_seen(),
                i <= self.seen@.len(),
                forall|j: int| 0 <= j < i ==> self.seen@[j].0@ != profile@,
            decreases self.seen@.len() - i,
        {
            if str_eq(self.seen[i].0.as_str(), profile) {
                let same = str_eq(self.seen[i].1.as_str(), completion);
                proof {
                    assert(self.seen@[i as int].0@ == profile@);
                    assert(before.dom().contains(profile@));
                    let k = choose|k: int| 0 <= k < self.seen@.len() && #[trigger] self.seen@[k].0@ == profile@;
                    assert(k == i);
                }
                if same {
                    proof {
                        assert(self.view_seen() =~= before.insert(profile@, completion@));
                    }
                    return false;
                }
                let ghost old_seen = self.seen@;
                self.seen.set(i, (String::from_str(profile), String::from_str(completion)));
                proof {
                    assert forall|a: int, b: int| 0 <= a < b < self.seen@.len() implies self.seen@[a].0@ != self.seen@[b].0@ by {
                        assert(old_seen[a].0@ != old_seen[b].0@);
                    }
                    assert(self.seen@[i as int].0@ == profile@);
                    assert forall|k: int| 0 <= k < self.seen@.len() && k != i implies #[trigger] self.seen@[k] == old_seen[k] by {}
                    assert forall|p: Seq<char>| #[trigger] self.view_seen().dom().contains(p) == before.insert(profile@, completion@).dom().contains(p) by {
                        if exists|k: int| 0 <= k < old_seen.len() && #[trigger] old_seen[k].0@ == p {
                            let k = choose|k: int| 0 <= k < old_seen.len() && #[trigger] old_seen[k].0@ == p;
                            if k == i {
                                assert(self.seen@[i as int].0@ == p);
                            } else {
                                assert(self.seen@[k].0@ == p);
                            }
                        }
                        if exists|k: int| 0 <= k < self.seen@.len() && #[trigger] self.seen@[k].0@ == p {
                            let k = choose|k: int| 0 <= k < self.seen@.len() && #[trigger] self.seen@[k].0@ == p;
                            if k == i {
                                assert(old_seen[i as int].0@ == p);
                            } else {
                                assert(old_seen[k].0@ == p);
                            }
                        }
                    }
                    assert forall|p: Seq<char>| #[trigger] self.view_seen().dom().contains(p) implies self.view_seen()[p] == before.insert(profile@, completion@)[p] by {
                        let k = choose|k: int| 0 <= k < self.seen@.len() && #[trigger] self.seen@[k].0@ == p;
                        if p != profile@ {
                            let k2 = choose|k2: int| 0 <= k2 < old_seen.len() && #[trigger] old_seen[k2].0@ == p;
                            assert(k2 == k);
                        }
                    }
                    assert(self.view_seen() =~= before.insert(profile@, completion@));
                }
                return completed_at >= self.started_at;
            }
            i = i + 1;
        }
        let ghost old_seen = self.seen@;
        self.seen.push((String::from_str(profile), String::from_str(completion)));
        proof {
            assert(!before.dom().contains(profile@));
            assert forall|p: Seq<char>| #[trigger] self.view_seen().dom().contains(p) == before.insert(profile@, completion@).dom().contains(p) by {
                if exists|k: int| 0 <= k < old_seen.len() && #[trigger] old_seen[k].0@ == p {
                    let k = choose|k: int| 0 <= k < old_seen.len() && #[trigger] old_seen[k].0@ == p;
                    assert(self.seen@[k].0@ == p);
                }
                if p == profile@ {
                    assert(self.seen@[old_seen.len() as int].0@ == p);
                }
                if exists|k: int| 0 <= k < self.seen@.len() && #[trigger] self.seen@[k].0@ == p {
                    let k = choose|k: int| 0 <= k < self.seen@.len() && #[trigger] self.seen@[k].0@ == p;
                    if k < old_seen.len() {
                        assert(old_seen[k].0@ == p);
                    }
                }
            }
            assert forall|p: Seq<char>| #[trigger] self.view_seen().dom().contains(p) implies self.view_seen()[p] == before.insert(profile@, completion@)[p] by {
                let k = choose|k: int| 0 <= k < self.seen@.len() && #[trigger] self.seen@[k].0@ == p;
                if p != profile@ {
                    let k2 = choose|k2: int| 0 <= k2 < old_seen.len() && #[trigger] old_seen[k2].0@ == p;
                    assert(self.seen@[k2].0@ == p);
                    assert(k2 == k);
                } else {
                    assert(k == old_seen.len());
                }
            }
            assert(self.view_seen() =~= before.insert(profile@, completion@));
        }
        completed_at >= self.started_at
    }
}

/// A profile as a poll of the reset store finds it: its id, its label, and
/// the completion its redemption state records, with when it finished.
#[derive(Clone, Debug, PartialEq, Eq)]
pub struct ProfileCompletion {
    pub profile: String,
    pub label: String,
    pub completion: Option<(String, i64)>,
}

/// The text of a completion notice for a profile label.
pub open spec fn notice_text(label: Seq<char>) -> Seq<char> {
    "Codex++ auto-redeemed a usage reset for "@ + label + "."@
}

/// Polling the profiles in order: the completions seen afterwards, and the
/// labels of the profiles whose completion is announced.
pub open spec fn spec_poll(
    seen: Map<Seq<char>, Seq<char>>,
    started_at: i64,
    reports: Seq<ProfileCompletion>,
) -> (Map<Seq<char>, Seq<char>>, Seq<Seq<char>>)
    decreases reports.len(),
{
    if reports.len() == 0 {
        (seen, Seq::empty())
    } else {
        let (s, msgs) = spec_poll(seen, started_at, reports.drop_last());
        let r = reports.last();
        match r.completion {
            None => (s, msgs),
            Some((c, at)) => (
                s.insert(r.profile@, c@),
                if spec_announces(s, r.profile@, c@, at, started_at) { msgs.push(notice_text(r.label@)) } else { msgs },
            ),
        }
    }
}

/// The messages of notices, as text.
pub open spec fn notice_texts(cells: Seq<HistoryCell>) -> Seq<Seq<char>> {
    cells.map_values(|c: HistoryCell| c.message())
}

impl CompletionNotices {
    /// Polls the profiles: each completion not yet seen for its profile is
    /// recorded, and those finished since this process started are
    /// announced, in order.
    pub fn poll(&mut self, reports: &Vec<ProfileCompletion>) -> (res: Vec<HistoryCell>)
        requires
            old(self).wf(),
        ensures
            final(self).wf(),
            final(self).spec_started_at() == old(self).spec_started_at(),
            final(self).view_seen() == spec_poll(old(self).view_seen(), old(self).spec_started_at(), reports@).0,
            notice_texts(res@) == spec_poll(old(self).view_seen(), old(self).spec_started_at(), reports@).1,
            forall|i: int| 0 <= i < res@.len() ==> (#[trigger] res@[i]) is Info,
    {
        let mut out: Vec<HistoryCell> = Vec::new();
        let mut i: usize = 0;
        while i < reports.len()
            invariant
                i <= reports@.len(),
                self.wf(),
                self.spec_started_at() == old(self).spec_started_at(),
                self.view_seen() == spec_poll(old(self).view_seen(), old(self).spec_started_at(), reports@.take(i as int)).0,
                notice_texts(out@) == spec_poll(old(self).view_seen(), old(self).spec_started_at(), reports@.take(i as int)).1,
                forall|k: int| 0 <= k < out@.len() ==> (#[trigger] out@[k]) is Info,
            decreases reports@.len() - i,
        {
            proof {
                assert(reports@.take(i + 1).drop_last() =~= reports@.take(i as int));
            }
            let r = &reports[i];
            match &r.completion {
                Some((c, at)) => {
                    let announce = self.observe(r.profile.as_str(), c.as_str(), *at);
                    if announce {
                        let ghost before = out@;
                        out.push(notice_cell(r.label.as_str()));
                        proof {
                            assert(notice_texts(out@) =~= notice_texts(before).push(notice_text(r.label@)));
                        }
                    }
                },
                None => {},
            }
            i = i + 1;
        }
        assert(reports@.take(reports@.len() as int) =~= reports@);
        out
    }
}

/// Whether a reported completion is announced, given the completions
/// already seen per profile and when this process started.
pub open spec fn spec_announces(
    seen: Map<Seq<char>, Seq<char>>,
    profile: Seq<char>,
    completion: Seq<char>,
    completed_at: i64,
    started_at: i64,
) -> bool {
    !(seen.dom().contains(profile) && seen[profile] == completion) && completed_at >= started_at
}

/// A completion is announced at most once: once `observe` has recorded a
/// completion for a profile, reporting it again announces nothing.
pub proof fn lemma_completion_announced_once(
    seen: Map<Seq<char>, Seq<char>>,
    profile: Seq<char>,
    completion: Seq<char>,
    completed_at: i64,
    started_at: i64,
)
    ensures
        !spec_announces(seen.insert(profile, completion), profile, completion, completed_at, started_at),
{
}

} // verus!
