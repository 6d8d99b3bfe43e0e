//! Choosing an imported account at startup: when the picker may run, which
//! accounts it offers, which one it proposes, and what its answer means.

use vstd::prelude::*;
use crate::account_picker::AccountPickerCandidate;
use crate::account_picker::StartupAccountPickerMode;
use crate::account_picker::StartupAccountPickerSelection;
use crate::account_picker::is_recommended;
use crate::account_picker::picked;
use crate::account_picker::recommended_among;
use crate::account_picker::recommended_candidate_index;
use crate::account_usage::AccountUsage;
use crate::settings::AutomaticAccountSelection;
use crate::text::str_eq;
use crate::timestamps::format_reset_timestamp;
use crate::timestamps::utc_reset_label;

verus! {

/// An imported account as the account store offers it.
#[derive(Clone, Debug, PartialEq, Eq)]
pub struct AccountCandidate {
    pub id: String,
    pub display_label: String,
    pub priority: i64,
    pub enabled: bool,
    pub automation_enabled: bool,
    pub usage_limit_resets_at: Option<i64>,
    pub blocked: bool,
}

/// How startup goes on after the picker.
#[derive(Clone, Debug, PartialEq, Eq)]
pub enum StartupAccountSelection {
    Continue { selected_account_id: Option<String>, reload_cloud_config: bool },
    Exit,
}

/// The error when an account was required but none can be chosen.
#[derive(Clone, Debug, PartialEq, Eq)]
pub struct NoEligibleAccount {
    pub message: String,
}

impl NoEligibleAccount {
    /// The error's text.
    pub fn to_string(&self) -> (res: String)
        ensures
            res@ == self.message@,
    {
        self.message.clone()
    }
}

/// Starting without choosing an account: fine, unless `--auto-account`
/// asked for one.
pub fn continue_without_account(auto_account: bool) -> (res: Result<StartupAccountSelection, NoEligibleAccount>)
    ensures
        !auto_account ==> res == Ok::<StartupAccountSelection, NoEligibleAccount>(
            StartupAccountSelection::Continue { selected_account_id: None, reload_cloud_config: false },
        ),
        auto_account ==> (res matches Err(e) && e.message@ == "no eligible account is available for --auto-account"@),
{
    if auto_account {
        Err(NoEligibleAccount { message: "no eligible account is available for --auto-account".to_string() })
    } else {
        Ok(StartupAccountSelection::Continue { selected_account_id: None, reload_cloud_config: false })
    }
}

/// How the root credentials authenticate.
#[derive(Clone, Copy, Debug, PartialEq, Eq, Structural)]
pub enum AuthMode {
    Chatgpt,
    ChatgptAuthTokens,
    ApiKey,
    Headers,
    AgentIdentity,
    PersonalAccessToken,
    BedrockApiKey,
}

/// What the root credentials hold, as far as the picker cares.
#[derive(Clone, Copy, Debug, PartialEq, Eq, Structural)]
pub struct RootAuth {
    pub auth_mode: Option<AuthMode>,
    /// Whether the stored tokens carry an empty refresh token; `None` without tokens.
    pub refresh_token_empty: Option<bool>,
    pub has_api_key: bool,
    pub has_personal_access_token: bool,
    pub has_bedrock_credentials: bool,
    pub has_agent_identity: bool,
}

/// Reading the root credentials.
#[derive(Clone, Copy, Debug, PartialEq, Eq, Structural)]
pub enum RootAuthRead {
    Unreadable,
    Missing,
    Found(RootAuth),
}

/// Whether the root credentials leave room for an imported account: none
/// at all; ChatGPT sign-in when automatic selection is on or the root only
/// marks an imported account (empty refresh token); a mode-less file
/// without other credentials under the same condition (no tokens also
/// counting as a marker). Other modes and unreadable credentials keep the
/// picker away.
pub open spec fn spec_root_auth_allows(root: RootAuthRead, automatic: AutomaticAccountSelection) -> bool {
    let auto_on = automatic == AutomaticAccountSelection::Enabled;
    match root {
        RootAuthRead::Unreadable => false,
        RootAuthRead::Missing => true,
        RootAuthRead::Found(auth) => match auth.auth_mode {
            Some(AuthMode::Chatgpt) | Some(AuthMode::ChatgptAuthTokens) => auto_on || auth.refresh_token_empty == Some(true),
            Some(_) => false,
            None => !auth.has_api_key && !auth.has_personal_access_token && !auth.has_bedrock_credentials
                && !auth.has_agent_identity && (auto_on || auth.refresh_token_empty != Some(false)),
        },
    }
}

/// Whether the root credentials leave room for an imported account.
pub fn root_auth_allows_imported_account_picker(root: &RootAuthRead, automatic: AutomaticAccountSelection) -> (res: bool)
    ensures
        res == spec_root_auth_allows(*root, automatic),
{
    let auto_on = automatic == AutomaticAccountSelection::Enabled;
    match root {
        RootAuthRead::Unreadable => false,
        RootAuthRead::Missing => true,
        RootAuthRead::Found(auth) => match auth.auth_mode {
            Some(AuthMode::Chatgpt) | Some(AuthMode::ChatgptAuthTokens) => auto_on || auth.refresh_token_empty == Some(true),
            Some(_) => false,
            None => !auth.has_api_key && !auth.has_personal_access_token && !auth.has_bedrock_credentials
                && !auth.has_agent_identity && (auto_on || auth.refresh_token_empty != Some(false)),
        },
    }
}

/// Whether the picker may run at all: the app server supports it, the
/// provider needs OpenAI sign-in, API-key login is not forced, and the
/// root credentials leave room for an imported account.
pub fn startup_picker_may_run(
    server_supports_picker: bool,
    requires_openai_auth: bool,
    forced_api_login: bool,
    root: &RootAuthRead,
    automatic: AutomaticAccountSelection,
) -> (res: bool)
    ensures
        res == (server_supports_picker && requires_openai_auth && !forced_api_login
            && spec_root_auth_allows(*root, automatic)),
{
    server_supports_picker && requires_openai_auth && !forced_api_login
        && root_auth_allows_imported_account_picker(root, automatic)
}

/// The current account may be offered though it needs a login only when
/// automatic selection is off and the root credentials merely mark it.
pub fn offers_login_required_current(automatic: AutomaticAccountSelection, root_auth_is_marker: bool) -> (res: bool)
    ensures
        res == (automatic == AutomaticAccountSelection::Disabled && root_auth_is_marker),
{
    automatic == AutomaticAccountSelection::Disabled && root_auth_is_marker
}

fn copy_candidate(c: &AccountCandidate) -> (res: AccountCandidate)
    ensures
        res == *c,
{
    AccountCandidate {
        id: c.id.clone(),
        display_label: c.display_label.clone(),
        priority: c.priority,
        enabled: c.enabled,
        automation_enabled: c.automation_enabled,
        usage_limit_resets_at: c.usage_limit_resets_at,
        blocked: c.blocked,
    }
}

/// `ids` holds `id`.
pub open spec fn has_id(ids: Seq<String>, id: Seq<char>) -> bool {
    exists|k: int| 0 <= k < ids.len() && (#[trigger] ids[k])@ == id
}

fn contains_id(ids: &Vec<String>, id: &str) -> (res: bool)
    ensures
        res == has_id(ids@, id@),
{
    let mut i: usize = 0;
    while i < ids.len()
        invariant
            i <= ids@.len(),
            forall|k: int| 0 <= k < i ==> (#[trigger] ids@[k])@ != id@,
        decreases ids@.len() - i,
    {
        if str_eq(ids[i].as_str(), id) {
            return true;
        }
        i = i + 1;
    }
    false
}

/// The candidates that `keep` keeps, in order.
pub open spec fn kept(cands: Seq<AccountCandidate>, keep: spec_fn(AccountCandidate) -> bool) -> Seq<AccountCandidate>
    decreases cands.len(),
{
    if cands.len() == 0 {
        Seq::empty()
    } else {
        let rest = kept(cands.drop_last(), keep);
        if keep(cands.last()) { rest.push(cands.last()) } else { rest }
    }
}

/// A candidate is offered when it is enabled and has a usable home.
pub open spec fn is_selectable(selectable_ids: Seq<String>) -> spec_fn(AccountCandidate) -> bool {
    |c: AccountCandidate| c.enabled && has_id(selectable_ids, c.id@)
}

/// The enabled candidates among the selectable accounts, in the store's order.
pub fn selectable_candidates(candidates: Vec<AccountCandidate>, selectable_ids: &Vec<String>) -> (res: Vec<AccountCandidate>)
    ensures
        res@ == kept(candidates@, is_selectable(selectable_ids@)),
{
    let ghost keep = is_selectable(selectable_ids@);
    let mut out: Vec<AccountCandidate> = Vec::new();
    let mut i: usize = 0;
    while i < candidates.len()
        invariant
            i <= candidates@.len(),
            keep == is_selectable(selectable_ids@),
            out@ == kept(candidates@.take(i as int), keep),
        decreases candidates@.len() - i,
    {
        proof {
            assert(candidates@.take(i + 1).drop_last() =~= candidates@.take(i as int));
        }
        let c = &candidates[i];
        if c.enabled && contains_id(selectable_ids, c.id.as_str()) {
            out.push(copy_candidate(c));
        }
        i = i + 1;
    }
    assert(candidates@.take(candidates@.len() as int) =~= candidates@);
    out
}

/// A candidate survives the login checks unless it was found to need a
/// login, with one exception: `exempt`, the current account when the root
/// credentials merely mark it and automatic selection is off.
pub open spec fn survives_login_checks(login_required: Seq<String>, exempt: Option<Seq<char>>) -> spec_fn(AccountCandidate) -> bool {
    |c: AccountCandidate| !has_id(login_required, c.id@) || exempt == Some(c.id@)
}

/// The candidates left after the login checks, in order.
pub fn retain_after_login_checks(
    candidates: Vec<AccountCandidate>,
    login_required: &Vec<String>,
    exempt: Option<&str>,
) -> (res: Vec<AccountCandidate>)
    ensures
        res@ == kept(candidates@, survives_login_checks(login_required@, match exempt {
            Some(e) => Some(e@),
            None => None,
        })),
{
    let ghost keep = survives_login_checks(login_required@, match exempt { Some(e) => Some(e@), None => None });
    let mut out: Vec<AccountCandidate> = Vec::new();
    let mut i: usize = 0;
    while i < candidates.len()
        invariant
            i <= candidates@.len(),
            keep == survives_login_checks(login_required@, match exempt { Some(e) => Some(e@), None => None }),
            out@ == kept(candidates@.take(i as int), keep),
        decreases candidates@.len() - i,
    {
        proof {
            assert(candidates@.take(i + 1).drop_last() =~= candidates@.take(i as int));
        }
        let c = &candidates[i];
        let is_exempt = match exempt {
            Some(e) => str_eq(e, c.id.as_str()),
            None => false,
        };
        if is_exempt || !contains_id(login_required, c.id.as_str()) {
            out.push(copy_candidate(c));
        }
        i = i + 1;
    }
    assert(candidates@.take(candidates@.len() as int) =~= candidates@);
    out
}

/// The label `chrono` renders for an optional timestamp.
pub open spec fn reset_label(timestamp: Option<i64>) -> Option<Seq<char>> {
    match timestamp {
        Some(t) => utc_reset_label(t),
        None => None,
    }
}

/// The text of an optional string.
pub open spec fn opt_text(s: Option<String>) -> Option<Seq<char>> {
    match s {
        Some(v) => Some(v@),
        None => None,
    }
}

fn reset_text(timestamp: Option<i64>) -> (res: Option<String>)
    ensures
        opt_text(res) == reset_label(timestamp),
{
    match timestamp {
        Some(t) => format_reset_timestamp(t),
        None => None,
    }
}

/// The picker's row for a candidate: its usage windows when usage is known,
/// and, without usage, how long a blocked account stays unavailable.
pub fn account_picker_candidate(
    candidate: &AccountCandidate,
    usage: Option<AccountUsage>,
    in_use: bool,
    is_current: bool,
    primary_window_label: String,
) -> (res: AccountPickerCandidate)
    ensures
        res.id@ == candidate.id@,
        res.email@ == candidate.display_label@,
        res.primary_window_label@ == primary_window_label@,
        opt_text(res.five_hour_reset) == reset_label(match usage { Some(u) => u.five_hour_reset_at, None => None }),
        res.five_hour_usage_left_percent == match usage { Some(u) => u.five_hour_remaining_percent, None => None },
        res.five_hour_exhausted == (usage matches Some(u) && u.five_hour_exhausted),
        opt_text(res.weekly_reset) == reset_label(match usage { Some(u) => u.weekly_reset_at, None => None }),
        res.weekly_usage_left_percent == match usage { Some(u) => u.weekly_remaining_percent, None => None },
        res.weekly_exhausted == (usage matches Some(u) && u.weekly_exhausted),
        opt_text(res.blocked_until) == if usage.is_none() && candidate.blocked {
            reset_label(candidate.usage_limit_resets_at)
        } else {
            None
        },
        res.blocked == candidate.blocked,
        res.in_use == in_use,
        res.is_current == is_current,
        !res.is_default,
{
    let (five_reset, five_left, five_exhausted, weekly_reset, weekly_left, weekly_exhausted) = match usage {
        Some(u) => (
            u.five_hour_reset_at,
            u.five_hour_remaining_percent,
            u.five_hour_exhausted,
            u.weekly_reset_at,
            u.weekly_remaining_percent,
            u.weekly_exhausted,
        ),
        None => (None, None, false, None, None, false),
    };
    let blocked_at = if usage.is_none() && candidate.blocked { candidate.usage_limit_resets_at } else { None };
    AccountPickerCandidate {
        id: candidate.id.clone(),
        email: candidate.display_label.clone(),
        primary_window_label,
        five_hour_reset: reset_text(five_reset),
        five_hour_usage_left_percent: five_left,
        five_hour_exhausted: five_exhausted,
        weekly_reset: reset_text(weekly_reset),
        weekly_usage_left_percent: weekly_left,
        weekly_exhausted: weekly_exhausted,
        blocked_until: reset_text(blocked_at),
        blocked: candidate.blocked,
        in_use,
        is_current,
        is_default: false,
    }
}

/// The indices of the candidates that automatic selection may choose.
pub open spec fn automation_indices(cands: Seq<AccountCandidate>) -> Seq<usize>
    decreases cands.len(),
{
    if cands.len() == 0 {
        Seq::empty()
    } else {
        let rest = automation_indices(cands.drop_last());
        if cands.last().automation_enabled { rest.push((cands.len() - 1) as usize) } else { rest }
    }
}

/// The account a timed picker proposes: the one it recommends among the
/// accounts with automation enabled; `None` when no account has it.
pub fn automatic_default_index(
    candidates: &Vec<AccountCandidate>,
    picker_candidates: &Vec<AccountPickerCandidate>,
) -> (res: Option<usize>)
    requires
        candidates@.len() <= picker_candidates@.len(),
    ensures
        ({
            let idx = automation_indices(candidates@);
            match res {
                None => idx.len() == 0,
                Some(r) => exists|k: int| is_recommended(picked(picker_candidates@, idx), k) && r == idx[k],
            }
        }),
{
    let mut idx: Vec<usize> = Vec::new();
    let mut i: usize = 0;
    while i < candidates.len()
        invariant
            i <= candidates@.len(),
            candidates@.len() <= picker_candidates@.len(),
            idx@ == automation_indices(candidates@.take(i as int)),
            forall|k: int| 0 <= k < idx@.len() ==> (#[trigger] idx@[k]) < i,
        decreases candidates@.len() - i,
    {
        proof {
            assert(candidates@.take(i + 1).drop_last() =~= candidates@.take(i as int));
        }
        if candidates[i].automation_enabled {
            idx.push(i);
        }
        i = i + 1;
    }
    assert(candidates@.take(candidates@.len() as int) =~= candidates@);
    if idx.len() == 0 {
        return None;
    }
    let k = recommended_among(picker_candidates, &idx);
    Some(idx[k])
}

/// The account the picker proposes and how: a countdown to the automatic
/// choice when automatic selection is on and has one, else the recommended
/// account and a picker that waits.
pub fn picker_default(
    automatic: AutomaticAccountSelection,
    candidates: &Vec<AccountCandidate>,
    picker_candidates: &Vec<AccountPickerCandidate>,
) -> (res: (usize, StartupAccountPickerMode))
    requires
        candidates@.len() <= picker_candidates@.len(),
    ensures
        ({
            let idx = automation_indices(candidates@);
            if automatic == AutomaticAccountSelection::Enabled && idx.len() > 0 {
                res.1 == StartupAccountPickerMode::Timed
                    && exists|k: int| is_recommended(picked(picker_candidates@, idx), k) && res.0 == idx[k]
            } else {
                &&& res.1 == StartupAccountPickerMode::Manual
                &&& picker_candidates@.len() == 0 ==> res.0 == 0
                &&& picker_candidates@.len() > 0 ==> is_recommended(picker_candidates@, res.0 as int)
            }
        }),
{
    let automatic_idx = automatic_default_index(candidates, picker_candidates);
    match (automatic, automatic_idx) {
        (AutomaticAccountSelection::Enabled, Some(i)) => (i, StartupAccountPickerMode::Timed),
        _ => (recommended_candidate_index(picker_candidates), StartupAccountPickerMode::Manual),
    }
}

/// `cands` holds an account with this id.
pub open spec fn has_candidate(cands: Seq<AccountCandidate>, id: Seq<char>) -> bool {
    exists|k: int| 0 <= k < cands.len() && (#[trigger] cands[k]).id@ == id
}

/// What the picker's answer means: leaving the picker exits; choosing an
/// account continues with it (when it is among the candidates) and reloads
/// the cloud configuration.
pub fn startup_outcome(
    candidates: &Vec<AccountCandidate>,
    selection: Option<StartupAccountPickerSelection>,
) -> (res: StartupAccountSelection)
    ensures
        match selection {
            None => res == StartupAccountSelection::Exit,
            Some(sel) => {
                let id = match sel {
                    StartupAccountPickerSelection::Automatic(a) => a@,
                    StartupAccountPickerSelection::User(a) => a@,
                };
                res matches StartupAccountSelection::Continue { selected_account_id, reload_cloud_config }
                    && reload_cloud_config
                    && match selected_account_id {
                        Some(s) => s@ == id && has_candidate(candidates@, id),
                        None => !has_candidate(candidates@, id),
                    }
            },
        },
{
    match selection {
        None => StartupAccountSelection::Exit,
        Some(StartupAccountPickerSelection::Automatic(a)) => StartupAccountSelection::Continue {
            selected_account_id: find_candidate(candidates, a.as_str()),
            reload_cloud_config: true,
        },
        Some(StartupAccountPickerSelection::User(a)) => StartupAccountSelection::Continue {
            selected_account_id: find_candidate(candidates, a.as_str()),
            reload_cloud_config: true,
        },
    }
}

fn find_candidate(candidates: &Vec<AccountCandidate>, id: &str) -> (res: Option<String>)
    ensures
        match res {
            Some(s) => s@ == id@ && has_candidate(candidates@, id@),
            None => !has_candidate(candidates@, id@),
        },
{
    let mut i: usize = 0;
    while i < candidates.len()
        invariant
            i <= candidates@.len(),
            forall|k: int| 0 <= k < i ==> (#[trigger] candidates@[k]).id@ != id@,
        decreases candidates@.len() - i,
    {
        if str_eq(candidates[i].id.as_str(), id) {
            assert(candidates@[i as int].id@ == id@);
            return Some(candidates[i].id.clone());
        }
        i = i + 1;
    }
    None
}

/// Automatic selection only ever proposes accounts that allow it: every
/// index it chooses from names a candidate with automation enabled.
pub proof fn lemma_automatic_choices_allow_automation(cands: Seq<AccountCandidate>)
    requires
        cands.len() <= usize::MAX,
    ensures
        forall|k: int| 0 <= k < automation_indices(cands).len() ==> {
            &&& (#[trigger] automation_indices(cands)[k]) < cands.len()
            &&& cands[automation_indices(cands)[k] as int].automation_enabled
        },
    decreases cands.len(),
{
    if cands.len() > 0 {
        let rest = cands.drop_last();
        lemma_automatic_choices_allow_automation(rest);
        assert forall|k: int| 0 <= k < automation_indices(rest).len() implies
            cands[automation_indices(rest)[k] as int] == rest[automation_indices(rest)[k] as int] by {}
    }
}

} // verus!
