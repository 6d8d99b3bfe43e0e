//! Per-account automation settings in `/accounts`: which imported accounts
//! Codex++ may choose by itself.

use vstd::prelude::*;
use crate::history::HistoryCell;
use crate::selection::ItemAction;
use crate::selection::SelectionItem;
use crate::selection::SelectionViewParams;
use crate::selection::Toggle;
use crate::selection::ToggleTarget;
use crate::settings::settings_hint_line;
use crate::settings::ListKeymap;
use crate::text::decimal;
use crate::text::right_aligned;
use crate::text::right_aligned_decimal;
use crate::weekly_window_scheduler::WeeklyWindowStatus;

verus! {

/// `parts` joined with `sep` between them.
pub open spec fn joined_with(parts: Seq<Seq<char>>, sep: Seq<char>) -> Seq<char>
    decreases parts.len(),
{
    if parts.len() == 0 {
        Seq::empty()
    } else if parts.len() == 1 {
        parts[0]
    } else {
        joined_with(parts.drop_last(), sep) + sep + parts.last()
    }
}

fn join_with(parts: &Vec<String>, sep: &str) -> (res: String)
    ensures
        res@ == joined_with(parts@.map_values(|p: String| p@), sep@),
{
    let ghost views = parts@.map_values(|p: String| p@);
    let mut out = String::new();
    let mut i: usize = 0;
    while i < parts.len()
        invariant
            i <= parts@.len(),
            views == parts@.map_values(|p: String| p@),
            out@ == joined_with(views.take(i as int), sep@),
        decreases parts@.len() - i,
    {
        if i > 0 {
            out.append(sep);
        }
        out.append(parts[i].as_str());
        proof {
            assert(views.take(i + 1).drop_last() =~= views.take(i as int));
            if i == 0 {
                assert(views.take(1) =~= seq![views[0]]);
            }
        }
        i = i + 1;
    }
    assert(views.take(parts@.len() as int) =~= views);
    out
}

/// The weekly window of an account: its usage left when known, and its state.
pub open spec fn spec_weekly_status_text(percent: Option<u8>, status: Seq<char>) -> Seq<char> {
    match percent {
        Some(p) => "Weekly "@ + right_aligned(decimal(p as nat), 3) + "% \u{b7} "@ + status,
        None => "Weekly \u{b7} "@ + status,
    }
}

/// The weekly window of an account: its usage left when known, and its state.
pub fn weekly_status_text(percent: Option<u8>, status: &str) -> (res: String)
    ensures
        res@ == spec_weekly_status_text(percent, status@),
{
    match percent {
        Some(p) => {
            let mut out = String::from_str("Weekly ");
            let digits = right_aligned_decimal(p as u64, 3);
            out.append(digits.as_str());
            out.append("% \u{b7} ");
            out.append(status);
            out
        },
        None => {
            let mut out = String::from_str("Weekly \u{b7} ");
            out.append(status);
            out
        },
    }
}

/// The text of a weekly-window state.
pub open spec fn weekly_state_text(status: WeeklyWindowStatus) -> Seq<char> {
    match status {
        WeeklyWindowStatus::Waiting(p) => spec_weekly_status_text(p, "Waiting"@),
        WeeklyWindowStatus::Started(p) => spec_weekly_status_text(p, "Started"@),
        WeeklyWindowStatus::Retrying(p) => spec_weekly_status_text(p, "Retrying"@),
        WeeklyWindowStatus::SignInRequired => "Sign-in required"@,
        WeeklyWindowStatus::Failed => "Weekly \u{b7} Unavailable"@,
    }
}

/// The facts shown about an account, in order.
pub open spec fn status_parts(
    enabled: bool,
    login_required: bool,
    in_use: bool,
    weekly_status: Option<WeeklyWindowStatus>,
) -> Seq<Seq<char>> {
    (if !enabled { seq!["Account disabled"@] } else { Seq::empty() })
        + (if login_required { seq!["Login required"@] } else { Seq::empty() })
        + (if in_use { seq!["In use"@] } else { Seq::empty() })
        + match weekly_status {
        Some(s) => seq![weekly_state_text(s)],
        None => Seq::empty(),
    }
}

/// The description of an account row: a disabled account, a required
/// login, use by another session and the weekly window, joined by " · ";
/// `None` when there is nothing to say.
pub fn account_status(
    enabled: bool,
    login_required: bool,
    in_use: bool,
    weekly_status: Option<WeeklyWindowStatus>,
) -> (res: Option<String>)
    ensures
        ({
            let parts = status_parts(enabled, login_required, in_use, weekly_status);
            match res {
                Some(s) => parts.len() > 0 && s@ == joined_with(parts, " \u{b7} "@),
                None => parts.len() == 0,
            }
        }),
{
    let mut parts: Vec<String> = Vec::new();
    let ghost mut expected: Seq<Seq<char>> = Seq::empty();
    if !enabled {
        parts.push("Account disabled".to_string());
        proof { expected = expected.push("Account disabled"@); }
    }
    if login_required {
        parts.push("Login required".to_string());
        proof { expected = expected.push("Login required"@); }
    }
    if in_use {
        parts.push("In use".to_string());
        proof { expected = expected.push("In use"@); }
    }
    match weekly_status {
        Some(status) => {
            let text = match status {
                WeeklyWindowStatus::Waiting(p) => weekly_status_text(p, "Waiting"),
                WeeklyWindowStatus::Started(p) => weekly_status_text(p, "Started"),
                WeeklyWindowStatus::Retrying(p) => weekly_status_text(p, "Retrying"),
                WeeklyWindowStatus::SignInRequired => "Sign-in required".to_string(),
                WeeklyWindowStatus::Failed => "Weekly \u{b7} Unavailable".to_string(),
            };
            parts.push(text);
            proof { expected = expected.push(weekly_state_text(status)); }
        },
        None => {},
    }
    proof {
        assert(expected =~= status_parts(enabled, login_required, in_use, weekly_status));
        assert(parts@.map_values(|p: String| p@) =~= expected);
    }
    if parts.len() == 0 {
        None
    } else {
        Some(join_with(&parts, " \u{b7} "))
    }
}

/// An imported account as the automation view lists it.
#[derive(Clone, Debug, PartialEq, Eq)]
pub struct AccountAutomationRow {
    pub id: String,
    pub label: String,
    pub enabled: bool,
    pub automation_enabled: bool,
    pub login_required: bool,
    pub is_current: bool,
    pub in_use: bool,
    pub weekly_status: Option<WeeklyWindowStatus>,
}

/// The description an account row shows.
pub open spec fn row_status(row: AccountAutomationRow) -> Option<Seq<char>> {
    let parts = status_parts(row.enabled, row.login_required, row.in_use, row.weekly_status);
    if parts.len() == 0 { None } else { Some(joined_with(parts, " \u{b7} "@)) }
}

/// `res` is the automation view of these accounts, with `hint` under it.
pub open spec fn accounts_view(res: SelectionViewParams, rows: Seq<AccountAutomationRow>, hint: Seq<char>) -> bool {
    &&& res.title matches Some(t) && t@ == "Account Automation"@
    &&& res.subtitle matches Some(s) && s@ == "Select the accounts Codex++ may choose automatically."@
    &&& res.footer_hint matches Some(h) && h@ == hint
    &&& res.items@.len() == rows.len()
    &&& forall|i: int| 0 <= i < rows.len() ==> {
        let item = #[trigger] res.items@[i];
        &&& item.name@ == rows[i].label@
        &&& match item.description {
            Some(d) => row_status(rows[i]) == Some(d@),
            None => row_status(rows[i]).is_none(),
        }
        &&& item.is_current == rows[i].is_current
        &&& item.toggle == Some(Toggle {
            is_on: rows[i].automation_enabled,
            target: ToggleTarget::AccountAutomation(i as usize),
        })
        &&& item.action == Some(ItemAction::SaveAccountAutomation)
        &&& item.dismiss_on_select
        &&& !item.is_disabled && !item.is_default
    }
    &&& res.view_id.is_none()
    &&& res.allow_cancel
}

/// The automation view: one row per account, in order, toggled where
/// Codex++ may choose it; choosing any row saves the toggles that changed.
/// The hint under it names the keys of `keys`.
pub fn accounts_settings_params(rows: &Vec<AccountAutomationRow>, keys: &ListKeymap) -> (res: SelectionViewParams)
    ensures
        accounts_view(res, rows@, keys.spec_hint()),
{
    let mut items: Vec<SelectionItem> = Vec::new();
    let mut i: usize = 0;
    while i < rows.len()
        invariant
            i <= rows@.len(),
            items@.len() == i,
            forall|k: int| 0 <= k < i ==> {
                let item = #[trigger] items@[k];
                &&& item.name@ == rows@[k].label@
                &&& match item.description {
                    Some(d) => row_status(rows@[k]) == Some(d@),
                    None => row_status(rows@[k]).is_none(),
                }
                &&& item.is_current == rows@[k].is_current
                &&& item.toggle == Some(Toggle {
                    is_on: rows@[k].automation_enabled,
                    target: ToggleTarget::AccountAutomation(k as usize),
                })
                &&& item.action == Some(ItemAction::SaveAccountAutomation)
                &&& item.dismiss_on_select
                &&& !item.is_disabled && !item.is_default
            },
        decreases rows@.len() - i,
    {
        let row = &rows[i];
        let mut item = SelectionItem::named(row.label.clone());
        item.description = account_status(row.enabled, row.login_required, row.in_use, row.weekly_status);
        item.is_current = row.is_current;
        item.toggle = Some(Toggle { is_on: row.automation_enabled, target: ToggleTarget::AccountAutomation(i) });
        item.action = Some(ItemAction::SaveAccountAutomation);
        item.dismiss_on_select = true;
        items.push(item);
        i = i + 1;
    }
    let mut params = SelectionViewParams::titled("Account Automation".to_string(), items);
    params.subtitle = Some("Select the accounts Codex++ may choose automatically.".to_string());
    params.footer_hint = Some(settings_hint_line(&keys.accept, &keys.cancel));
    params
}

/// The staged automation choice for one account.
#[derive(Clone, Debug, PartialEq, Eq)]
pub struct AccountAutomationChoice {
    pub id: String,
    pub initial_automation_enabled: bool,
    pub automation_enabled: bool,
}

/// The choices the view starts with: each account as it is.
pub fn automation_choices(rows: &Vec<AccountAutomationRow>) -> (res: Vec<AccountAutomationChoice>)
    ensures
        res@.len() == rows@.len(),
        forall|i: int| 0 <= i < rows@.len() ==> {
            &&& (#[trigger] res@[i]).id@ == rows@[i].id@
            &&& res@[i].initial_automation_enabled == rows@[i].automation_enabled
            &&& res@[i].automation_enabled == rows@[i].automation_enabled
        },
{
    let mut out: Vec<AccountAutomationChoice> = Vec::new();
    let mut i: usize = 0;
    while i < rows.len()
        invariant
            i <= rows@.len(),
            out@.len() == i,
            forall|k: int| 0 <= k < i ==> {
                &&& (#[trigger] out@[k]).id@ == rows@[k].id@
                &&& out@[k].initial_automation_enabled == rows@[k].automation_enabled
                &&& out@[k].automation_enabled == rows@[k].automation_enabled
            },
        decreases rows@.len() - i,
    {
        out.push(AccountAutomationChoice {
            id: rows[i].id.clone(),
            initial_automation_enabled: rows[i].automation_enabled,
            automation_enabled: rows[i].automation_enabled,
        });
        i = i + 1;
    }
    out
}

/// The accounts whose setting changed, in order.
pub open spec fn changed_choices(choices: Seq<AccountAutomationChoice>) -> Seq<AccountAutomationChoice>
    decreases choices.len(),
{
    if choices.len() == 0 {
        Seq::empty()
    } else {
        let rest = changed_choices(choices.drop_last());
        let c = choices.last();
        if c.automation_enabled != c.initial_automation_enabled { rest.push(c) } else { rest }
    }
}

/// The settings to write when the view is saved: only the accounts whose
/// toggle differs from how they started, each with its new value.
pub fn automation_changes(choices: &Vec<AccountAutomationChoice>) -> (res: Vec<(String, bool)>)
    ensures
        res@.len() == changed_choices(choices@).len(),
        forall|i: int| 0 <= i < res@.len() ==> {
            &&& (#[trigger] res@[i]).0@ == changed_choices(choices@)[i].id@
            &&& res@[i].1 == changed_choices(choices@)[i].automation_enabled
        },
{
    let mut out: Vec<(String, bool)> = Vec::new();
    let mut i: usize = 0;
    while i < choices.len()
        invariant
            i <= choices@.len(),
            out@.len() == changed_choices(choices@.take(i as int)).len(),
            forall|k: int| 0 <= k < out@.len() ==> {
                &&& (#[trigger] out@[k]).0@ == changed_choices(choices@.take(i as int))[k].id@
                &&& out@[k].1 == changed_choices(choices@.take(i as int))[k].automation_enabled
            },
        decreases choices@.len() - i,
    {
        proof {
            assert(choices@.take(i + 1).drop_last() =~= choices@.take(i as int));
        }
        let c = &choices[i];
        if c.automation_enabled != c.initial_automation_enabled {
            out.push((c.id.clone(), c.automation_enabled));
        }
        i = i + 1;
    }
    assert(choices@.take(choices@.len() as int) =~= choices@);
    out
}

/// The message when not every change could be saved.
pub fn save_error_message() -> (res: String)
    ensures
        res@ == "Could not update all account automation settings. Reopen /accounts to view saved settings."@,
{
    "Could not update all account automation settings. Reopen /accounts to view saved settings.".to_string()
}

/// The report of a save: an update notice, or the error when an account
/// could not be written or had disappeared.
pub fn automation_saved_cell(saved: bool) -> (res: HistoryCell)
    ensures
        saved ==> res == (HistoryCell::Info { message: res->Info_message, hint: None })
            && res.message() == "Account automation settings updated."@,
        !saved ==> res is Error && res.message()
            == "Could not update all account automation settings. Reopen /accounts to view saved settings."@,
{
    if saved {
        HistoryCell::Info { message: "Account automation settings updated.".to_string(), hint: None }
    } else {
        HistoryCell::Error { message: save_error_message() }
    }
}

/// Saving writes nothing for accounts whose toggle is as it started, and
/// writes every account whose toggle changed.
pub proof fn lemma_only_changed_accounts_are_written(choices: Seq<AccountAutomationChoice>)
    ensures
        (forall|i: int| 0 <= i < choices.len() ==> (#[trigger] choices[i]).automation_enabled == choices[i].initial_automation_enabled)
            ==> changed_choices(choices).len() == 0,
        forall|i: int| 0 <= i < changed_choices(choices).len() ==> (#[trigger] changed_choices(choices)[i]).automation_enabled
            != changed_choices(choices)[i].initial_automation_enabled,
    decreases choices.len(),
{
    if choices.len() > 0 {
        let rest = choices.drop_last();
        lemma_only_changed_accounts_are_written(rest);
        assert forall|i: int| 0 <= i < rest.len() implies (#[trigger] rest[i]) == choices[i] by {}
        let prior = changed_choices(rest);
        let c = choices.last();
        if c.automation_enabled != c.initial_automation_enabled {
            assert forall|i: int| 0 <= i < prior.push(c).len() implies (#[trigger] prior.push(c)[i]).automation_enabled
                != prior.push(c)[i].initial_automation_enabled by {
                if i < prior.len() {
                    assert(prior.push(c)[i] == prior[i]);
                }
            }
        }
    }
}

} // verus!

verus! {

/// What saving the account automation does next.
#[derive(Clone, Copy, Debug, PartialEq, Eq, Structural)]
pub enum AutomationSaveStep {
    /// Write the change at this index of the changes.
    Write(usize),
    /// Stop: whether every change was written.
    Finish(bool),
}

/// The write reported that the account was found and updated.
pub open spec fn write_succeeded(result: Result<bool, String>) -> bool {
    result == Ok::<bool, String>(true)
}

/// Saving the changes in order, given the results of the writes made so
/// far: a write that failed, or that found the account gone, ends the save
/// as failed; while every write so far succeeded, the next change is
/// written, and once all are written the save succeeded.
pub open spec fn spec_automation_save_step(change_count: nat, results: Seq<Result<bool, String>>) -> AutomationSaveStep {
    if exists|i: int| 0 <= i < results.len() && !write_succeeded(#[trigger] results[i]) {
        AutomationSaveStep::Finish(false)
    } else if results.len() < change_count {
        AutomationSaveStep::Write(results.len() as usize)
    } else {
        AutomationSaveStep::Finish(true)
    }
}

/// The next step of saving `change_count` changes, given the results of
/// the writes made so far; see `spec_automation_save_step`.
pub fn automation_save_step(change_count: usize, results: &Vec<Result<bool, String>>) -> (res: AutomationSaveStep)
    ensures
        res == spec_automation_save_step(change_count as nat, results@),
{
    let mut i: usize = 0;
    while i < results.len()
        invariant
            i <= results@.len(),
            forall|k: int| 0 <= k < i ==> write_succeeded(#[trigger] results@[k]),
        decreases results@.len() - i,
    {
        let ok = match &results[i] {
            Ok(found) => *found,
            Err(_) => false,
        };
        if !ok {
            assert(!write_succeeded(results@[i as int]));
            return AutomationSaveStep::Finish(false);
        }
        i = i + 1;
    }
    if results.len() < change_count {
        AutomationSaveStep::Write(results.len())
    } else {
        AutomationSaveStep::Finish(true)
    }
}

/// Saving stops at the first write that did not succeed, and reports
/// success only once every change was written successfully.
pub proof fn lemma_automation_saved_only_when_every_write_succeeded(change_count: nat, results: Seq<Result<bool, String>>)
    ensures
        spec_automation_save_step(change_count, results) == AutomationSaveStep::Finish(true) ==> results.len() >= change_count
            && forall|i: int| 0 <= i < results.len() ==> write_succeeded(#[trigger] results[i]),
        spec_automation_save_step(change_count, results) is Write ==> results.len() < change_count
            && forall|i: int| 0 <= i < results.len() ==> write_succeeded(#[trigger] results[i]),
        (exists|i: int| 0 <= i < results.len() && !write_succeeded(#[trigger] results[i]))
            ==> spec_automation_save_step(change_count, results) == AutomationSaveStep::Finish(false),
{
}

} // verus!
