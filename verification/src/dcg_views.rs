//! The views through which the user manages the Destructive Command Guard.

use vstd::prelude::*;
use crate::destructive_command_guard::DcgAction;
use crate::destructive_command_guard::DcgStatus;
use crate::destructive_command_guard::DcgUnsupportedReason;
use crate::destructive_command_guard::is_repairable;
use crate::destructive_command_guard::spec_is_repairable;
use crate::selection::ItemAction;
use crate::selection::SelectionItem;
use crate::selection::SelectionViewParams;
use crate::selection::ViewId;

verus! {

/// What the guard does, shown under its rows.
pub open spec fn dcg_description() -> Seq<char> {
    "Review destructive shell commands with Guardian."@
}

fn description() -> (res: String)
    ensures
        res@ == dcg_description(),
{
    "Review destructive shell commands with Guardian.".to_string()
}

/// The state the guard's settings row shows, and the action choosing it
/// takes: install, disable, enable, update, or a safe repair; none for an
/// external installation, an unsafe repair or an unsupported host.
pub open spec fn dcg_state_and_action(status: DcgStatus) -> (Seq<char>, Option<DcgAction>) {
    match status {
        DcgStatus::NotInstalled => ("Not installed"@, Some(DcgAction::InstallAndEnable)),
        DcgStatus::Enabled(v) => ("Enabled \u{b7} "@ + v@, Some(DcgAction::Disable)),
        DcgStatus::Disabled(v) => ("Disabled \u{b7} "@ + v@, Some(DcgAction::Enable)),
        DcgStatus::UpdateAvailable { target_version, .. } => ("Update available \u{b7} "@ + target_version@, Some(DcgAction::Update)),
        DcgStatus::ExternalInstallation(_) => ("External installation"@, None),
        DcgStatus::NeedsRepair(r) => ("Needs repair"@, if spec_is_repairable(r) { Some(DcgAction::Repair(r)) } else { None }),
        DcgStatus::Unsupported(DcgUnsupportedReason::Platform) => ("Unsupported on this platform"@, None),
        DcgStatus::Unsupported(DcgUnsupportedReason::RemoteHookHost) => ("Manage on the shell host"@, None),
    }
}

/// `item` is the guard's row of the settings view for `status`: choosing
/// it saves the staged settings and then takes the guard's action; it is
/// disabled when there is no action.
pub open spec fn dcg_settings_row(item: SelectionItem, status: DcgStatus, save_weekly: bool) -> bool {
    let (state, action) = dcg_state_and_action(status);
    &&& item.name@ == "Destructive Command Guard \u{b7} "@ + state
    &&& item.description matches Some(d) && d@ == dcg_description()
    &&& item.is_disabled == action.is_none()
    &&& item.action == match action {
        Some(a) => Some(ItemAction::SaveSettings { save_weekly, then: Some(a) }),
        None => None,
    }
    &&& item.dismiss_on_select
    &&& item.toggle.is_none()
    &&& !item.is_default && !item.is_current
    &&& item.search_value.is_none()
}

fn with_version(prefix: &str, version: &str) -> (res: String)
    ensures
        res@ == prefix@ + version@,
{
    let mut out = prefix.to_string();
    out.append(version);
    out
}

/// The guard's row of the Codex++ settings view.
pub fn settings_item(status: DcgStatus, save_weekly: bool) -> (res: SelectionItem)
    ensures
        dcg_settings_row(res, status, save_weekly),
{
    let (state, action): (String, Option<DcgAction>) = match status {
        DcgStatus::NotInstalled => ("Not installed".to_string(), Some(DcgAction::InstallAndEnable)),
        DcgStatus::Enabled(version) => (with_version("Enabled \u{b7} ", version.as_str()), Some(DcgAction::Disable)),
        DcgStatus::Disabled(version) => (with_version("Disabled \u{b7} ", version.as_str()), Some(DcgAction::Enable)),
        DcgStatus::UpdateAvailable { target_version, .. } => (
            with_version("Update available \u{b7} ", target_version.as_str()),
            Some(DcgAction::Update),
        ),
        DcgStatus::ExternalInstallation(_) => ("External installation".to_string(), None),
        DcgStatus::NeedsRepair(reason) => (
            "Needs repair".to_string(),
            if is_repairable(reason) { Some(DcgAction::Repair(reason)) } else { None },
        ),
        DcgStatus::Unsupported(DcgUnsupportedReason::Platform) => ("Unsupported on this platform".to_string(), None),
        DcgStatus::Unsupported(DcgUnsupportedReason::RemoteHookHost) => ("Manage on the shell host".to_string(), None),
    };
    let mut name = String::from_str("Destructive Command Guard \u{b7} ");
    name.append(state.as_str());
    let mut item = SelectionItem::named(name);
    item.description = Some(description());
    item.is_disabled = action.is_none();
    item.action = match action {
        Some(a) => Some(ItemAction::SaveSettings { save_weekly, then: Some(a) }),
        None => None,
    };
    item.dismiss_on_select = true;
    item
}

/// `res` asks to confirm an installation.
pub open spec fn install_confirmation_view(res: SelectionViewParams) -> bool {
    &&& res.title matches Some(t) && t@ == "Install Destructive Command Guard?"@
    &&& res.subtitle matches Some(s) && s@ == "Codex++ will enable protection for new sessions."@
    &&& res.items@.len() == 2
    &&& res.items@[0].name@ == "Install and enable"@
    &&& res.items@[0].description matches Some(d) && d@ == dcg_description()
    &&& res.items@[0].action == Some(ItemAction::ManageDcg(DcgAction::InstallAndEnable))
    &&& res.items@[0].dismiss_on_select && !res.items@[0].is_disabled
    &&& res.items@[1].name@ == "Cancel"@
    &&& res.items@[1].description.is_none()
    &&& res.items@[1].action.is_none()
    &&& res.items@[1].dismiss_on_select && !res.items@[1].is_disabled
    &&& res.view_id.is_none()
    &&& res.allow_cancel
}

/// The confirmation asked before installing: install and enable, or cancel.
pub fn confirmation_params() -> (res: SelectionViewParams)
    ensures
        install_confirmation_view(res),
{
    let mut install = SelectionItem::named("Install and enable".to_string());
    install.description = Some(description());
    install.action = Some(ItemAction::ManageDcg(DcgAction::InstallAndEnable));
    install.dismiss_on_select = true;
    let mut cancel = SelectionItem::named("Cancel".to_string());
    cancel.dismiss_on_select = true;
    let mut items: Vec<SelectionItem> = Vec::new();
    items.push(install);
    items.push(cancel);
    let mut params = SelectionViewParams::titled("Destructive Command Guard".to_string(), items);
    params.title = Some("Install Destructive Command Guard?".to_string());
    params.subtitle = Some("Codex++ will enable protection for new sessions.".to_string());
    params
}

/// `view` is a guard message: titled "Destructive Command Guard", with one
/// disabled row named `name` described by `description`.
pub open spec fn dcg_message_view(view: SelectionViewParams, name: Seq<char>, description: Seq<char>) -> bool {
    &&& view.title matches Some(t) && t@ == "Destructive Command Guard"@
    &&& view.subtitle.is_none()
    &&& view.footer_note.is_none()
    &&& view.items@.len() == 1
    &&& view.items@[0].name@ == name
    &&& view.items@[0].description matches Some(d) && d@ == description
    &&& view.items@[0].is_disabled
    &&& view.items@[0].action.is_none()
    &&& !view.items@[0].dismiss_on_select
    &&& view.items@[0].toggle.is_none()
    &&& view.initial_selected_idx.is_none()
    &&& !view.is_searchable
}

/// A guard message: one disabled row.
pub fn message_params(name: String, description: &str) -> (res: SelectionViewParams)
    ensures
        dcg_message_view(res, name@, description@),
        res.view_id.is_none(),
        res.allow_cancel,
{
    let mut item = SelectionItem::named(name);
    item.description = Some(description.to_string());
    item.is_disabled = true;
    let mut items: Vec<SelectionItem> = Vec::new();
    items.push(item);
    SelectionViewParams::titled("Destructive Command Guard".to_string(), items)
}

/// What the progress view says an action is doing.
pub open spec fn spec_action_verb(action: DcgAction) -> Seq<char> {
    match action {
        DcgAction::InstallAndEnable => "Installing and enabling"@,
        DcgAction::Enable => "Enabling"@,
        DcgAction::Disable => "Disabling"@,
        DcgAction::Update => "Updating"@,
        DcgAction::Repair(_) => "Repairing"@,
    }
}

/// What the progress view says an action is doing.
pub fn action_verb(action: DcgAction) -> (res: &'static str)
    ensures
        res@ == spec_action_verb(action),
{
    match action {
        DcgAction::InstallAndEnable => "Installing and enabling",
        DcgAction::Enable => "Enabling",
        DcgAction::Disable => "Disabling",
        DcgAction::Update => "Updating",
        DcgAction::Repair(_) => "Repairing",
    }
}

/// The view shown while an action runs; it cannot be cancelled and can
/// be found again by its identity.
pub fn progress_params(action: DcgAction) -> (res: SelectionViewParams)
    ensures
        dcg_message_view(res, spec_action_verb(action) + "\u{2026}"@, "Working\u{2026}"@),
        res.view_id == Some(ViewId::DcgOperationProgress),
        !res.allow_cancel,
{
    let mut name = action_verb(action).to_string();
    name.append("\u{2026}");
    let mut params = message_params(name, "Working\u{2026}");
    params.view_id = Some(ViewId::DcgOperationProgress);
    params.allow_cancel = false;
    params
}

/// The view shown when an action did not reach its goal.
pub fn failure_params() -> (res: SelectionViewParams)
    ensures
        dcg_message_view(res, "Operation failed"@, "The operation did not finish. Try again."@),
        res.view_id.is_none(),
        res.allow_cancel,
{
    message_params("Operation failed".to_string(), "The operation did not finish. Try again.")
}

/// The view shown while the guard's status is detected.
pub fn status_progress_params() -> (res: SelectionViewParams)
    ensures
        dcg_message_view(res, "Checking command guard\u{2026}"@, "Working\u{2026}"@),
        res.view_id == Some(ViewId::DcgStatusProgress),
        res.allow_cancel,
{
    let mut params = message_params("Checking command guard\u{2026}".to_string(), "Working\u{2026}");
    params.view_id = Some(ViewId::DcgStatusProgress);
    params
}

} // verus!
