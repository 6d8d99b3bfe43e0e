//! The `/accounts` view of automatic account selection, and the messages
//! that report saving it.

use vstd::prelude::*;
use crate::selection::ItemAction;
use crate::selection::SelectionItem;
use crate::selection::SelectionViewParams;
use crate::history::HistoryCell;
use crate::settings::AutomaticAccountSelection;
use crate::settings::ConfigValue;
use crate::settings::ConfigWrite;
use crate::settings::replaces_text;

verus! {

/// How a setting of automatic selection reads in messages.
pub open spec fn spec_selection_label(selection: AutomaticAccountSelection) -> Seq<char> {
    match selection {
        AutomaticAccountSelection::Enabled => "enabled"@,
        AutomaticAccountSelection::Disabled => "disabled"@,
    }
}

/// How a setting of automatic selection reads in messages.
pub fn selection_label(selection: AutomaticAccountSelection) -> (res: &'static str)
    ensures
        res@ == spec_selection_label(selection),
{
    match selection {
        AutomaticAccountSelection::Enabled => "enabled",
        AutomaticAccountSelection::Disabled => "disabled",
    }
}

/// `item` is the row that selects `selection`, marked current when it is.
pub open spec fn selection_row(
    item: SelectionItem,
    name: Seq<char>,
    description: Seq<char>,
    selection: AutomaticAccountSelection,
    current: AutomaticAccountSelection,
) -> bool {
    &&& item.name@ == name
    &&& item.description matches Some(d) && d@ == description
    &&& item.is_current == (selection == current)
    &&& item.action == Some(ItemAction::PersistAutomaticAccountSelection(selection))
    &&& item.dismiss_on_select
    &&& !item.is_default && !item.is_disabled
    &&& item.toggle.is_none()
    &&& item.search_value.is_none()
}

fn selection_item(
    name: &str,
    description: &str,
    selection: AutomaticAccountSelection,
    current: AutomaticAccountSelection,
) -> (res: SelectionItem)
    ensures
        selection_row(res, name@, description@, selection, current),
{
    let mut item = SelectionItem::named(name.to_string());
    item.description = Some(description.to_string());
    item.is_current = selection == current;
    item.action = Some(ItemAction::PersistAutomaticAccountSelection(selection));
    item.dismiss_on_select = true;
    item
}

/// The view: the current state, then a row to enable and a row to disable
/// automatic selection, the current one marked.
pub fn account_settings_params(current: AutomaticAccountSelection) -> (res: SelectionViewParams)
    ensures
        res.title matches Some(t) && t@ == "Accounts"@,
        res.subtitle matches Some(s) && s@ == "Automatic account selection is "@
            + spec_selection_label(current) + ". Restart Codex to use changes."@,
        res.items@.len() == 2,
        selection_row(res.items@[0], "Enable automatic selection"@, "Choose and switch accounts when needed."@,
            AutomaticAccountSelection::Enabled, current),
        selection_row(res.items@[1], "Disable automatic selection"@,
            "Stay on the current or manually selected account."@, AutomaticAccountSelection::Disabled, current),
        res.view_id.is_none(),
        res.allow_cancel,
        !res.is_searchable,
{
    let mut items: Vec<SelectionItem> = Vec::new();
    items.push(selection_item(
        "Enable automatic selection",
        "Choose and switch accounts when needed.",
        AutomaticAccountSelection::Enabled,
        current,
    ));
    items.push(selection_item(
        "Disable automatic selection",
        "Stay on the current or manually selected account.",
        AutomaticAccountSelection::Disabled,
        current,
    ));
    let mut subtitle = String::from_str("Automatic account selection is ");
    subtitle.append(selection_label(current));
    subtitle.append(". Restart Codex to use changes.");
    let mut params = SelectionViewParams::titled("Accounts".to_string(), items);
    params.subtitle = Some(subtitle);
    params
}

/// The message of a saved setting.
pub fn persistence_success_message(selection: AutomaticAccountSelection) -> (res: String)
    ensures
        res@ == "Automatic account selection "@ + spec_selection_label(selection)
            + ". Restart Codex to use this setting."@,
{
    let mut out = String::from_str("Automatic account selection ");
    out.append(selection_label(selection));
    out.append(". Restart Codex to use this setting.");
    out
}

/// The message of a failed save.
pub fn persistence_error_message(err: &str) -> (res: String)
    ensures
        res@ == "Failed to update automatic account selection: "@ + err@,
{
    let mut out = String::from_str("Failed to update automatic account selection: ");
    out.append(err);
    out
}

/// The message of a save that another configuration layer overrode.
pub fn persistence_overridden_message(selection: AutomaticAccountSelection) -> (res: String)
    ensures
        res@ == "Automatic account selection remains "@ + spec_selection_label(selection)
            + " because this setting is controlled elsewhere."@,
{
    let mut out = String::from_str("Automatic account selection remains ");
    out.append(selection_label(selection));
    out.append(" because this setting is controlled elsewhere.");
    out
}

/// The message of a save that could not be checked.
pub fn persistence_verification_failed_message(err: &str) -> (res: String)
    ensures
        res@ == "Automatic account selection was saved, but Codex could not verify it for this project: "@ + err@,
{
    let mut out = String::from_str(
        "Automatic account selection was saved, but Codex could not verify it for this project: ",
    );
    out.append(err);
    out
}

/// The edit that saves a selection from `/accounts`: the key
/// `automatic_account_selection` set to the selection's label.
pub fn selection_write(selection: AutomaticAccountSelection) -> (res: ConfigWrite)
    ensures
        replaces_text(res, "automatic_account_selection"@, spec_selection_label(selection)),
{
    ConfigWrite::Replace {
        key: String::from_str("automatic_account_selection"),
        value: ConfigValue::Text(String::from_str(selection_label(selection))),
    }
}

/// The transcript entry that reports saving a selection: the success
/// message when the save went through, else the error message with the
/// reason it failed.
pub fn saved_selection_cell(selection: AutomaticAccountSelection, outcome: &Result<(), String>) -> (res: HistoryCell)
    ensures
        match outcome {
            Ok(()) => res matches HistoryCell::Info { message, hint } && hint.is_none()
                && message@ == "Automatic account selection "@ + spec_selection_label(selection)
                    + ". Restart Codex to use this setting."@,
            Err(e) => res matches HistoryCell::Error { message }
                && message@ == "Failed to update automatic account selection: "@ + e@,
        },
{
    match outcome {
        Ok(()) => HistoryCell::Info { message: persistence_success_message(selection), hint: None },
        Err(e) => HistoryCell::Error { message: persistence_error_message(e.as_str()) },
    }
}

} // verus!
