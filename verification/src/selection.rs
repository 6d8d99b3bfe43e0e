//! The list-selection views that the Codex++ popups are built from.

use vstd::prelude::*;
use crate::destructive_command_guard::DcgAction;
use crate::settings::AutomaticAccountSelection;
use crate::settings::SettingKey;

verus! {

/// What a row's toggle switches.
#[derive(Clone, Copy, Debug, PartialEq, Eq, Structural)]
pub enum ToggleTarget {
    /// One of the Codex++ settings staged in the settings view.
    Setting(SettingKey),
    /// Whether Codex++ may choose the account of the given row.
    AccountAutomation(usize),
}

/// A row's toggle: its state and what it switches.
#[derive(Clone, Copy, Debug, PartialEq, Eq, Structural)]
pub struct Toggle {
    pub is_on: bool,
    pub target: ToggleTarget,
}

/// What choosing a row does.
#[derive(Clone, Copy, Debug, PartialEq, Eq, Structural)]
pub enum ItemAction {
    /// Save the Codex++ settings as the view's toggles stand (the weekly
    /// settings only when `save_weekly`), then carry out `then` for the
    /// Destructive Command Guard: installing asks for confirmation first.
    SaveSettings { save_weekly: bool, then: Option<DcgAction> },
    /// Carry out a Destructive Command Guard action.
    ManageDcg(DcgAction),
    /// Save automatic account selection.
    PersistAutomaticAccountSelection(AutomaticAccountSelection),
    /// Save the per-account automation toggles that changed.
    SaveAccountAutomation,
}

/// Views that can be found again and dismissed by their identity.
#[derive(Clone, Copy, Debug, PartialEq, Eq, Structural)]
pub enum ViewId {
    DcgOperationProgress,
    DcgStatusProgress,
}

/// One row of a selection view.
#[derive(Clone, Debug, PartialEq, Eq)]
pub struct SelectionItem {
    pub name: String,
    pub description: Option<String>,
    pub is_default: bool,
    pub is_current: bool,
    pub is_disabled: bool,
    pub dismiss_on_select: bool,
    /// The row's toggle, for rows that have one.
    pub toggle: Option<Toggle>,
    pub search_value: Option<String>,
    /// What choosing the row does; `None` for rows that only close the view.
    pub action: Option<ItemAction>,
}

/// A whole selection view.
#[derive(Clone, Debug, PartialEq, Eq)]
pub struct SelectionViewParams {
    pub title: Option<String>,
    pub subtitle: Option<String>,
    pub footer_note: Option<String>,
    /// The key hint shown under the list.
    pub footer_hint: Option<String>,
    pub items: Vec<SelectionItem>,
    pub initial_selected_idx: Option<usize>,
    pub is_searchable: bool,
    pub view_id: Option<ViewId>,
    pub allow_cancel: bool,
}

impl SelectionItem {
    /// A plain row with only a name.
    pub open spec fn plain(name: Seq<char>, item: SelectionItem) -> bool {
        &&& item.name@ == name
        &&& item.description.is_none()
        &&& !item.is_default
        &&& !item.is_current
        &&& !item.is_disabled
        &&& !item.dismiss_on_select
        &&& item.toggle.is_none()
        &&& item.search_value.is_none()
        &&& item.action.is_none()
    }

    /// A row named `name` with nothing else set.
    pub fn named(name: String) -> (res: SelectionItem)
        ensures
            SelectionItem::plain(name@, res),
    {
        SelectionItem {
            name,
            description: None,
            is_default: false,
            is_current: false,
            is_disabled: false,
            dismiss_on_select: false,
            toggle: None,
            search_value: None,
            action: None,
        }
    }
}

impl SelectionViewParams {
    /// A view with only its title and items set; it can be cancelled.
    pub open spec fn plain(title: Seq<char>, items: Seq<SelectionItem>, view: SelectionViewParams) -> bool {
        &&& view.title matches Some(t) && t@ == title
        &&& view.subtitle.is_none()
        &&& view.footer_note.is_none()
        &&& view.footer_hint.is_none()
        &&& view.items@ == items
        &&& view.initial_selected_idx.is_none()
        &&& !view.is_searchable
        &&& view.view_id.is_none()
        &&& view.allow_cancel
    }

    /// A cancellable view titled `title` listing `items`.
    pub fn titled(title: String, items: Vec<SelectionItem>) -> (res: SelectionViewParams)
        ensures
            SelectionViewParams::plain(title@, items@, res),
    {
        SelectionViewParams {
            title: Some(title),
            subtitle: None,
            footer_note: None,
            footer_hint: None,
            items,
            initial_selected_idx: None,
            is_searchable: false,
            view_id: None,
            allow_cancel: true,
        }
    }
}

} // verus!
