//! The part of the chat widget that Codex++ drives: its settings, the
//! views it opens, the messages it adds, compact tool activity and the wait
//! for a usage reset.

use vstd::prelude::*;
use crate::account_automation::AccountAutomationChoice;
use crate::account_automation::AccountAutomationRow;
use crate::account_automation::accounts_settings_params;
use crate::account_automation::accounts_view;
use crate::account_automation::automation_choices;
use crate::account_settings::persistence_error_message as selection_error_message;
use crate::account_settings::persistence_overridden_message as selection_overridden_message;
use crate::account_settings::persistence_success_message as selection_success_message;
use crate::account_settings::persistence_verification_failed_message as selection_verification_failed_message;
use crate::account_settings::spec_selection_label;
use crate::compact_activity::ActivityKind;
use crate::compact_activity::CompactActivityHistoryCell;
use crate::compact_activity::EntryLines;
use crate::compact_activity::shown_main;
use crate::compact_activity::CompactMainPresentation;
use crate::compact_activity::compact_presentation;
use crate::compact_activity::compact_success_is_transcript_only;
use crate::compact_activity::is_running_tool;
use crate::compact_activity::spec_compact_presentation;
use crate::compact_activity::spec_is_running_tool;
use crate::compact_activity::spec_success_is_transcript_only;
use crate::compact_activity::spec_transient_status;
use crate::compact_activity::transient_status;
use crate::dcg_views::confirmation_params;
use crate::dcg_views::dcg_message_view;
use crate::dcg_views::failure_params;
use crate::dcg_views::install_confirmation_view;
use crate::dcg_views::progress_params;
use crate::dcg_views::spec_action_verb;
use crate::dcg_views::status_progress_params;
use crate::destructive_command_guard::DcgAction;
use crate::destructive_command_guard::DcgChange;
use crate::destructive_command_guard::DcgStatus;
use crate::destructive_command_guard::action_succeeded;
use crate::history::HistoryCell;
use crate::selection::SelectionViewParams;
use crate::selection::ViewId;
use crate::settings::AutomaticAccountSelection;
use crate::settings::ModelCapacityRetryMode;
use crate::settings::SettingsToggles;
use crate::settings::ToolActivityPresentation;
use crate::settings::WeeklyUsageWindowAutoStart;
use crate::settings::codex_plus_plus_settings_params;
use crate::settings::settings_list_keymap;
use crate::settings::ListKeymap;
use crate::settings::persistence_error_message;
use crate::settings::persistence_overridden_message;
use crate::settings::persistence_success_message;
use crate::settings::persistence_verification_failed_message;
use crate::settings::settings_view;
use crate::usage_reset_resume::AppCommand;
use crate::usage_reset_resume::UsageResetState;
use crate::usage_reset_resume::spec_usage_reset_turn;
use crate::user_message_inbox::InboxHistoryCell;
use crate::user_message_inbox::UserMessageInboxState;
use crate::user_message_inbox::message_view;

verus! {

/// The Codex++ configuration the widget works with.
#[derive(Clone, Copy, Debug, PartialEq, Eq, Structural)]
pub struct WidgetConfig {
    pub automatic_account_selection: AutomaticAccountSelection,
    pub weekly_usage_window_auto_start: WeeklyUsageWindowAutoStart,
    pub model_capacity_retry_mode: ModelCapacityRetryMode,
    pub tool_activity: ToolActivityPresentation,
    /// The user configuration holds automatic-redemption settings.
    pub auto_redeem_configured: bool,
    /// The agent inbox is enabled.
    pub user_message_inbox_enabled: bool,
}

/// An entry the widget added to the conversation.
#[derive(Clone, Debug, PartialEq, Eq)]
pub enum HistoryEntry {
    Message(HistoryCell),
    Inbox(InboxHistoryCell),
}

/// A request the widget sends to the application.
#[derive(Clone, Copy, Debug, PartialEq, Eq, Structural)]
pub enum WidgetEvent {
    OpenCodexPlusPlusAccounts,
}

/// The running hook, when one is shown.
#[derive(Clone, Debug, PartialEq, Eq)]
pub struct ActiveHook {
    pub should_render: bool,
    /// The status the hook gives for compact mode.
    pub compact_status: Option<String>,
}

/// The entry being produced, with the text of each span of its rendered lines.
#[derive(Clone, Debug, PartialEq, Eq)]
pub struct ActiveCell {
    pub kind: ActivityKind,
    pub lines: Vec<Vec<String>>,
}

/// The chat widget's Codex++ state.
pub struct ChatWidget {
    pub config: WidgetConfig,
    pub weekly_start_supported: bool,
    pub raw_output_mode: bool,
    pub status_indicator_visible: bool,
    pub status_header: String,
    pub active_hook: Option<ActiveHook>,
    pub active_cell: Option<ActiveCell>,
    pub history: Vec<HistoryEntry>,
    /// The open views; the last one is active.
    pub views: Vec<SelectionViewParams>,
    /// The staged toggles of the settings view.
    pub settings_toggles: SettingsToggles,
    /// The staged choices of the account automation view.
    pub automation_choices: Vec<AccountAutomationChoice>,
    /// The keys of the selection lists.
    pub list_keys: ListKeymap,
    pub redraw_requested: bool,
    pub queue_autosend_suppressed: bool,
    pub events: Vec<WidgetEvent>,
    pub usage_reset: UsageResetState,
    pub user_message_inbox: UserMessageInboxState,
}

/// `after` is `before` with an information message added.
pub open spec fn added_info(before: Seq<HistoryEntry>, after: Seq<HistoryEntry>, text: Seq<char>) -> bool {
    &&& after.len() == before.len() + 1
    &&& after.drop_last() == before
    &&& (after.last() matches HistoryEntry::Message(HistoryCell::Info { message, hint: None }) && message@ == text)
}

/// `after` is `before` with an error message added.
pub open spec fn added_error(before: Seq<HistoryEntry>, after: Seq<HistoryEntry>, text: Seq<char>) -> bool {
    &&& after.len() == before.len() + 1
    &&& after.drop_last() == before
    &&& (after.last() matches HistoryEntry::Message(HistoryCell::Error { message }) && message@ == text)
}

/// `after` is `before` with one view opened on top.
pub open spec fn opened(before: Seq<SelectionViewParams>, after: Seq<SelectionViewParams>) -> bool {
    after.len() == before.len() + 1 && after.drop_last() == before
}

/// The views without those of the given identity.
pub open spec fn without_view(views: Seq<SelectionViewParams>, id: ViewId) -> Seq<SelectionViewParams>
    decreases views.len(),
{
    if views.len() == 0 {
        Seq::empty()
    } else {
        let rest = without_view(views.drop_last(), id);
        if views.last().view_id == Some(id) { rest } else { rest.push(views.last()) }
    }
}

/// The active view has the given identity.
pub open spec fn active_is(views: Seq<SelectionViewParams>, id: ViewId) -> bool {
    views.len() > 0 && views.last().view_id == Some(id)
}

impl ChatWidget {
    /// The parts of the widget that its settings, views and messages leave alone.
    pub open spec fn keeps_session(self, other: ChatWidget) -> bool {
        &&& self.weekly_start_supported == other.weekly_start_supported
        &&& self.raw_output_mode == other.raw_output_mode
        &&& self.status_indicator_visible == other.status_indicator_visible
        &&& self.status_header == other.status_header
        &&& self.active_hook == other.active_hook
        &&& self.active_cell == other.active_cell
        &&& self.usage_reset == other.usage_reset
        &&& self.user_message_inbox == other.user_message_inbox
        &&& self.list_keys == other.list_keys
    }

    /// Compact tool activity is on and raw output is off.
    pub open spec fn spec_compact_enabled(self) -> bool {
        !self.raw_output_mode && self.config.tool_activity == ToolActivityPresentation::Compact
    }

    /// Whether compact tool activity applies.
    pub fn compact_tool_activity_enabled(&self) -> (res: bool)
        ensures
            res == self.spec_compact_enabled(),
    {
        !self.raw_output_mode && self.config.tool_activity == ToolActivityPresentation::Compact
    }

    /// In compact mode the status indicator must be shown, since it carries
    /// the running tool's status.
    pub fn ensure_compact_activity_status(&mut self)
        ensures
            final(self).status_indicator_visible == (old(self).status_indicator_visible || old(self).spec_compact_enabled()),
            final(self).status_header == old(self).status_header,
            final(self).config == old(self).config,
            final(self).history@ == old(self).history@,
            !old(self).spec_compact_enabled() ==> *final(self) == *old(self),
            old(self).spec_compact_enabled() ==> *final(self) == (ChatWidget { status_indicator_visible: true, ..*old(self) }),
    {
        if self.compact_tool_activity_enabled() {
            self.status_indicator_visible = true;
        }
    }

    /// The status that stands in for running tool activity in compact
    /// mode: the shown hook's own status, else the status of a running tool.
    pub open spec fn spec_compact_transient_status(self) -> Option<Seq<char>> {
        if !self.spec_compact_enabled() || !self.status_indicator_visible {
            None
        } else if self.active_hook matches Some(h) && h.should_render {
            match self.active_hook->0.compact_status {
                Some(s) => Some(s@),
                None => None,
            }
        } else {
            match self.active_cell {
                Some(c) => if spec_is_running_tool(c.kind) { spec_transient_status(c.lines@) } else { None },
                None => None,
            }
        }
    }

    /// The status that stands in for running tool activity in compact mode.
    pub fn compact_transient_status(&self) -> (res: Option<String>)
        ensures
            match res {
                Some(s) => self.spec_compact_transient_status() == Some(s@),
                None => self.spec_compact_transient_status().is_none(),
            },
    {
        if !self.compact_tool_activity_enabled() || !self.status_indicator_visible {
            return None;
        }
        match &self.active_hook {
            Some(h) => {
                if h.should_render {
                    return match &h.compact_status {
                        Some(s) => Some(s.clone()),
                        None => None,
                    };
                }
            },
            None => {},
        }
        match &self.active_cell {
            Some(c) => if is_running_tool(&c.kind) { transient_status(&c.lines) } else { None },
            None => None,
        }
    }

    /// How a finished entry is shown in the main conversation: in compact
    /// mode a patch by its first line and a quiet success not at all.
    pub fn compact_history_cell(&self, kind: &ActivityKind) -> (res: Option<CompactMainPresentation>)
        ensures
            res == spec_compact_presentation(self.spec_compact_enabled(), *kind),
    {
        compact_presentation(self.compact_tool_activity_enabled(), kind)
    }

    /// A finished entry as the main conversation shows it: in compact mode
    /// a patch by its first line and a quiet success not at all, every
    /// other entry in full. Its raw lines and its transcript are kept as
    /// they were in every case.
    pub fn compact_history_entry(&self, kind: &ActivityKind, cell: EntryLines) -> (res: EntryLines)
        ensures
            res.raw@ == cell.raw@,
            res.transcript@ == cell.transcript@,
            res.display@ == match spec_compact_presentation(self.spec_compact_enabled(), *kind) {
                None => cell.display@,
                Some(main) => shown_main(main, cell.display@),
            },
    {
        match self.compact_history_cell(kind) {
            None => cell,
            Some(main) => {
                let compacted = CompactActivityHistoryCell::new(cell, main);
                EntryLines {
                    display: compacted.display_lines(),
                    raw: compacted.raw_lines(),
                    transcript: compacted.transcript_lines(),
                }
            },
        }
    }

    /// A quiet success that finished before its status was seen keeps its
    /// status in the header, in compact mode.
    pub fn retain_fast_compact_completion_status(&mut self)
        ensures
            ({
                let shown = if old(self).spec_compact_enabled() && (old(self).active_cell matches Some(c)
                    && spec_success_is_transcript_only(c.kind)) {
                    spec_transient_status(old(self).active_cell->0.lines@)
                } else {
                    None
                };
                match shown {
                    Some(s) => final(self).status_header@ == s,
                    None => final(self).status_header == old(self).status_header,
                }
            }),
            final(self).config == old(self).config,
            final(self).active_cell == old(self).active_cell,
            final(self).history@ == old(self).history@,
            *final(self) == (ChatWidget { status_header: final(self).status_header, ..*old(self) }),
    {
        if !self.compact_tool_activity_enabled() {
            return;
        }
        let status = match &self.active_cell {
            Some(c) => if compact_success_is_transcript_only(&c.kind) { transient_status(&c.lines) } else { None },
            None => None,
        };
        match status {
            Some(s) => self.status_header = s,
            None => {},
        }
    }

    /// A command that starts other work ends the wait for a usage reset.
    pub fn observe_usage_reset_command(&mut self, command: AppCommand)
        ensures
            final(self).usage_reset.usage_reset_wait == if command == AppCommand::Other {
                old(self).usage_reset.usage_reset_wait
            } else {
                None
            },
            final(self).usage_reset.last_resumed_usage_reset_at == old(self).usage_reset.last_resumed_usage_reset_at,
            final(self).config == old(self).config,
            final(self).history@ == old(self).history@,
            *final(self) == (ChatWidget {
                usage_reset: UsageResetState { usage_reset_wait: final(self).usage_reset.usage_reset_wait, ..old(self).usage_reset },
                ..*old(self)
            }),
    {
        self.usage_reset.observe_usage_reset_command(command);
    }

    /// The turn to resume after a usage reset completed at `completed_at`.
    pub fn usage_reset_turn(&self, completed_at: i64) -> (res: Option<String>)
        ensures
            match res {
                Some(t) => spec_usage_reset_turn(self.usage_reset, completed_at) == Some(t@),
                None => spec_usage_reset_turn(self.usage_reset, completed_at).is_none(),
            },
    {
        self.usage_reset.usage_reset_turn(completed_at)
    }

    /// Adds an information message.
    pub fn add_info_message(&mut self, message: String)
        ensures
            added_info(old(self).history@, final(self).history@, message@),
            final(self).views@ == old(self).views@,
            final(self).config == old(self).config,
            final(self).keeps_session(*old(self)),
            *final(self) == (ChatWidget { history: final(self).history, ..*old(self) }),
    {
        self.history.push(HistoryEntry::Message(HistoryCell::Info { message, hint: None }));
        assert(self.history@.drop_last() =~= old(self).history@);
    }

    /// Adds an error message.
    pub fn add_error_message(&mut self, message: String)
        ensures
            added_error(old(self).history@, final(self).history@, message@),
            final(self).views@ == old(self).views@,
            final(self).config == old(self).config,
            final(self).keeps_session(*old(self)),
            *final(self) == (ChatWidget { history: final(self).history, ..*old(self) }),
    {
        self.history.push(HistoryEntry::Message(HistoryCell::Error { message }));
        assert(self.history@.drop_last() =~= old(self).history@);
    }

    /// Asks the application to open the account automation view, holding
    /// queued messages back meanwhile.
    pub fn open_accounts_popup(&mut self)
        ensures
            final(self).queue_autosend_suppressed,
            final(self).events@ == old(self).events@.push(WidgetEvent::OpenCodexPlusPlusAccounts),
            final(self).history@ == old(self).history@,
            final(self).views@ == old(self).views@,
            final(self).keeps_session(*old(self)),
            final(self).config == old(self).config,
            final(self).settings_toggles == old(self).settings_toggles,
            final(self).automation_choices@ == old(self).automation_choices@,
            final(self).redraw_requested == old(self).redraw_requested,
            *final(self) == (ChatWidget { queue_autosend_suppressed: final(self).queue_autosend_suppressed, events: final(self).events, ..*old(self) }),
    {
        self.queue_autosend_suppressed = true;
        self.events.push(WidgetEvent::OpenCodexPlusPlusAccounts);
    }

    /// Opens the account automation view for the accounts read (`None`:
    /// they could not be read, which is reported; no accounts are reported
    /// too).
    pub fn open_accounts_popup_with_statuses(&mut self, accounts: Option<Vec<AccountAutomationRow>>)
        ensures
            match accounts {
                None => added_error(old(self).history@, final(self).history@, "Could not load accounts."@)
                    && final(self).views@ == old(self).views@,
                Some(rows) => if rows@.len() == 0 {
                    added_info(old(self).history@, final(self).history@, "No imported accounts found."@)
                        && final(self).views@ == old(self).views@
                } else {
                    &&& final(self).history@ == old(self).history@
                    &&& opened(old(self).views@, final(self).views@)
                    &&& accounts_view(final(self).views@.last(), rows@, old(self).list_keys.spec_settings_hint())
                    &&& final(self).automation_choices@.len() == rows@.len()
                    &&& forall|i: int| 0 <= i < rows@.len() ==> {
                        &&& (#[trigger] final(self).automation_choices@[i]).id@ == rows@[i].id@
                        &&& final(self).automation_choices@[i].initial_automation_enabled == rows@[i].automation_enabled
                        &&& final(self).automation_choices@[i].automation_enabled == rows@[i].automation_enabled
                    }
                    &&& final(self).redraw_requested
                },
            },
            final(self).config == old(self).config,
            final(self).keeps_session(*old(self)),
            *final(self) == (ChatWidget { history: final(self).history, automation_choices: final(self).automation_choices, views: final(self).views, redraw_requested: final(self).redraw_requested, ..*old(self) }),
    {
        match accounts {
            None => self.add_error_message("Could not load accounts.".to_string()),
            Some(rows) => {
                if rows.len() == 0 {
                    self.add_info_message("No imported accounts found.".to_string());
                } else {
                    self.automation_choices = automation_choices(&rows);
                    let keys = settings_list_keymap(&self.list_keys);
                    self.views.push(accounts_settings_params(&rows, &keys));
                    assert(self.views@.drop_last() =~= old(self).views@);
                    self.redraw_requested = true;
                }
            },
        }
    }

    /// Automatic selection was saved.
    pub fn automatic_account_selection_persisted(&mut self, selection: AutomaticAccountSelection)
        ensures
            final(self).config == (WidgetConfig { automatic_account_selection: selection, ..old(self).config }),
            added_info(old(self).history@, final(self).history@,
                "Automatic account selection "@ + spec_selection_label(selection) + ". Restart Codex to use this setting."@),
            final(self).views@ == old(self).views@,
            final(self).keeps_session(*old(self)),
            *final(self) == (ChatWidget { config: final(self).config, history: final(self).history, ..*old(self) }),
    {
        self.config.automatic_account_selection = selection;
        self.add_info_message(selection_success_message(selection));
    }

    /// Saving automatic selection failed.
    pub fn automatic_account_selection_persistence_failed(&mut self, err: &str)
        ensures
            added_error(old(self).history@, final(self).history@, "Failed to update automatic account selection: "@ + err@),
            final(self).config == old(self).config,
            final(self).views@ == old(self).views@,
            final(self).keeps_session(*old(self)),
            *final(self) == (ChatWidget { history: final(self).history, ..*old(self) }),
    {
        self.add_error_message(selection_error_message(err));
    }

    /// Another configuration layer decides automatic selection.
    pub fn automatic_account_selection_persistence_overridden(&mut self, selection: AutomaticAccountSelection)
        ensures
            final(self).config == (WidgetConfig { automatic_account_selection: selection, ..old(self).config }),
            added_error(old(self).history@, final(self).history@,
                "Automatic account selection remains "@ + spec_selection_label(selection)
                    + " because this setting is controlled elsewhere."@),
            final(self).views@ == old(self).views@,
            final(self).keeps_session(*old(self)),
            *final(self) == (ChatWidget { config: final(self).config, history: final(self).history, ..*old(self) }),
    {
        self.config.automatic_account_selection = selection;
        self.add_error_message(selection_overridden_message(selection));
    }

    /// Automatic selection was saved but could not be checked.
    pub fn automatic_account_selection_verification_failed(&mut self, err: &str)
        ensures
            added_error(old(self).history@, final(self).history@,
                "Automatic account selection was saved, but Codex could not verify it for this project: "@ + err@),
            final(self).config == old(self).config,
            final(self).views@ == old(self).views@,
            final(self).keeps_session(*old(self)),
            *final(self) == (ChatWidget { history: final(self).history, ..*old(self) }),
    {
        self.add_error_message(selection_verification_failed_message(err));
    }

    /// Opens a view and asks for a redraw.
    pub fn show_dcg_view(&mut self, params: SelectionViewParams)
        ensures
            final(self).views@ == old(self).views@.push(params),
            opened(old(self).views@, final(self).views@),
            final(self).redraw_requested,
            final(self).history@ == old(self).history@,
            final(self).config == old(self).config,
            final(self).keeps_session(*old(self)),
            *final(self) == (ChatWidget { views: final(self).views, redraw_requested: final(self).redraw_requested, ..*old(self) }),
    {
        self.views.push(params);
        assert(self.views@.drop_last() =~= old(self).views@);
        self.redraw_requested = true;
    }

    /// Shows that the guard's status is being detected.
    pub fn show_dcg_status_progress(&mut self)
        ensures
            opened(old(self).views@, final(self).views@),
            dcg_message_view(final(self).views@.last(), "Checking command guard\u{2026}"@, "Working\u{2026}"@),
            final(self).views@.last().view_id == Some(ViewId::DcgStatusProgress),
            final(self).redraw_requested,
            final(self).history@ == old(self).history@,
            final(self).keeps_session(*old(self)),
            *final(self) == (ChatWidget { views: final(self).views, redraw_requested: final(self).redraw_requested, ..*old(self) }),
    {
        self.show_dcg_view(status_progress_params());
    }

    /// Asks before installing the guard.
    pub fn open_dcg_install_confirmation(&mut self)
        ensures
            opened(old(self).views@, final(self).views@),
            install_confirmation_view(final(self).views@.last()),
            final(self).redraw_requested,
            final(self).history@ == old(self).history@,
            final(self).keeps_session(*old(self)),
            *final(self) == (ChatWidget { views: final(self).views, redraw_requested: final(self).redraw_requested, ..*old(self) }),
    {
        self.show_dcg_view(confirmation_params());
    }

    /// Shows that a guard action runs.
    pub fn show_dcg_progress(&mut self, action: DcgAction)
        ensures
            opened(old(self).views@, final(self).views@),
            dcg_message_view(final(self).views@.last(), spec_action_verb(action) + "\u{2026}"@, "Working\u{2026}"@),
            final(self).views@.last().view_id == Some(ViewId::DcgOperationProgress),
            !final(self).views@.last().allow_cancel,
            final(self).redraw_requested,
            final(self).history@ == old(self).history@,
            final(self).keeps_session(*old(self)),
            *final(self) == (ChatWidget { views: final(self).views, redraw_requested: final(self).redraw_requested, ..*old(self) }),
    {
        self.show_dcg_view(progress_params(action));
    }

    /// Opens the Codex++ settings view with the toggles as the settings
    /// stand and the guard's row for `dcg_status`.
    pub fn open_codex_plus_plus_popup(&mut self, dcg_status: DcgStatus)
        ensures
            final(self).settings_toggles == SettingsToggles::spec_initial(
                old(self).config.automatic_account_selection,
                old(self).config.weekly_usage_window_auto_start,
                old(self).config.auto_redeem_configured,
                old(self).config.model_capacity_retry_mode,
                old(self).config.user_message_inbox_enabled,
                old(self).config.tool_activity,
            ),
            opened(old(self).views@, final(self).views@),
            settings_view(final(self).views@.last(), final(self).settings_toggles, old(self).weekly_start_supported,
                Some(dcg_status), old(self).list_keys.spec_settings_hint()),
            final(self).redraw_requested,
            final(self).history@ == old(self).history@,
            final(self).config == old(self).config,
            final(self).keeps_session(*old(self)),
            *final(self) == (ChatWidget { settings_toggles: final(self).settings_toggles, views: final(self).views, redraw_requested: final(self).redraw_requested, ..*old(self) }),
    {
        let toggles = SettingsToggles::initial(
            self.config.automatic_account_selection,
            self.config.weekly_usage_window_auto_start,
            self.config.auto_redeem_configured,
            self.config.model_capacity_retry_mode,
            self.config.user_message_inbox_enabled,
            self.config.tool_activity,
        );
        self.settings_toggles = toggles;
        let keys = settings_list_keymap(&self.list_keys);
        self.views.push(codex_plus_plus_settings_params(toggles, self.weekly_start_supported, Some(dcg_status), &keys));
        assert(self.views@.drop_last() =~= old(self).views@);
        self.redraw_requested = true;
    }

    fn pop_view(&mut self)
        requires
            old(self).views@.len() > 0,
        ensures
            final(self).views@ == old(self).views@.drop_last(),
            final(self).history@ == old(self).history@,
            final(self).config == old(self).config,
            final(self).redraw_requested == old(self).redraw_requested,
            final(self).settings_toggles == old(self).settings_toggles,
            final(self).keeps_session(*old(self)),
            *final(self) == (ChatWidget { views: final(self).views, ..*old(self) }),
    {
        self.views.pop();
    }

    fn active_view_is(&self, id: ViewId) -> (res: bool)
        ensures
            res == active_is(self.views@, id),
    {
        let n = self.views.len();
        n > 0 && self.views[n - 1].view_id == Some(id)
    }

    /// Closes the views with the given identity, wherever they are.
    pub fn dismiss_view_by_id(&mut self, id: ViewId)
        ensures
            final(self).views@ == without_view(old(self).views@, id),
            final(self).history@ == old(self).history@,
            final(self).config == old(self).config,
            final(self).keeps_session(*old(self)),
            *final(self) == (ChatWidget { views: final(self).views, ..*old(self) }),
    {
        let mut kept: Vec<SelectionViewParams> = Vec::new();
        let ghost before = self.views@;
        let mut i: usize = 0;
        let n = self.views.len();
        while i < n
            invariant
                n == before.len(),
                self.views@.len() == n - i,
                self.views@ == before.subrange(i as int, n as int),
                kept@ == without_view(before.take(i as int), id),
                self.history@ == old(self).history@,
                self.config == old(self).config,
                self.keeps_session(*old(self)),
                *self == (ChatWidget { views: self.views, ..*old(self) }),
            decreases n - i,
        {
            let v = self.views.remove(0);
            proof {
                assert(before.take(i + 1).drop_last() =~= before.take(i as int));
                assert(before.take(i + 1).last() == before[i as int]);
            }
            if !(v.view_id == Some(id)) {
                kept.push(v);
            }
            proof {
                assert(self.views@ =~= before.subrange(i + 1, n as int));
            }
            i = i + 1;
        }
        assert(before.take(n as int) =~= before);
        self.views = kept;
    }

    /// Status detection finished: when its progress view is still the
    /// active one, it gives way to the settings view.
    pub fn finish_dcg_status_detection(&mut self, status: DcgStatus)
        ensures
            active_is(old(self).views@, ViewId::DcgStatusProgress) ==> {
                &&& final(self).views@.drop_last() == old(self).views@.drop_last()
                &&& settings_view(final(self).views@.last(), final(self).settings_toggles, old(self).weekly_start_supported,
                    Some(status), old(self).list_keys.spec_settings_hint())
                &&& final(self).redraw_requested
            },
            !active_is(old(self).views@, ViewId::DcgStatusProgress) ==> final(self).views@ == old(self).views@,
            final(self).history@ == old(self).history@,
            final(self).config == old(self).config,
            final(self).keeps_session(*old(self)),
            *final(self) == (ChatWidget { settings_toggles: final(self).settings_toggles, views: final(self).views, redraw_requested: final(self).redraw_requested, ..*old(self) }),
    {
        if self.active_view_is(ViewId::DcgStatusProgress) {
            self.pop_view();
            self.open_codex_plus_plus_popup(status);
        }
    }

    /// A guard action finished. When its progress view is no longer the
    /// active one, the progress view is closed and nothing else happens.
    /// Otherwise it closes, and a change that reached the action's goal is
    /// announced and shown in the settings view; anything else shows the
    /// failure view.
    pub fn finish_dcg_action(&mut self, action: DcgAction, change: Option<DcgChange>)
        ensures
            !active_is(old(self).views@, ViewId::DcgOperationProgress) ==> {
                &&& final(self).views@ == without_view(old(self).views@, ViewId::DcgOperationProgress)
                &&& final(self).history@ == old(self).history@
            },
            active_is(old(self).views@, ViewId::DcgOperationProgress) ==> {
                &&& final(self).views@.drop_last() == old(self).views@.drop_last()
                &&& final(self).redraw_requested
                &&& match change {
                    Some(c) => if (match action {
                        DcgAction::Disable => c.status is Disabled,
                        DcgAction::Update => c.status is Enabled || c.status is Disabled,
                        _ => c.status is Enabled,
                    }) {
                        &&& added_info(old(self).history@, final(self).history@,
                            "Destructive Command Guard settings updated. Changes apply to new sessions."@)
                        &&& settings_view(final(self).views@.last(), final(self).settings_toggles,
                            old(self).weekly_start_supported, Some(c.status), old(self).list_keys.spec_settings_hint())
                    } else {
                        &&& final(self).history@ == old(self).history@
                        &&& dcg_message_view(final(self).views@.last(), "Operation failed"@,
                            "The operation did not finish. Try again."@)
                    },
                    None => {
                        &&& final(self).history@ == old(self).history@
                        &&& dcg_message_view(final(self).views@.last(), "Operation failed"@,
                            "The operation did not finish. Try again."@)
                    },
                }
            },
            final(self).config == old(self).config,
            final(self).keeps_session(*old(self)),
            *final(self) == (ChatWidget { history: final(self).history, settings_toggles: final(self).settings_toggles, views: final(self).views, redraw_requested: final(self).redraw_requested, ..*old(self) }),
    {
        if !self.active_view_is(ViewId::DcgOperationProgress) {
            self.dismiss_view_by_id(ViewId::DcgOperationProgress);
            return;
        }
        self.pop_view();
        match change {
            Some(c) => {
                if action_succeeded(action, &c.status) {
                    self.add_info_message(
                        "Destructive Command Guard settings updated. Changes apply to new sessions.".to_string(),
                    );
                    self.open_codex_plus_plus_popup(c.status);
                } else {
                    self.show_dcg_view(failure_params());
                }
            },
            None => self.show_dcg_view(failure_params()),
        }
    }

    /// Adds the inbox to the conversation.
    pub fn show_user_message_inbox(&mut self)
        ensures
            final(self).history@.len() == old(self).history@.len() + 1,
            final(self).history@.drop_last() == old(self).history@,
            final(self).history@.last() matches HistoryEntry::Inbox(cell) && {
                &&& cell.enabled == old(self).config.user_message_inbox_enabled
                &&& cell.messages@.len() == old(self).user_message_inbox.spec_messages().len()
                &&& forall|i: int| 0 <= i < cell.messages@.len() ==> message_view(#[trigger] cell.messages@[i])
                    == message_view(old(self).user_message_inbox.spec_messages()[i])
                &&& cell.overflowed == old(self).user_message_inbox.spec_overflowed()
            },
            final(self).redraw_requested,
            final(self).views@ == old(self).views@,
            final(self).config == old(self).config,
            final(self).keeps_session(*old(self)),
            *final(self) == (ChatWidget { history: final(self).history, redraw_requested: final(self).redraw_requested, ..*old(self) }),
    {
        let cell = self.user_message_inbox.history_cell(self.config.user_message_inbox_enabled);
        self.history.push(HistoryEntry::Inbox(cell));
        assert(self.history@.drop_last() =~= old(self).history@);
        self.redraw_requested = true;
    }

    /// Takes over the Codex++ configuration the application holds.
    pub fn sync_codex_plus_plus_settings_config(&mut self, config: WidgetConfig)
        ensures
            final(self).config == config,
            final(self).history@ == old(self).history@,
            final(self).views@ == old(self).views@,
            final(self).keeps_session(*old(self)),
            *final(self) == (ChatWidget { config, ..*old(self) }),
    {
        self.config = config;
    }

    /// The settings were saved as asked.
    pub fn codex_plus_plus_settings_persisted(
        &mut self,
        automatic: AutomaticAccountSelection,
        weekly: WeeklyUsageWindowAutoStart,
        capacity: ModelCapacityRetryMode,
        tool_activity: ToolActivityPresentation,
    )
        ensures
            final(self).config == (WidgetConfig {
                automatic_account_selection: automatic,
                weekly_usage_window_auto_start: weekly,
                model_capacity_retry_mode: capacity,
                tool_activity,
                ..old(self).config
            }),
            added_info(old(self).history@, final(self).history@, "Codex++ settings updated. Changes apply after restart."@),
            final(self).views@ == old(self).views@,
            final(self).keeps_session(*old(self)),
            *final(self) == (ChatWidget { config: final(self).config, history: final(self).history, ..*old(self) }),
    {
        self.config.automatic_account_selection = automatic;
        self.config.weekly_usage_window_auto_start = weekly;
        self.config.model_capacity_retry_mode = capacity;
        self.config.tool_activity = tool_activity;
        self.add_info_message(persistence_success_message());
    }

    /// Saving the settings failed.
    pub fn codex_plus_plus_settings_persistence_failed(&mut self, err: &str)
        ensures
            added_error(old(self).history@, final(self).history@, "Failed to update Codex++ settings: "@ + err@),
            final(self).config == old(self).config,
            final(self).views@ == old(self).views@,
            final(self).keeps_session(*old(self)),
            *final(self) == (ChatWidget { history: final(self).history, ..*old(self) }),
    {
        self.add_error_message(persistence_error_message(err));
    }

    /// Other configuration layers decide some settings; the widget takes
    /// the settings in effect.
    pub fn codex_plus_plus_settings_persistence_overridden(
        &mut self,
        automatic: AutomaticAccountSelection,
        weekly: WeeklyUsageWindowAutoStart,
        capacity: ModelCapacityRetryMode,
        tool_activity: ToolActivityPresentation,
    )
        ensures
            final(self).config == (WidgetConfig {
                automatic_account_selection: automatic,
                weekly_usage_window_auto_start: weekly,
                model_capacity_retry_mode: capacity,
                tool_activity,
                ..old(self).config
            }),
            added_error(old(self).history@, final(self).history@,
                "Some Codex++ settings are controlled elsewhere and were not changed."@),
            final(self).views@ == old(self).views@,
            final(self).keeps_session(*old(self)),
            *final(self) == (ChatWidget { config: final(self).config, history: final(self).history, ..*old(self) }),
    {
        self.config.automatic_account_selection = automatic;
        self.config.weekly_usage_window_auto_start = weekly;
        self.config.model_capacity_retry_mode = capacity;
        self.config.tool_activity = tool_activity;
        self.add_error_message(persistence_overridden_message());
    }

    /// The settings were saved but could not be checked.
    pub fn codex_plus_plus_settings_verification_failed(&mut self, err: &str)
        ensures
            added_error(old(self).history@, final(self).history@,
                "Codex++ settings were saved, but Codex could not verify them for this project: "@ + err@),
            final(self).config == old(self).config,
            final(self).views@ == old(self).views@,
            final(self).keeps_session(*old(self)),
            *final(self) == (ChatWidget { history: final(self).history, ..*old(self) }),
    {
        self.add_error_message(persistence_verification_failed_message(err));
    }
}

} // verus!
