use codex_plus_plus::account_settings::account_settings_params;
use codex_plus_plus::account_settings::saved_selection_cell;
use codex_plus_plus::account_settings::selection_write;
use codex_plus_plus::chat_widget::ActiveCell;
use codex_plus_plus::chat_widget::ActiveHook;
use codex_plus_plus::chat_widget::ChatWidget;
use codex_plus_plus::chat_widget::HistoryEntry;
use codex_plus_plus::chat_widget::WidgetConfig;
use codex_plus_plus::chat_widget::WidgetEvent;
use codex_plus_plus::compact_activity::compact_display_lines;
use codex_plus_plus::compact_activity::transient_status;
use codex_plus_plus::compact_activity::ActivityKind;
use codex_plus_plus::compact_activity::CommandSource;
use codex_plus_plus::compact_activity::CompactExecRendering;
use codex_plus_plus::compact_activity::CompactHiddenHistoryCell;
use codex_plus_plus::compact_activity::EntryLines;
use codex_plus_plus::compact_activity::compact_exec_lines;
use codex_plus_plus::compact_activity::CompactMainPresentation;
use codex_plus_plus::compact_activity::ExecCall;
use codex_plus_plus::compact_activity::HistoryRenderMode;
use codex_plus_plus::dcg_views::action_verb;
use codex_plus_plus::dcg_views::confirmation_params;
use codex_plus_plus::dcg_views::failure_params;
use codex_plus_plus::dcg_views::message_params;
use codex_plus_plus::dcg_views::progress_params;
use codex_plus_plus::dcg_views::settings_item as dcg_settings_item;
use codex_plus_plus::destructive_command_guard::action_succeeded;
use codex_plus_plus::destructive_command_guard::DcgAction;
use codex_plus_plus::destructive_command_guard::DcgChange;
use codex_plus_plus::destructive_command_guard::DcgStatus;
use codex_plus_plus::destructive_command_guard::DcgTarget;
use codex_plus_plus::destructive_command_guard::DcgUnsupportedReason;
use codex_plus_plus::destructive_command_guard::GitHubRelease;
use codex_plus_plus::destructive_command_guard::RepairReason;
use codex_plus_plus::history::HistoryCell;
use codex_plus_plus::selection::ItemAction;
use codex_plus_plus::selection::ViewId;
use codex_plus_plus::settings::codex_plus_plus_settings_params;
use codex_plus_plus::settings::effective_settings;
use codex_plus_plus::settings::persistence_error_message;
use codex_plus_plus::settings::persistence_overridden_message;
use codex_plus_plus::settings::persistence_success_message;
use codex_plus_plus::settings::persistence_verification_failed_message;
use codex_plus_plus::settings::readback_failure_cell;
use codex_plus_plus::settings::readback_cell;
use codex_plus_plus::settings::save_start;
use codex_plus_plus::settings::save_step;
use codex_plus_plus::settings::SaveAction;
use codex_plus_plus::settings::SaveEvent;
use codex_plus_plus::settings::SaveReport;
use codex_plus_plus::settings::SaveStage;
use codex_plus_plus::settings::UnconfirmedOptOuts;
use codex_plus_plus::account_automation::automation_saved_cell;
use codex_plus_plus::compact_activity::compact_main_lines;
use codex_plus_plus::app_state::refresh_after_usage_reset;
use codex_plus_plus::settings::request_honored;
use codex_plus_plus::settings::settings_writes;
use codex_plus_plus::settings::settings_hint_line;
use codex_plus_plus::settings::settings_list_accept_keys;
use codex_plus_plus::settings::settings_list_keymap;
use codex_plus_plus::settings::ListKeymap;
use codex_plus_plus::settings::row_events;
use codex_plus_plus::settings::RowEvent;
use codex_plus_plus::account_automation::AccountAutomationRow;
use codex_plus_plus::settings::unconfirmed_opt_outs;
use codex_plus_plus::settings::AutomaticAccountSelection;
use codex_plus_plus::settings::ConfigValue;
use codex_plus_plus::settings::ConfigWrite;
use codex_plus_plus::settings::ModelCapacityRetryMode;
use codex_plus_plus::settings::SettingKey;
use codex_plus_plus::settings::SettingsRequest;
use codex_plus_plus::settings::EffectiveSettings;
use codex_plus_plus::settings::SettingsToggles;
use codex_plus_plus::settings::ToolActivityPresentation;
use codex_plus_plus::settings::UserMessageInbox;
use codex_plus_plus::settings::WeeklyUsageWindowAutoStart;
use codex_plus_plus::auto_redeem_resets::AutoRedeemResets;
use codex_plus_plus::usage_reset_resume::UsageResetState;
use codex_plus_plus::user_message_inbox::UserMessageInboxState;

fn keys(accept: &[&str], cancel: &[&str]) -> ListKeymap {
    ListKeymap {
        accept: accept.iter().map(|k| k.to_string()).collect(),
        cancel: cancel.iter().map(|k| k.to_string()).collect(),
    }
}

fn toggles(automatic: AutomaticAccountSelection, weekly: WeeklyUsageWindowAutoStart, capacity: ModelCapacityRetryMode) -> SettingsToggles {
    SettingsToggles::initial(automatic, weekly, false, capacity, false, ToolActivityPresentation::Full)
}

#[test]
fn settings_view_lists_the_visible_settings() {
    let t = toggles(AutomaticAccountSelection::Enabled, WeeklyUsageWindowAutoStart::Enabled, ModelCapacityRetryMode::Bounded);
    let view = codex_plus_plus_settings_params(t, true, None, &settings_list_keymap(&keys(&["enter"], &["esc"])));
    let names: Vec<&str> = view.items.iter().map(|i| i.name.as_str()).collect();
    assert_eq!(
        names,
        vec![
            "Automatic account selection",
            "Start unused weekly windows",
            "Auto-redeem usage resets (Experimental)",
            "Keep retrying at capacity",
            "Compact tool activity",
            "Agent inbox messages (Experimental)",
        ]
    );
    assert_eq!(view.title.as_deref(), Some("Codex++ Settings"));
    assert_eq!(view.footer_hint.as_deref(), Some("Press space to toggle; enter to save or manage; esc to cancel"));
    let unsupported = codex_plus_plus_settings_params(t, false, Some(DcgStatus::NotInstalled), &keys(&[], &[]));
    assert_eq!(unsupported.items.len(), 5);
    assert_eq!(unsupported.items[0].name, "Destructive Command Guard \u{b7} Not installed");
}

#[test]
fn unsupported_settings_save_only_the_visible_settings() {
    let mut t = toggles(AutomaticAccountSelection::Disabled, WeeklyUsageWindowAutoStart::Enabled, ModelCapacityRetryMode::Bounded);
    t.set(SettingKey::Automatic, true);
    assert_eq!(
        t.request(false),
        SettingsRequest {
            automatic_account_selection: AutomaticAccountSelection::Enabled,
            weekly_usage_window_auto_start: None,
            auto_redeem_resets: None,
            model_capacity_retry_mode: Some(ModelCapacityRetryMode::Bounded),
            user_message_inbox: UserMessageInbox::Disabled,
            tool_activity: ToolActivityPresentation::Full,
        }
    );
}

#[test]
fn weekly_setting_saves_full_selection() {
    let mut t = toggles(AutomaticAccountSelection::Enabled, WeeklyUsageWindowAutoStart::Enabled, ModelCapacityRetryMode::Bounded);
    t.set(SettingKey::Weekly, false);
    assert_eq!(
        t.request(true),
        SettingsRequest {
            automatic_account_selection: AutomaticAccountSelection::Enabled,
            weekly_usage_window_auto_start: Some(WeeklyUsageWindowAutoStart::Disabled),
            auto_redeem_resets: Some(false),
            model_capacity_retry_mode: Some(ModelCapacityRetryMode::Bounded),
            user_message_inbox: UserMessageInbox::Disabled,
            tool_activity: ToolActivityPresentation::Full,
        }
    );
}

#[test]
fn capacity_setting_saves_indefinite_mode() {
    let mut t = toggles(AutomaticAccountSelection::Enabled, WeeklyUsageWindowAutoStart::Enabled, ModelCapacityRetryMode::Bounded);
    t.set(SettingKey::CapacityIndefinite, true);
    t.set(SettingKey::CompactToolActivity, true);
    let request = t.request(true);
    assert_eq!(request.model_capacity_retry_mode, Some(ModelCapacityRetryMode::Indefinite));
    assert_eq!(request.tool_activity, ToolActivityPresentation::Compact);
    assert_eq!(request.weekly_usage_window_auto_start, Some(WeeklyUsageWindowAutoStart::Enabled));
}

fn text(key: &str, value: &str) -> ConfigWrite {
    ConfigWrite::Replace { key: key.to_string(), value: ConfigValue::Text(value.to_string()) }
}

#[test]
fn saving_writes_each_requested_setting_in_order() {
    let request = SettingsRequest {
        automatic_account_selection: AutomaticAccountSelection::Disabled,
        weekly_usage_window_auto_start: Some(WeeklyUsageWindowAutoStart::Enabled),
        auto_redeem_resets: Some(true),
        model_capacity_retry_mode: Some(ModelCapacityRetryMode::Indefinite),
        user_message_inbox: UserMessageInbox::Enabled,
        tool_activity: ToolActivityPresentation::Compact,
    };
    assert_eq!(
        settings_writes(request, None),
        vec![
            text("automatic_account_selection", "disabled"),
            text("weekly_usage_window_auto_start", "enabled"),
            ConfigWrite::Replace { key: "auto_redeem_resets".to_string(), value: ConfigValue::AutoRedeem(AutoRedeemResets::default()) },
            text("model_capacity_retry_mode", "indefinite"),
            text("user_message_inbox", "enabled"),
            text("codex_plus_plus_tool_activity", "compact"),
        ]
    );
    let off = SettingsRequest { weekly_usage_window_auto_start: None, auto_redeem_resets: Some(false), model_capacity_retry_mode: None, ..request };
    assert_eq!(
        settings_writes(off, None),
        vec![
            text("automatic_account_selection", "disabled"),
            ConfigWrite::Clear { key: "auto_redeem_resets".to_string() },
            text("user_message_inbox", "enabled"),
            text("codex_plus_plus_tool_activity", "compact"),
        ]
    );
    let kept = AutoRedeemResets { before_expiry_minutes: 5, weekly_exhausted_min_wait_hours: 6 };
    assert_eq!(
        settings_writes(request, Some(kept))[2],
        ConfigWrite::Replace { key: "auto_redeem_resets".to_string(), value: ConfigValue::AutoRedeem(kept) }
    );
}

#[test]
fn failed_verification_applies_opt_outs_without_enabling_triggers() {
    let request = SettingsRequest {
        automatic_account_selection: AutomaticAccountSelection::Enabled,
        weekly_usage_window_auto_start: Some(WeeklyUsageWindowAutoStart::Disabled),
        auto_redeem_resets: Some(false),
        model_capacity_retry_mode: None,
        user_message_inbox: UserMessageInbox::Disabled,
        tool_activity: ToolActivityPresentation::Full,
    };
    let opt_outs = unconfirmed_opt_outs(&request);
    assert!(opt_outs.disable_weekly && opt_outs.clear_auto_redeem);
    let turning_on = SettingsRequest {
        weekly_usage_window_auto_start: Some(WeeklyUsageWindowAutoStart::Enabled),
        auto_redeem_resets: Some(true),
        ..request
    };
    let opt_outs = unconfirmed_opt_outs(&turning_on);
    assert!(!opt_outs.disable_weekly && !opt_outs.clear_auto_redeem);
}

#[test]
fn effective_settings_keep_defaults_unless_set_exactly() {
    let effective = effective_settings(Some("disabled"), None, Some("indefinite"), Some("enabled"), Some("Compact"));
    assert_eq!(effective.automatic, AutomaticAccountSelection::Disabled);
    assert_eq!(effective.weekly, WeeklyUsageWindowAutoStart::Enabled);
    assert_eq!(effective.capacity, ModelCapacityRetryMode::Indefinite);
    assert_eq!(effective.user_message_inbox, UserMessageInbox::Enabled);
    assert_eq!(effective.tool_activity, ToolActivityPresentation::Full);

    let request = SettingsRequest {
        automatic_account_selection: AutomaticAccountSelection::Disabled,
        weekly_usage_window_auto_start: None,
        auto_redeem_resets: Some(true),
        model_capacity_retry_mode: Some(ModelCapacityRetryMode::Indefinite),
        user_message_inbox: UserMessageInbox::Enabled,
        tool_activity: ToolActivityPresentation::Full,
    };
    assert!(request_honored(&request, &effective, true));
    assert!(!request_honored(&request, &effective, false));
}

#[test]
fn persistence_messages_snapshot() {
    assert_eq!(
        [
            persistence_success_message(),
            persistence_error_message("permission denied"),
            persistence_overridden_message(),
            persistence_verification_failed_message("connection closed"),
        ]
        .join("\n"),
        "Codex++ settings updated. Changes apply after restart.\n\
         Failed to update Codex++ settings: permission denied\n\
         Some Codex++ settings are controlled elsewhere and were not changed.\n\
         Codex++ settings were saved, but Codex could not verify them for this project: connection closed"
    );
    assert_eq!(
        readback_failure_cell(Some("write failed"), "read failed"),
        HistoryCell::Error {
            message: "Failed to update Codex++ settings: write failed; unable to reconcile effective settings: read failed".to_string()
        }
    );
    assert_eq!(
        codex_plus_plus::account_settings::persistence_success_message(AutomaticAccountSelection::Disabled),
        "Automatic account selection disabled. Restart Codex to use this setting."
    );
}

#[test]
fn account_settings_mark_the_current_choice() {
    let view = account_settings_params(AutomaticAccountSelection::Disabled);
    assert_eq!(view.subtitle.as_deref(), Some("Automatic account selection is disabled. Restart Codex to use changes."));
    assert!(!view.items[0].is_current && view.items[1].is_current);
    assert_eq!(view.items[1].action, Some(ItemAction::PersistAutomaticAccountSelection(AutomaticAccountSelection::Disabled)));
}

#[test]
fn dcg_views_snapshot() {
    let item = dcg_settings_item(DcgStatus::NotInstalled, false);
    assert_eq!(item.action, Some(ItemAction::SaveSettings { save_weekly: false, then: Some(DcgAction::InstallAndEnable) }));
    let staged = toggles(AutomaticAccountSelection::Disabled, WeeklyUsageWindowAutoStart::Disabled, ModelCapacityRetryMode::Bounded);
    assert_eq!(
        row_events(item.action.unwrap(), &staged),
        vec![
            RowEvent::PersistCodexPlusPlusSettings(SettingsRequest {
                automatic_account_selection: AutomaticAccountSelection::Disabled,
                weekly_usage_window_auto_start: None,
                auto_redeem_resets: None,
                model_capacity_retry_mode: Some(ModelCapacityRetryMode::Bounded),
                user_message_inbox: UserMessageInbox::Disabled,
                tool_activity: ToolActivityPresentation::Full,
            }),
            RowEvent::OpenDcgInstallConfirmation,
        ]
    );
    let states = [
        DcgStatus::NotInstalled,
        DcgStatus::Enabled("0.6.8-codexpp.1".to_string()),
        DcgStatus::Disabled("0.6.8-codexpp.1".to_string()),
        DcgStatus::UpdateAvailable { installed_version: Some("0.6.7".to_string()), target_version: "0.6.8".to_string() },
        DcgStatus::ExternalInstallation("0.6.8".to_string()),
        DcgStatus::NeedsRepair(RepairReason::HookUntrusted),
        DcgStatus::NeedsRepair(RepairReason::StatusUnavailable),
        DcgStatus::Unsupported(DcgUnsupportedReason::Platform),
    ];
    let rendered: Vec<String> = states
        .into_iter()
        .map(|status| {
            let item = dcg_settings_item(status, false);
            format!("{} | {} action(s)", item.name, usize::from(item.action.is_some()))
        })
        .collect();
    assert_eq!(
        rendered.join(" || "),
        "Destructive Command Guard \u{b7} Not installed | 1 action(s) || \
         Destructive Command Guard \u{b7} Enabled \u{b7} 0.6.8-codexpp.1 | 1 action(s) || \
         Destructive Command Guard \u{b7} Disabled \u{b7} 0.6.8-codexpp.1 | 1 action(s) || \
         Destructive Command Guard \u{b7} Update available \u{b7} 0.6.8 | 1 action(s) || \
         Destructive Command Guard \u{b7} External installation | 0 action(s) || \
         Destructive Command Guard \u{b7} Needs repair | 1 action(s) || \
         Destructive Command Guard \u{b7} Needs repair | 0 action(s) || \
         Destructive Command Guard \u{b7} Unsupported on this platform | 0 action(s)"
    );
    let summarize = |params: codex_plus_plus::selection::SelectionViewParams| {
        let items = params
            .items
            .into_iter()
            .map(|item| format!("{}|{}", item.name, item.description.unwrap_or_default()))
            .collect::<Vec<_>>()
            .join("\n");
        format!("{}\n{items}", params.title.unwrap_or_default())
    };
    let flow = [confirmation_params(), progress_params(DcgAction::InstallAndEnable), failure_params()]
        .map(summarize)
        .join("\n");
    assert_eq!(
        flow,
        "Install Destructive Command Guard?\n\
         Install and enable|Review destructive shell commands with Guardian.\n\
         Cancel|\n\
         Destructive Command Guard\n\
         Installing and enabling\u{2026}|Working\u{2026}\n\
         Destructive Command Guard\n\
         Operation failed|The operation did not finish. Try again."
    );
    let progress = progress_params(DcgAction::Update);
    assert_eq!(progress.view_id, Some(ViewId::DcgOperationProgress));
    assert!(!progress.allow_cancel);
    assert!(message_params("x".to_string(), "y").items[0].is_disabled);
    assert_eq!(action_verb(DcgAction::Repair(RepairReason::PluginMissing)), "Repairing");
}

#[test]
fn release_metadata_accepts_only_eligible_owned_channel() {
    let release = |tag: &str, draft: bool, prerelease: bool| GitHubRelease {
        tag_name: tag.to_string(),
        draft,
        prerelease,
        published_at: None,
    };
    let releases = vec![
        release("v0.7.0", false, false),
        release("v0.6.10-codexpp.1", true, false),
        release("v0.6.10-codexpp.1", false, true),
        release("v0.6.9-codexpp.1", false, false),
    ];
    let expected = DcgTarget::from_tag("v0.6.9-codexpp.1");
    assert_eq!(DcgTarget::from_releases(&releases), expected);
    assert_eq!(expected.map(|t| t.precedence), Some([0, 6, 9, 1]));
}

#[test]
fn dcg_actions_succeed_only_in_their_goal_state() {
    assert!(action_succeeded(DcgAction::Disable, &DcgStatus::Disabled("1".to_string())));
    assert!(!action_succeeded(DcgAction::Enable, &DcgStatus::Disabled("1".to_string())));
    assert!(action_succeeded(DcgAction::Update, &DcgStatus::Disabled("1".to_string())));
}

fn agent(exit_code: Option<i32>) -> ExecCall {
    ExecCall { source: CommandSource::Agent, exit_code }
}

#[test]
fn compact_tool_activity_preserves_failures_shell_and_transcript() {
    assert_eq!(compact_display_lines(true, false, &vec![agent(None)]), CompactExecRendering::CommandWithoutOutput);
    assert_eq!(compact_display_lines(false, false, &vec![agent(Some(0))]), CompactExecRendering::Hidden);
    assert_eq!(
        compact_display_lines(false, true, &vec![agent(Some(1))]),
        CompactExecRendering::ExplorationFailed { failed_call: Some(0) }
    );
    let shell = ExecCall { source: CommandSource::UserShell, exit_code: Some(0) };
    assert_eq!(compact_display_lines(false, true, &vec![shell]), CompactExecRendering::Full);
    let interaction = ExecCall { source: CommandSource::UnifiedExecInteraction, exit_code: Some(0) };
    assert_eq!(compact_display_lines(false, true, &vec![interaction]), CompactExecRendering::Full);
}

#[test]
fn transient_status_skips_the_bullet() {
    let lines = vec![
        vec![],
        vec!["\u{2022}".to_string(), " ".to_string(), "Running ".to_string(), "cargo check ".to_string()],
    ];
    assert_eq!(transient_status(&lines).as_deref(), Some("Running cargo check"));
    assert_eq!(transient_status(&vec![vec!["  ".to_string()]]), None);
    assert_eq!(transient_status(&vec![vec!["plain".to_string()]]).as_deref(), Some("plain"));
}

#[test]
fn hidden_cells_disappear_only_in_compact_mode() {
    let cell = CompactHiddenHistoryCell::new(EntryLines {
        display: vec!["rich".to_string()],
        raw: vec!["raw".to_string()],
        transcript: vec!["full transcript".to_string()],
    });
    assert!(cell.display_lines_for_mode(HistoryRenderMode::CompactToolActivity).is_empty());
    assert_eq!(cell.display_lines_for_mode(HistoryRenderMode::Rich), vec!["rich".to_string()]);
    assert_eq!(cell.display_lines_for_mode(HistoryRenderMode::Raw), vec!["raw".to_string()]);
    assert_eq!(cell.transcript_lines(), vec!["full transcript".to_string()]);
    assert_eq!(cell.raw_lines(), vec!["raw".to_string()]);
}

fn widget() -> ChatWidget {
    ChatWidget {
        config: WidgetConfig {
            automatic_account_selection: AutomaticAccountSelection::Enabled,
            weekly_usage_window_auto_start: WeeklyUsageWindowAutoStart::Enabled,
            model_capacity_retry_mode: ModelCapacityRetryMode::Bounded,
            tool_activity: ToolActivityPresentation::Compact,
            auto_redeem_configured: false,
            user_message_inbox_enabled: true,
        },
        weekly_start_supported: true,
        raw_output_mode: false,
        status_indicator_visible: false,
        status_header: "Working".to_string(),
        active_hook: None,
        active_cell: None,
        history: Vec::new(),
        views: Vec::new(),
        settings_toggles: toggles(AutomaticAccountSelection::Disabled, WeeklyUsageWindowAutoStart::Disabled, ModelCapacityRetryMode::Bounded),
        automation_choices: Vec::new(),
        list_keys: keys(&["space", "enter"], &["esc"]),
        redraw_requested: false,
        queue_autosend_suppressed: false,
        events: Vec::new(),
        usage_reset: UsageResetState::new(),
        user_message_inbox: UserMessageInboxState::new(),
    }
}

#[test]
fn compact_history_policy_keeps_complete_transcript_and_raw_output() {
    let mut chat = widget();
    chat.raw_output_mode = true;
    let exec = ActivityKind::Exec { active: false, exploring: false, calls: vec![agent(Some(0))] };
    assert_eq!(chat.compact_history_cell(&exec), None);
    chat.raw_output_mode = false;
    assert_eq!(chat.compact_history_cell(&exec), Some(CompactMainPresentation::Hidden));
    assert_eq!(chat.compact_history_cell(&ActivityKind::Patch), Some(CompactMainPresentation::FirstLine));

    chat.active_cell = Some(ActiveCell {
        kind: ActivityKind::McpToolCall { active: false, success: Some(true) },
        lines: vec![vec!["\u{2022}".to_string(), " ".to_string(), "Called workspace.inspect".to_string()]],
    });
    chat.retain_fast_compact_completion_status();
    assert_eq!(chat.status_header, "Called workspace.inspect");

    chat.ensure_compact_activity_status();
    assert!(chat.status_indicator_visible);
    assert_eq!(chat.compact_transient_status(), None);
    chat.active_cell = Some(ActiveCell {
        kind: ActivityKind::WebSearch { active: true, completed: false },
        lines: vec![vec!["Searching".to_string()]],
    });
    assert_eq!(chat.compact_transient_status().as_deref(), Some("Searching"));
    chat.active_hook = Some(ActiveHook { should_render: true, compact_status: Some("Hook".to_string()) });
    assert_eq!(chat.compact_transient_status().as_deref(), Some("Hook"));
}

#[test]
fn dcg_progress_views_close_in_order() {
    let mut chat = widget();
    chat.show_dcg_progress(DcgAction::Enable);
    chat.finish_dcg_action(DcgAction::Enable, Some(DcgChange {
        status: DcgStatus::Enabled("1.0".to_string()),
        takes_effect_in_current_session: false,
    }));
    assert_eq!(chat.views.len(), 1);
    assert_eq!(chat.views[0].title.as_deref(), Some("Codex++ Settings"));
    assert_eq!(
        chat.history,
        vec![HistoryEntry::Message(HistoryCell::Info {
            message: "Destructive Command Guard settings updated. Changes apply to new sessions.".to_string(),
            hint: None,
        })]
    );
    assert!(chat.settings_toggles.automatic && chat.settings_toggles.weekly);

    chat.show_dcg_progress(DcgAction::Update);
    chat.finish_dcg_action(DcgAction::Update, None);
    assert_eq!(chat.views.len(), 2);
    assert_eq!(chat.views[1].items[0].name, "Operation failed");

    chat.show_dcg_progress(DcgAction::Disable);
    chat.open_dcg_install_confirmation();
    chat.finish_dcg_action(DcgAction::Disable, None);
    assert_eq!(chat.views.len(), 3);
    assert_eq!(chat.views[2].title.as_deref(), Some("Install Destructive Command Guard?"));

    chat.show_dcg_status_progress();
    chat.finish_dcg_status_detection(DcgStatus::NotInstalled);
    assert_eq!(chat.views.len(), 4);
    assert_eq!(chat.views[3].items[0].name, "Destructive Command Guard \u{b7} Not installed");
}

#[test]
fn widget_reports_settings_and_accounts() {
    let mut chat = widget();
    chat.codex_plus_plus_settings_persistence_failed("denied");
    chat.automatic_account_selection_persistence_overridden(AutomaticAccountSelection::Disabled);
    assert_eq!(chat.config.automatic_account_selection, AutomaticAccountSelection::Disabled);
    chat.open_accounts_popup();
    assert!(chat.queue_autosend_suppressed);
    assert_eq!(chat.events, vec![WidgetEvent::OpenCodexPlusPlusAccounts]);
    chat.open_accounts_popup_with_statuses(None);
    chat.open_accounts_popup_with_statuses(Some(Vec::new()));
    chat.show_user_message_inbox();
    let messages: Vec<String> = chat
        .history
        .iter()
        .filter_map(|entry| match entry {
            HistoryEntry::Message(HistoryCell::Error { message }) => Some(message.clone()),
            HistoryEntry::Message(HistoryCell::Info { message, .. }) => Some(message.clone()),
            _ => None,
        })
        .collect();
    assert_eq!(
        messages,
        vec![
            "Failed to update Codex++ settings: denied".to_string(),
            "Automatic account selection remains disabled because this setting is controlled elsewhere.".to_string(),
            "Could not load accounts.".to_string(),
            "No imported accounts found.".to_string(),
        ]
    );
    assert!(matches!(chat.history.last(), Some(HistoryEntry::Inbox(cell)) if cell.enabled));
}

#[test]
fn row_actions_send_their_events_in_order() {
    let staged = toggles(AutomaticAccountSelection::Enabled, WeeklyUsageWindowAutoStart::Enabled, ModelCapacityRetryMode::Indefinite);
    let request = staged.request(true);
    assert_eq!(request.weekly_usage_window_auto_start, Some(WeeklyUsageWindowAutoStart::Enabled));
    assert_eq!(
        row_events(ItemAction::SaveSettings { save_weekly: true, then: None }, &staged),
        vec![RowEvent::PersistCodexPlusPlusSettings(request)]
    );
    assert_eq!(
        row_events(ItemAction::SaveSettings { save_weekly: true, then: Some(DcgAction::Disable) }, &staged),
        vec![RowEvent::PersistCodexPlusPlusSettings(request), RowEvent::ManageDcg(DcgAction::Disable)]
    );
    assert_eq!(row_events(ItemAction::ManageDcg(DcgAction::Update), &staged), vec![RowEvent::ManageDcg(DcgAction::Update)]);
    assert_eq!(row_events(ItemAction::SaveAccountAutomation, &staged), vec![RowEvent::SaveAccountAutomation]);
    assert_eq!(
        row_events(ItemAction::PersistAutomaticAccountSelection(AutomaticAccountSelection::Disabled), &staged),
        vec![RowEvent::PersistAutomaticAccountSelection(AutomaticAccountSelection::Disabled)]
    );
}

#[test]
fn settings_and_account_views_show_the_key_hint() {
    let mut chat = widget();
    chat.open_codex_plus_plus_popup(DcgStatus::NotInstalled);
    assert_eq!(
        chat.views.last().and_then(|v| v.footer_hint.clone()).as_deref(),
        Some("Press space to toggle; enter to save or manage; esc to cancel")
    );
    chat.open_accounts_popup_with_statuses(Some(vec![AccountAutomationRow {
        id: "acct".to_string(),
        label: "work".to_string(),
        enabled: true,
        automation_enabled: true,
        login_required: false,
        is_current: true,
        in_use: false,
        weekly_status: None,
    }]));
    let view = chat.views.last().unwrap();
    assert_eq!(view.title.as_deref(), Some("Account Automation"));
    assert_eq!(view.footer_hint.as_deref(), Some("Press space to toggle; enter to save or manage; esc to cancel"));
}

#[test]
fn settings_hint_uses_list_keymap() {
    let keymap = settings_list_keymap(&keys(&["space"], &["q"]));
    assert_eq!(
        settings_hint_line(&keymap.accept, &keymap.cancel),
        "Press space to toggle; enter to save or manage; q to cancel"
    );
    let accept = settings_list_accept_keys(&vec!["space".to_string(), "tab".to_string()]);
    assert_eq!(accept, vec!["tab".to_string()]);
    assert_eq!(settings_hint_line(&Vec::new(), &Vec::new()), "Press space to toggle");
}

#[test]
fn accounts_view_saves_the_selection_label_and_reports_the_outcome() {
    assert_eq!(
        selection_write(AutomaticAccountSelection::Disabled),
        codex_plus_plus::settings::ConfigWrite::Replace {
            key: "automatic_account_selection".to_string(),
            value: codex_plus_plus::settings::ConfigValue::Text("disabled".to_string()),
        }
    );
    assert_eq!(
        saved_selection_cell(AutomaticAccountSelection::Enabled, &Ok(())),
        codex_plus_plus::history::HistoryCell::Info {
            message: "Automatic account selection enabled. Restart Codex to use this setting.".to_string(),
            hint: None,
        }
    );
    assert_eq!(
        saved_selection_cell(AutomaticAccountSelection::Enabled, &Err("disk full".to_string())),
        codex_plus_plus::history::HistoryCell::Error {
            message: "Failed to update automatic account selection: disk full".to_string(),
        }
    );
}

#[test]
fn selection_dispatches_persistence_event() {
    let params = account_settings_params(AutomaticAccountSelection::Enabled);
    let action = params.items[1].action.clone().expect("selection action");
    assert!(matches!(
        action,
        ItemAction::PersistAutomaticAccountSelection(AutomaticAccountSelection::Disabled)
    ));
}

#[test]
fn widget_takes_saved_settings_and_reports_unverified_saves() {
    let mut chat = widget();
    chat.automatic_account_selection_persisted(AutomaticAccountSelection::Disabled);
    chat.automatic_account_selection_verification_failed("timeout");
    chat.codex_plus_plus_settings_persisted(
        AutomaticAccountSelection::Enabled,
        WeeklyUsageWindowAutoStart::Disabled,
        ModelCapacityRetryMode::Indefinite,
        ToolActivityPresentation::Full,
    );
    assert_eq!(chat.config.automatic_account_selection, AutomaticAccountSelection::Enabled);
    assert_eq!(chat.config.weekly_usage_window_auto_start, WeeklyUsageWindowAutoStart::Disabled);
    assert_eq!(chat.config.model_capacity_retry_mode, ModelCapacityRetryMode::Indefinite);
    assert_eq!(chat.config.tool_activity, ToolActivityPresentation::Full);
    assert!(chat.config.user_message_inbox_enabled);
    chat.codex_plus_plus_settings_persistence_overridden(
        AutomaticAccountSelection::Disabled,
        WeeklyUsageWindowAutoStart::Enabled,
        ModelCapacityRetryMode::Bounded,
        ToolActivityPresentation::Compact,
    );
    chat.codex_plus_plus_settings_verification_failed("offline");
    let mut synced = chat.config;
    synced.auto_redeem_configured = true;
    chat.sync_codex_plus_plus_settings_config(synced);
    assert_eq!(chat.config, synced);
    assert_eq!(
        chat.history,
        vec![
            HistoryEntry::Message(HistoryCell::Info {
                message: "Automatic account selection disabled. Restart Codex to use this setting.".to_string(),
                hint: None,
            }),
            HistoryEntry::Message(HistoryCell::Error {
                message: "Automatic account selection was saved, but Codex could not verify it for this project: timeout".to_string(),
            }),
            HistoryEntry::Message(HistoryCell::Info {
                message: "Codex++ settings updated. Changes apply after restart.".to_string(),
                hint: None,
            }),
            HistoryEntry::Message(HistoryCell::Error {
                message: "Some Codex++ settings are controlled elsewhere and were not changed.".to_string(),
            }),
            HistoryEntry::Message(HistoryCell::Error {
                message: "Codex++ settings were saved, but Codex could not verify them for this project: offline".to_string(),
            }),
        ]
    );
    assert!(chat.views.is_empty());
}

#[test]
fn save_reports_read_as_the_original_messages() {
    assert_eq!(
        readback_cell(true),
        HistoryCell::Info { message: "Codex++ settings updated. Changes apply after restart.".to_string(), hint: None }
    );
    assert_eq!(
        readback_cell(false),
        HistoryCell::Error { message: "Some Codex++ settings are controlled elsewhere and were not changed.".to_string() }
    );
    assert_eq!(
        automation_saved_cell(true),
        HistoryCell::Info { message: "Account automation settings updated.".to_string(), hint: None }
    );
    assert_eq!(
        automation_saved_cell(false),
        HistoryCell::Error {
            message: "Could not update all account automation settings. Reopen /accounts to view saved settings.".to_string(),
        }
    );
}

#[test]
fn compacted_entries_keep_at_most_their_first_line() {
    assert_eq!(compact_main_lines(CompactMainPresentation::FirstLine, vec![1, 2, 3]), vec![1]);
    assert_eq!(compact_main_lines(CompactMainPresentation::FirstLine, Vec::<u8>::new()), Vec::<u8>::new());
    assert_eq!(compact_main_lines(CompactMainPresentation::Hidden, vec![1, 2]), Vec::<i32>::new());
}

#[test]
fn usage_reset_refresh_needs_a_thread_and_a_waiting_turn() {
    let mut chat = widget();
    let thread = codex_plus_plus::user_message_inbox::ThreadId { value: 3 };
    assert_eq!(refresh_after_usage_reset(Some(thread), &chat, 5_000), None);
    chat.usage_reset.agent_turn_running = true;
    chat.usage_reset.last_turn_id = Some("t".to_string());
    chat.usage_reset.observe_usage_reset_turn_at(
        &codex_plus_plus::usage_reset_resume::ServerNotification::Error {
            turn_id: "t".to_string(),
            will_retry: false,
            usage_limit_exceeded: true,
        },
        5_000,
    );
    chat.usage_reset.agent_turn_running = false;
    assert_eq!(refresh_after_usage_reset(None, &chat, 5_000), None);
    assert_eq!(refresh_after_usage_reset(Some(thread), &chat, 5_000), Some((thread, "t".to_string())));
}

fn opting_out() -> SettingsRequest {
    SettingsRequest {
        automatic_account_selection: AutomaticAccountSelection::Enabled,
        weekly_usage_window_auto_start: Some(WeeklyUsageWindowAutoStart::Disabled),
        auto_redeem_resets: Some(false),
        model_capacity_retry_mode: None,
        user_message_inbox: UserMessageInbox::Disabled,
        tool_activity: ToolActivityPresentation::Full,
    }
}

fn effective_of(request: SettingsRequest) -> EffectiveSettings {
    EffectiveSettings {
        automatic: request.automatic_account_selection,
        weekly: request.weekly_usage_window_auto_start.unwrap_or(WeeklyUsageWindowAutoStart::Enabled),
        capacity: request.model_capacity_retry_mode.unwrap_or(ModelCapacityRetryMode::Bounded),
        user_message_inbox: request.user_message_inbox,
        tool_activity: request.tool_activity,
    }
}

#[test]
fn a_save_is_judged_by_what_reads_back_not_by_the_write() {
    let request = opting_out();
    let (stage, action) = save_start(request, None);
    assert_eq!(action, SaveAction::Write(settings_writes(request, None)));
    let (stage, action) = save_step(stage, SaveEvent::Written(Err("timeout".to_string())));
    assert_eq!(action, SaveAction::ReadBack);
    let effective = effective_of(request);
    let (stage, action) = save_step(stage, SaveEvent::ReadBack(Ok(effective)));
    assert_eq!(action, SaveAction::ApplyAndReload(effective));
    let (stage, action) = save_step(stage.clone(), SaveEvent::Reloaded(Ok(false)));
    assert_eq!(stage, SaveStage::Done);
    assert_eq!(
        action,
        SaveAction::Finish {
            opt_outs: UnconfirmedOptOuts { disable_weekly: false, clear_auto_redeem: false },
            synchronize: true,
            report: SaveReport::Persisted(effective),
        }
    );

    // Automatic redemption still configured although the save turned it off.
    let (stage, _) = save_start(request, None);
    let (stage, _) = save_step(stage, SaveEvent::Written(Ok(())));
    let (stage, _) = save_step(stage, SaveEvent::ReadBack(Ok(effective)));
    let (_, action) = save_step(stage, SaveEvent::Reloaded(Ok(true)));
    assert!(matches!(action, SaveAction::Finish { report: SaveReport::Overridden(e), .. } if e == effective));
}

#[test]
fn an_unconfirmed_save_only_opts_out() {
    let request = opting_out();
    let opt_outs = UnconfirmedOptOuts { disable_weekly: true, clear_auto_redeem: true };
    let (stage, _) = save_start(request, None);
    let (reading, _) = save_step(stage, SaveEvent::Written(Err("denied".to_string())));
    let (_, action) = save_step(reading, SaveEvent::ReadBack(Err("offline".to_string())));
    assert_eq!(
        action,
        SaveAction::Finish {
            opt_outs,
            synchronize: true,
            report: SaveReport::PersistenceFailed("denied; unable to reconcile effective settings: offline".to_string()),
        }
    );
    let (stage, _) = save_start(request, None);
    let (reading, _) = save_step(stage, SaveEvent::Written(Ok(())));
    let (_, action) = save_step(reading, SaveEvent::ReadBack(Err("offline".to_string())));
    assert_eq!(
        action,
        SaveAction::Finish { opt_outs, synchronize: true, report: SaveReport::VerificationFailed("offline".to_string()) }
    );
    let turning_on = SettingsRequest {
        weekly_usage_window_auto_start: Some(WeeklyUsageWindowAutoStart::Enabled),
        auto_redeem_resets: Some(true),
        ..request
    };
    let (stage, _) = save_start(turning_on, None);
    let (stage, _) = save_step(stage, SaveEvent::Written(Ok(())));
    let (stage, _) = save_step(stage, SaveEvent::ReadBack(Ok(effective_of(turning_on))));
    let (_, action) = save_step(stage, SaveEvent::Reloaded(Err("parse error".to_string())));
    assert_eq!(
        action,
        SaveAction::Finish {
            opt_outs: UnconfirmedOptOuts { disable_weekly: false, clear_auto_redeem: false },
            synchronize: false,
            report: SaveReport::VerificationFailed("parse error".to_string()),
        }
    );
}

fn lines(items: &[&str]) -> Vec<String> {
    items.iter().map(|item| item.to_string()).collect()
}

#[test]
fn compacted_entries_keep_raw_lines_and_transcript() {
    let chat = widget();
    let patch = EntryLines {
        display: lines(&["\u{2022} Edited src/lib.rs", "  +1 -1"]),
        raw: lines(&["raw patch"]),
        transcript: lines(&["\u{2022} Edited src/lib.rs", "  +1 -1", "diff"]),
    };
    let shown = chat.compact_history_entry(&ActivityKind::Patch, patch.clone());
    assert_eq!(shown.display, lines(&["\u{2022} Edited src/lib.rs"]));
    assert_eq!((shown.raw, shown.transcript), (patch.raw.clone(), patch.transcript.clone()));

    let search = ActivityKind::WebSearch { active: false, completed: true };
    let shown = chat.compact_history_entry(&search, patch.clone());
    assert!(shown.display.is_empty());
    assert_eq!(shown.transcript, patch.transcript);

    let mut full = widget();
    full.raw_output_mode = true;
    assert_eq!(full.compact_history_entry(&search, patch.clone()), patch);
}

#[test]
fn finished_command_output_stays_in_the_transcript() {
    let routine = EntryLines {
        display: lines(&["\u{2022} Ran cargo check", "  \u{2514} final output"]),
        raw: lines(&["$ cargo check", "final output"]),
        transcript: lines(&["\u{2022} Ran cargo check", "  \u{2514} final output"]),
    };
    let running = compact_exec_lines(true, false, &vec![agent(None)], routine.clone(), lines(&["\u{2022} Running cargo check"]));
    assert_eq!(running.display, lines(&["\u{2022} Running cargo check"]));
    let done = compact_exec_lines(false, false, &vec![agent(Some(0))], routine.clone(), Vec::new());
    assert!(done.display.is_empty());
    assert!(done.transcript.iter().any(|line| line.contains("final output")));
    assert_eq!(done.raw, routine.raw);
    let failed = compact_exec_lines(false, false, &vec![agent(Some(1))], routine.clone(), Vec::new());
    assert_eq!(failed.display, routine.display);
}
