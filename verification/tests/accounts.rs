use codex_plus_plus::account_automation::account_status;
use codex_plus_plus::account_automation::automation_changes;
use codex_plus_plus::account_automation::weekly_status_text;
use codex_plus_plus::account_automation::AccountAutomationChoice;
use codex_plus_plus::account_automation::automation_save_step;
use codex_plus_plus::account_automation::AutomationSaveStep;
use codex_plus_plus::account_picker::default_candidate;
use codex_plus_plus::account_picker::picker_start;
use codex_plus_plus::account_picker::selection_item;
use codex_plus_plus::account_picker::picker_step;
use codex_plus_plus::account_picker::PickerEvent;
use codex_plus_plus::account_picker::PickerStep;
use codex_plus_plus::account_picker::recommended_candidate_index;
use codex_plus_plus::account_picker::usage_window;
use codex_plus_plus::account_picker::AccountPickerCandidate;
use codex_plus_plus::account_picker::StartupAccountPickerSelection;
use codex_plus_plus::account_usage::account_usage;
use codex_plus_plus::account_usage::AccountUsage;
use codex_plus_plus::account_usage::RateLimitSnapshot;
use codex_plus_plus::account_usage::RateLimitWindow;
use codex_plus_plus::account_usage::UsedPercent;
use codex_plus_plus::settings::AutomaticAccountSelection;
use codex_plus_plus::startup_accounts::account_picker_candidate;
use codex_plus_plus::startup_accounts::offers_login_required_current;
use codex_plus_plus::startup_accounts::startup_picker_may_run;
use codex_plus_plus::live_status::live_status_account;
use codex_plus_plus::live_status::LiveAccount;
use codex_plus_plus::startup_accounts::automatic_default_index;
use codex_plus_plus::startup_accounts::continue_without_account;
use codex_plus_plus::startup_accounts::picker_default;
use codex_plus_plus::startup_accounts::retain_after_login_checks;
use codex_plus_plus::startup_accounts::root_auth_allows_imported_account_picker;
use codex_plus_plus::startup_accounts::selectable_candidates;
use codex_plus_plus::startup_accounts::startup_outcome;
use codex_plus_plus::startup_accounts::AccountCandidate;
use codex_plus_plus::startup_accounts::AuthMode;
use codex_plus_plus::startup_accounts::RootAuth;
use codex_plus_plus::startup_accounts::RootAuthRead;
use codex_plus_plus::startup_accounts::StartupAccountSelection;
use codex_plus_plus::account_picker::StartupAccountPickerMode;
use codex_plus_plus::usage_fetch::collect_usage;
use codex_plus_plus::usage_fetch::login_required;
use codex_plus_plus::usage_fetch::RefreshTokenFailedReason;
use codex_plus_plus::usage_fetch::UsageFetchError;
use codex_plus_plus::weekly_window_scheduler::WeeklyWindowStatus;

/// The reading of a reported float percentage, as the app converts it.
fn used(percent: f64) -> UsedPercent {
    UsedPercent {
        finite_nonnegative: percent.is_finite() && percent >= 0.0,
        is_zero: percent == 0.0,
        at_least_full: percent >= 100.0,
        remaining_percent: (100.0 - percent).clamp(0.0, 100.0).round() as u8,
    }
}

fn picker_row(id: &str, weekly_left: Option<u8>, in_use: bool, is_current: bool, is_default: bool) -> AccountPickerCandidate {
    AccountPickerCandidate {
        id: id.to_string(),
        email: format!("{id}@example.com"),
        primary_window_label: "5h".to_string(),
        five_hour_reset: None,
        five_hour_usage_left_percent: None,
        five_hour_exhausted: false,
        weekly_reset: None,
        weekly_usage_left_percent: weekly_left,
        weekly_exhausted: false,
        blocked_until: None,
        blocked: false,
        in_use,
        is_current,
        is_default,
    }
}

fn candidates() -> Vec<AccountPickerCandidate> {
    vec![
        picker_row("acct_a", Some(12), true, true, false),
        picker_row("acct_b", Some(84), false, false, true),
        picker_row("acct_c", None, false, false, false),
    ]
}

#[test]
fn default_candidate_prefers_backend_marked_default() {
    assert_eq!(
        default_candidate(&candidates()).map(|candidate| candidate.id.as_str()),
        Some("acct_b")
    );
}

#[test]
fn recommendation_avoids_accounts_used_by_other_sessions() {
    assert_eq!(recommended_candidate_index(&candidates()), 1);
}

#[test]
fn default_candidate_falls_back_to_the_first_row() {
    let mut rows = candidates();
    rows[1].is_default = false;
    assert_eq!(default_candidate(&rows).map(|c| c.id.as_str()), Some("acct_a"));
    assert!(default_candidate(&Vec::new()).is_none());
    assert_eq!(recommended_candidate_index(&Vec::new()), 0);
}

#[test]
fn usage_window_right_aligns_the_percentage() {
    assert_eq!(usage_window(7, Some("Jul 14 08:00Z")), "  7% (Jul 14 08:00Z)");
    assert_eq!(usage_window(100, None), "100%");
}

#[test]
fn maps_five_hour_and_weekly_windows_to_picker_usage() {
    let snapshots = vec![RateLimitSnapshot {
        limit_id: Some("codex".to_string()),
        primary: Some(RateLimitWindow { used: used(67.6), window_minutes: Some(300), resets_at: Some(1_749_950_000) }),
        secondary: Some(RateLimitWindow { used: used(0.4), window_minutes: Some(10_080), resets_at: Some(1_750_000_000) }),
        rate_limit_reached: false,
    }];
    assert_eq!(
        account_usage(&snapshots),
        AccountUsage {
            primary_window_minutes: Some(300),
            five_hour_reset_at: Some(1_749_950_000),
            five_hour_remaining_percent: Some(32),
            five_hour_exhausted: false,
            weekly_reset_at: Some(1_750_000_000),
            weekly_unused: Some(false),
            weekly_remaining_percent: Some(100),
            weekly_exhausted: false,
        }
    );
}

#[test]
fn exhausted_until_uses_the_later_exhausted_window_reset() {
    let usage = AccountUsage {
        primary_window_minutes: Some(300),
        five_hour_reset_at: Some(1_749_950_000),
        five_hour_remaining_percent: Some(0),
        five_hour_exhausted: true,
        weekly_reset_at: Some(1_750_000_000),
        weekly_unused: Some(false),
        weekly_remaining_percent: Some(0),
        weekly_exhausted: true,
    };

    assert_eq!(usage.exhausted_until(), Some(1_750_000_000));
}

#[test]
fn exhausted_until_ignores_windows_with_room() {
    let usage = AccountUsage {
        five_hour_reset_at: Some(1_760_000_000),
        five_hour_exhausted: false,
        weekly_reset_at: Some(1_750_000_000),
        weekly_exhausted: true,
        ..AccountUsage::default()
    };
    assert_eq!(usage.exhausted_until(), Some(1_750_000_000));
    assert_eq!(AccountUsage::default().exhausted_until(), None);
}

#[test]
fn rounded_zero_remaining_does_not_mark_window_exhausted() {
    let snapshots = vec![RateLimitSnapshot {
        limit_id: Some("codex".to_string()),
        primary: Some(RateLimitWindow { used: used(99.6), window_minutes: Some(300), resets_at: Some(1_749_950_000) }),
        secondary: None,
        rate_limit_reached: false,
    }];
    assert_eq!(
        account_usage(&snapshots),
        AccountUsage {
            primary_window_minutes: Some(300),
            five_hour_reset_at: Some(1_749_950_000),
            five_hour_remaining_percent: Some(0),
            five_hour_exhausted: false,
            weekly_reset_at: None,
            weekly_unused: None,
            weekly_remaining_percent: None,
            weekly_exhausted: false,
        }
    );
}

#[test]
fn a_lone_weekly_primary_window_counts_as_the_week() {
    let snapshots = vec![
        RateLimitSnapshot { limit_id: Some("other".to_string()), primary: None, secondary: None, rate_limit_reached: false },
        RateLimitSnapshot {
            limit_id: Some("codex".to_string()),
            primary: Some(RateLimitWindow { used: used(0.0), window_minutes: Some(10_080), resets_at: Some(9) }),
            secondary: None,
            rate_limit_reached: false,
        },
    ];
    let usage = account_usage(&snapshots);
    assert_eq!(usage.five_hour_remaining_percent, None);
    assert_eq!(usage.weekly_unused, Some(true));
    assert_eq!(usage.weekly_reset_at, Some(9));
}

#[test]
fn reused_refresh_token_marks_imported_account_as_login_required() {
    assert!(login_required(RefreshTokenFailedReason::Exhausted));
    assert!(login_required(RefreshTokenFailedReason::Expired));
    assert!(!login_required(RefreshTokenFailedReason::Other));
}

#[test]
fn gathered_usage_keeps_reads_resets_and_logins() {
    let exhausted = AccountUsage { weekly_exhausted: true, weekly_reset_at: Some(77), ..AccountUsage::default() };
    let results = vec![
        ("acct_a".to_string(), Ok(exhausted)),
        ("acct_b".to_string(), Err(UsageFetchError { message: "expired".to_string(), login_required: true, attempted_auth: Some(5u8) })),
        ("acct_c".to_string(), Err(UsageFetchError { message: "offline".to_string(), login_required: false, attempted_auth: None })),
        ("acct_d".to_string(), Ok(AccountUsage::default())),
    ];
    let load = collect_usage(results);
    assert_eq!(load.usage, vec![("acct_a".to_string(), exhausted), ("acct_d".to_string(), AccountUsage::default())]);
    assert_eq!(load.resets_to_record, vec![("acct_a".to_string(), 77)]);
    assert_eq!(load.login_required, vec![("acct_b".to_string(), 5u8)]);
}

fn account_candidate(id: &str, automation_enabled: bool) -> AccountCandidate {
    AccountCandidate {
        id: id.to_string(),
        display_label: format!("{id}@example.com"),
        priority: 0,
        enabled: true,
        automation_enabled,
        usage_limit_resets_at: None,
        blocked: false,
    }
}

fn picker_candidate(id: &str, is_current: bool) -> AccountPickerCandidate {
    AccountPickerCandidate {
        id: id.to_string(),
        email: format!("{id}@example.com"),
        primary_window_label: "5h".to_string(),
        five_hour_reset: None,
        five_hour_usage_left_percent: Some(100),
        five_hour_exhausted: false,
        weekly_reset: None,
        weekly_usage_left_percent: Some(100),
        weekly_exhausted: false,
        blocked_until: None,
        blocked: false,
        in_use: false,
        is_current,
        is_default: false,
    }
}

#[test]
fn auto_account_requires_an_eligible_account() {
    assert_eq!(
        continue_without_account(/*auto_account*/ true)
            .expect_err("auto account must fail")
            .to_string(),
        "no eligible account is available for --auto-account"
    );
    assert_eq!(
        continue_without_account(false).ok(),
        Some(StartupAccountSelection::Continue { selected_account_id: None, reload_cloud_config: false })
    );
}

#[test]
fn automatic_default_ignores_automation_disabled_current_account() {
    let current = account_candidate("acct_current", /*automation_enabled*/ false);
    let alternative = account_candidate("acct_alternative", /*automation_enabled*/ true);
    let candidates = vec![current, alternative];
    let picker_candidates = vec![
        picker_candidate("acct_current", /*is_current*/ true),
        picker_candidate("acct_alternative", /*is_current*/ false),
    ];

    assert_eq!(automatic_default_index(&candidates, &picker_candidates), Some(1));
}

#[test]
fn automatic_default_ignores_automation_disabled_alternative() {
    let disabled = account_candidate("acct_disabled", /*automation_enabled*/ false);
    let enabled = account_candidate("acct_enabled", /*automation_enabled*/ true);
    let candidates = vec![disabled, enabled];
    let picker_candidates = vec![
        picker_candidate("acct_disabled", /*is_current*/ false),
        picker_candidate("acct_enabled", /*is_current*/ false),
    ];

    assert_eq!(automatic_default_index(&candidates, &picker_candidates), Some(1));
}

#[test]
fn picker_default_waits_without_automation() {
    let candidates = vec![account_candidate("acct_a", false), account_candidate("acct_b", false)];
    let picker_candidates = vec![picker_candidate("acct_a", true), picker_candidate("acct_b", false)];
    assert_eq!(automatic_default_index(&candidates, &picker_candidates), None);
    assert_eq!(
        picker_default(AutomaticAccountSelection::Enabled, &candidates, &picker_candidates),
        (1, StartupAccountPickerMode::Manual)
    );
    let automated = vec![account_candidate("acct_a", true), account_candidate("acct_b", false)];
    assert_eq!(
        picker_default(AutomaticAccountSelection::Enabled, &automated, &picker_candidates),
        (0, StartupAccountPickerMode::Timed)
    );
    assert_eq!(
        picker_default(AutomaticAccountSelection::Disabled, &automated, &picker_candidates),
        (1, StartupAccountPickerMode::Manual)
    );
}

#[test]
fn mode_less_bedrock_access_keys_skip_imported_account_picker() {
    let bedrock = RootAuth {
        auth_mode: None,
        refresh_token_empty: None,
        has_api_key: false,
        has_personal_access_token: false,
        has_bedrock_credentials: true,
        has_agent_identity: false,
    };
    assert!(!root_auth_allows_imported_account_picker(
        &RootAuthRead::Found(bedrock),
        AutomaticAccountSelection::Enabled
    ));
}

#[test]
fn root_auth_decides_whether_the_picker_may_run() {
    let chatgpt = |refresh_token_empty| RootAuth {
        auth_mode: Some(AuthMode::Chatgpt),
        refresh_token_empty,
        has_api_key: false,
        has_personal_access_token: false,
        has_bedrock_credentials: false,
        has_agent_identity: false,
    };
    let off = AutomaticAccountSelection::Disabled;
    assert!(root_auth_allows_imported_account_picker(&RootAuthRead::Missing, off));
    assert!(!root_auth_allows_imported_account_picker(&RootAuthRead::Unreadable, AutomaticAccountSelection::Enabled));
    assert!(root_auth_allows_imported_account_picker(&RootAuthRead::Found(chatgpt(Some(true))), off));
    assert!(!root_auth_allows_imported_account_picker(&RootAuthRead::Found(chatgpt(Some(false))), off));
    assert!(root_auth_allows_imported_account_picker(
        &RootAuthRead::Found(chatgpt(Some(false))),
        AutomaticAccountSelection::Enabled
    ));
    let api_key = RootAuth { auth_mode: Some(AuthMode::ApiKey), ..chatgpt(Some(true)) };
    assert!(!root_auth_allows_imported_account_picker(&RootAuthRead::Found(api_key), AutomaticAccountSelection::Enabled));
    let mode_less = RootAuth { auth_mode: None, ..chatgpt(None) };
    assert!(root_auth_allows_imported_account_picker(&RootAuthRead::Found(mode_less), off));
}

#[test]
fn startup_candidates_are_filtered_and_chosen() {
    let mut disabled = account_candidate("acct_disabled", true);
    disabled.enabled = false;
    let all = vec![account_candidate("acct_a", true), disabled, account_candidate("acct_b", true), account_candidate("acct_home", true)];
    let selectable = vec!["acct_a".to_string(), "acct_b".to_string(), "acct_disabled".to_string()];
    let offered = selectable_candidates(all, &selectable);
    let ids: Vec<&str> = offered.iter().map(|c| c.id.as_str()).collect();
    assert_eq!(ids, vec!["acct_a", "acct_b"]);

    let login = vec!["acct_a".to_string(), "acct_b".to_string()];
    let kept = retain_after_login_checks(offered.clone(), &login, Some("acct_b"));
    assert_eq!(kept.iter().map(|c| c.id.as_str()).collect::<Vec<_>>(), vec!["acct_b"]);
    assert!(retain_after_login_checks(offered.clone(), &login, None).is_empty());

    assert_eq!(startup_outcome(&offered, None), StartupAccountSelection::Exit);
    assert_eq!(
        startup_outcome(&offered, Some(StartupAccountPickerSelection::User("acct_b".to_string()))),
        StartupAccountSelection::Continue { selected_account_id: Some("acct_b".to_string()), reload_cloud_config: true }
    );
    assert_eq!(
        startup_outcome(&offered, Some(StartupAccountPickerSelection::Automatic("acct_gone".to_string()))),
        StartupAccountSelection::Continue { selected_account_id: None, reload_cloud_config: true }
    );
}

#[test]
fn picker_rows_show_usage_or_how_long_an_account_is_blocked() {
    let mut blocked = account_candidate("acct_blocked", true);
    blocked.blocked = true;
    blocked.usage_limit_resets_at = Some(1_750_000_000);
    let row = account_picker_candidate(&blocked, None, true, false, "5h".to_string());
    assert_eq!(row.blocked_until.as_deref(), Some("Jun 15 15:06Z"));
    assert!(row.blocked && row.in_use && !row.is_current && !row.is_default);
    assert_eq!(row.weekly_usage_left_percent, None);

    let usage = AccountUsage {
        five_hour_remaining_percent: Some(40),
        five_hour_reset_at: Some(1_750_000_000),
        weekly_remaining_percent: Some(90),
        ..AccountUsage::default()
    };
    let row = account_picker_candidate(&blocked, Some(usage), false, true, "5h".to_string());
    assert_eq!(row.blocked_until, None);
    assert_eq!(row.five_hour_reset.as_deref(), Some("Jun 15 15:06Z"));
    assert_eq!(row.five_hour_usage_left_percent, Some(40));
    assert_eq!(row.weekly_usage_left_percent, Some(90));
    assert_eq!(row.email, "acct_blocked@example.com");
}

#[test]
fn account_status_is_concise() {
    assert_eq!(account_status(true, false, false, None), None);
    assert_eq!(account_status(true, true, false, None).as_deref(), Some("Login required"));
    assert_eq!(account_status(true, false, true, None).as_deref(), Some("In use"));
    assert_eq!(account_status(true, true, true, None).as_deref(), Some("Login required \u{b7} In use"));
    assert_eq!(
        account_status(false, true, true, None).as_deref(),
        Some("Account disabled \u{b7} Login required \u{b7} In use")
    );
    assert_eq!(
        account_status(true, false, false, Some(WeeklyWindowStatus::SignInRequired)).as_deref(),
        Some("Sign-in required")
    );
}

#[test]
fn weekly_status_text_aligns_the_percentage() {
    assert_eq!(weekly_status_text(Some(5), "Waiting"), "Weekly   5% \u{b7} Waiting");
    assert_eq!(weekly_status_text(None, "Started"), "Weekly \u{b7} Started");
    assert_eq!(
        account_status(true, false, true, Some(WeeklyWindowStatus::Retrying(Some(42)))).as_deref(),
        Some("In use \u{b7} Weekly  42% \u{b7} Retrying")
    );
}

#[test]
fn unchanged_accounts_are_not_written() {
    let choices = vec![
        AccountAutomationChoice { id: "acct_missing".to_string(), initial_automation_enabled: true, automation_enabled: true },
        AccountAutomationChoice { id: "acct_off".to_string(), initial_automation_enabled: true, automation_enabled: false },
    ];
    assert_eq!(automation_changes(&choices), vec![("acct_off".to_string(), false)]);
    assert!(automation_changes(&choices[..1].to_vec()).is_empty());
}

#[test]
fn input_cancels_auto_selection() {
    let rows = candidates();
    let (step, mut state) = picker_start(&rows, StartupAccountPickerMode::Timed);
    assert_eq!(step, PickerStep::Show { selected_idx: 1, seconds_remaining: Some(15) });
    assert_eq!(
        picker_step(&mut state, &rows, PickerEvent::Key { chosen: None, highlighted: Some(2) }),
        PickerStep::Show { selected_idx: 2, seconds_remaining: None }
    );
    assert_eq!(picker_step(&mut state, &rows, PickerEvent::Deadline), PickerStep::Ignore);
    assert_eq!(
        picker_step(&mut state, &rows, PickerEvent::Tick { remaining_secs: 3, highlighted: Some(2) }),
        PickerStep::Ignore
    );
    assert_eq!(
        picker_step(&mut state, &rows, PickerEvent::Key { chosen: Some(Some(2)), highlighted: Some(2) }),
        PickerStep::Finish(Some(StartupAccountPickerSelection::User("acct_c".to_string())))
    );
}

#[test]
fn timed_picker_counts_down_to_the_default() {
    let rows = candidates();
    let (_, mut state) = picker_start(&rows, StartupAccountPickerMode::Timed);
    assert_eq!(picker_step(&mut state, &rows, PickerEvent::KeyRelease), PickerStep::Ignore);
    assert_eq!(
        picker_step(&mut state, &rows, PickerEvent::Tick { remaining_secs: 14, highlighted: None }),
        PickerStep::Show { selected_idx: 1, seconds_remaining: Some(14) }
    );
    assert_eq!(picker_step(&mut state, &rows, PickerEvent::Redraw), PickerStep::Draw);
    assert_eq!(
        picker_step(&mut state, &rows, PickerEvent::Deadline),
        PickerStep::Finish(Some(StartupAccountPickerSelection::Automatic("acct_b".to_string())))
    );
    let (_, mut ended) = picker_start(&rows, StartupAccountPickerMode::Timed);
    assert_eq!(
        picker_step(&mut ended, &rows, PickerEvent::StreamEnded),
        PickerStep::Finish(Some(StartupAccountPickerSelection::Automatic("acct_b".to_string())))
    );
    let (_, mut interrupted) = picker_start(&rows, StartupAccountPickerMode::Timed);
    assert_eq!(picker_step(&mut interrupted, &rows, PickerEvent::Interrupt), PickerStep::Finish(None));
}

#[test]
fn manual_picker_waits_and_small_timed_pickers_finish_at_once() {
    let rows = candidates();
    let (step, mut state) = picker_start(&rows, StartupAccountPickerMode::Manual);
    assert_eq!(step, PickerStep::Show { selected_idx: 1, seconds_remaining: None });
    assert_eq!(picker_step(&mut state, &rows, PickerEvent::Deadline), PickerStep::Ignore);
    assert_eq!(picker_step(&mut state, &rows, PickerEvent::Paste { highlighted: Some(0) }), PickerStep::Ignore);
    assert_eq!(picker_step(&mut state, &rows, PickerEvent::StreamEnded), PickerStep::Finish(None));
    let one = vec![rows[2].clone()];
    assert_eq!(
        picker_start(&one, StartupAccountPickerMode::Timed).0,
        PickerStep::Finish(Some(StartupAccountPickerSelection::Automatic("acct_c".to_string())))
    );
    assert_eq!(picker_start(&Vec::new(), StartupAccountPickerMode::Timed).0, PickerStep::Finish(None));
    assert_eq!(
        picker_start(&one, StartupAccountPickerMode::Manual).0,
        PickerStep::Show { selected_idx: 0, seconds_remaining: None }
    );
}

#[test]
fn startup_picker_runs_only_where_imported_accounts_can_apply() {
    let enabled = AutomaticAccountSelection::Enabled;
    assert!(startup_picker_may_run(true, true, false, &RootAuthRead::Missing, enabled));
    assert!(!startup_picker_may_run(false, true, false, &RootAuthRead::Missing, enabled));
    assert!(!startup_picker_may_run(true, false, false, &RootAuthRead::Missing, enabled));
    assert!(!startup_picker_may_run(true, true, true, &RootAuthRead::Missing, enabled));
    assert!(!startup_picker_may_run(true, true, false, &RootAuthRead::Unreadable, enabled));
    assert!(offers_login_required_current(AutomaticAccountSelection::Disabled, true));
    assert!(!offers_login_required_current(AutomaticAccountSelection::Disabled, false));
    assert!(!offers_login_required_current(AutomaticAccountSelection::Enabled, true));
}

#[test]
fn live_status_needs_the_same_chatgpt_account_before_and_after() {
    let plus = |email: &str| LiveAccount::Chatgpt { email: email.to_string(), plan_type: "plus".to_string() };
    assert_eq!(
        live_status_account(&Some(plus("a@example.com")), Some(plus("a@example.com"))),
        Ok(("a@example.com".to_string(), "plus".to_string()))
    );
    assert_eq!(
        live_status_account(&Some(plus("a@example.com")), Some(plus("b@example.com"))),
        Err("active account changed during /status refresh".to_string())
    );
    assert_eq!(
        live_status_account(&None, Some(plus("a@example.com"))),
        Err("active account changed during /status refresh".to_string())
    );
    assert_eq!(
        live_status_account(&Some(LiveAccount::ApiKey), Some(LiveAccount::ApiKey)),
        Err("active account is not a ChatGPT account".to_string())
    );
    assert_eq!(live_status_account(&None, None), Err("active account is not a ChatGPT account".to_string()));
}

#[test]
fn row_description_uses_unknown_for_missing_usage_data() {
    let item = selection_item(&candidates()[2]);

    assert_eq!(
        item.description.as_deref(),
        Some("Weekly Reset: unknown    Usage left: unknown")
    );
}

#[test]
fn gathered_usage_keeps_the_last_read_of_an_account() {
    let first = AccountUsage { weekly_remaining_percent: Some(10), ..AccountUsage::default() };
    let last = AccountUsage { weekly_remaining_percent: Some(90), ..AccountUsage::default() };
    let expired = |auth: u8| Err(UsageFetchError { message: "expired".to_string(), login_required: true, attempted_auth: Some(auth) });
    let results = vec![
        ("acct_a".to_string(), Ok(first)),
        ("acct_b".to_string(), expired(1)),
        ("acct_a".to_string(), Ok(last)),
        ("acct_b".to_string(), expired(2)),
    ];
    let load = collect_usage(results);
    assert_eq!(load.usage, vec![("acct_a".to_string(), last)]);
    assert_eq!(load.login_required, vec![("acct_b".to_string(), 2u8)]);
}

#[test]
fn automation_save_stops_at_the_first_failed_write() {
    assert_eq!(automation_save_step(0, &Vec::new()), AutomationSaveStep::Finish(true));
    assert_eq!(automation_save_step(2, &Vec::new()), AutomationSaveStep::Write(0));
    assert_eq!(automation_save_step(2, &vec![Ok(true)]), AutomationSaveStep::Write(1));
    assert_eq!(automation_save_step(2, &vec![Ok(true), Ok(true)]), AutomationSaveStep::Finish(true));
    assert_eq!(automation_save_step(3, &vec![Ok(false)]), AutomationSaveStep::Finish(false));
    assert_eq!(automation_save_step(3, &vec![Ok(true), Err("locked".to_string())]), AutomationSaveStep::Finish(false));
}

#[test]
fn manual_picker_without_candidates_waits_for_the_user() {
    let candidates: Vec<AccountPickerCandidate> = Vec::new();
    let (step, mut state) = picker_start(&candidates, StartupAccountPickerMode::Manual);
    assert_eq!(step, PickerStep::Show { selected_idx: 0, seconds_remaining: None });
    assert_eq!(picker_step(&mut state, &candidates, PickerEvent::Redraw), PickerStep::Draw);
    assert_eq!(picker_step(&mut state, &candidates, PickerEvent::StreamEnded), PickerStep::Finish(None));
}
