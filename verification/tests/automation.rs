use codex_plus_plus::account_identity::profile_id_for;
use codex_plus_plus::account_usage::RateLimitSnapshot;
use codex_plus_plus::account_usage::RateLimitWindow;
use codex_plus_plus::account_usage::UsedPercent;
use codex_plus_plus::auto_redeem_resets::current_account_home;
use codex_plus_plus::auto_redeem_resets::settings_of_user_config;
use codex_plus_plus::auto_redeem_resets::plan_redemption;
use codex_plus_plus::auto_redeem_resets::recovery_action;
use codex_plus_plus::auto_redeem_resets::redeem_follow_up;
use codex_plus_plus::auto_redeem_resets::ConsumeRateLimitResetCreditCode;
use codex_plus_plus::auto_redeem_resets::RecoveryAction;
use codex_plus_plus::auto_redeem_resets::RedeemFollowUp;
use codex_plus_plus::auto_redeem_resets::RedemptionPlan;
use codex_plus_plus::auto_redeem_resets::ResetAttemptPhase;
use codex_plus_plus::auto_redeem_resets::exact_weekly;
use codex_plus_plus::auto_redeem_resets::matches_profile;
use codex_plus_plus::auto_redeem_resets::notice_cell;
use codex_plus_plus::auto_redeem_resets::profile_id;
use codex_plus_plus::auto_redeem_resets::select_credit;
use codex_plus_plus::auto_redeem_resets::AutoRedeemResets;
use codex_plus_plus::auto_redeem_resets::CompletionNotices;
use codex_plus_plus::auto_redeem_resets::FreshRedemption;
use codex_plus_plus::auto_redeem_resets::ProfileAuth;
use codex_plus_plus::auto_redeem_resets::ProfileCompletion;
use codex_plus_plus::auto_redeem_resets::ProfileTokens;
use codex_plus_plus::auto_redeem_resets::RateLimitResetCredit;
use codex_plus_plus::history::HistoryCell;
use codex_plus_plus::usage_reset_resume::AccountRateLimits;
use codex_plus_plus::usage_reset_resume::GetAccountRateLimitsResponse;
use codex_plus_plus::usage_reset_resume::QuotaWindow;
use codex_plus_plus::usage_reset_resume::reset_account_has_quota;
use codex_plus_plus::usage_reset_resume::AppCommand;
use codex_plus_plus::usage_reset_resume::ServerNotification;
use codex_plus_plus::usage_reset_resume::TurnStatus;
use codex_plus_plus::usage_reset_resume::UsageResetState;
use codex_plus_plus::usage_reset_resume::ResumeOutcome;
use codex_plus_plus::user_message_inbox::recognize;
use codex_plus_plus::user_message_inbox::AgentMessageItem;
use codex_plus_plus::user_message_inbox::MessagePhase;
use codex_plus_plus::user_message_inbox::ThreadId;
use codex_plus_plus::user_message_inbox::UserMessage;
use codex_plus_plus::user_message_inbox::UserMessageInboxState;
use codex_plus_plus::user_message_inbox::UserMessageUnreadState;
use codex_plus_plus::account_usage::AccountUsage;
use codex_plus_plus::weekly_window_scheduler::account_scan_start;
use codex_plus_plus::weekly_window_scheduler::account_scan_step;
use codex_plus_plus::weekly_window_scheduler::attempt_outcome;
use codex_plus_plus::weekly_window_scheduler::scan_start;
use codex_plus_plus::weekly_window_scheduler::activation_failure_outcome;
use codex_plus_plus::weekly_window_scheduler::decision_status;
use codex_plus_plus::weekly_window_scheduler::schedule_action;
use codex_plus_plus::weekly_window_scheduler::weekly_usage;
use codex_plus_plus::weekly_window_scheduler::ScheduleAction;
use codex_plus_plus::weekly_window_scheduler::ScheduleEvent;
use codex_plus_plus::weekly_window_scheduler::scan_step;
use codex_plus_plus::weekly_window_scheduler::AccountScanAction;
use codex_plus_plus::weekly_window_scheduler::AccountScanEvent;
use codex_plus_plus::weekly_window_scheduler::AccountScanStage;
use codex_plus_plus::weekly_window_scheduler::ScanAction;
use codex_plus_plus::weekly_window_scheduler::ScanEvent;
use codex_plus_plus::weekly_window_scheduler::ScanStage;
use codex_plus_plus::weekly_window_scheduler::WeeklyWindowAttemptDecision;
use codex_plus_plus::weekly_window_scheduler::record_status;
use codex_plus_plus::weekly_window_scheduler::scan_plan;
use codex_plus_plus::weekly_window_scheduler::SchedulerSettings;
use codex_plus_plus::weekly_window_scheduler::WeeklyWindowAttemptOutcome;
use codex_plus_plus::weekly_window_scheduler::WeeklyWindowError;
use codex_plus_plus::weekly_window_scheduler::WeeklyWindowPingOutcome;
use codex_plus_plus::weekly_window_scheduler::WeeklyWindowRetryableError;
use codex_plus_plus::weekly_window_scheduler::WeeklyWindowScheduler;
use codex_plus_plus::weekly_window_scheduler::WeeklyWindowStatus;
use codex_plus_plus::weekly_window_scheduler::WeeklyWindowUsage;
use codex_plus_plus::weekly_window_scheduler::MAX_STATUS_ACCOUNTS;

const NOW: i64 = 1_800_000_000;
const MINUTES_PER_WEEK: i64 = 7 * 24 * 60;

fn used(percent: f64) -> UsedPercent {
    UsedPercent {
        finite_nonnegative: percent.is_finite() && percent >= 0.0,
        is_zero: percent == 0.0,
        at_least_full: percent >= 100.0,
        remaining_percent: (100.0 - percent).clamp(0.0, 100.0).round() as u8,
    }
}

fn settings() -> AutoRedeemResets {
    AutoRedeemResets { before_expiry_minutes: 60, weekly_exhausted_min_wait_hours: 72 }
}

fn credit(id: &str, expires_at: Option<i64>) -> RateLimitResetCredit {
    RateLimitResetCredit {
        id: id.to_string(),
        reset_type: "codex_rate_limits".to_string(),
        status: "available".to_string(),
        expires_at: expires_at.map(|value| chrono::DateTime::from_timestamp(value, 0).unwrap().to_rfc3339()),
    }
}

fn usage(used_percent: f64, resets_at: Option<i64>, reached: bool) -> Vec<RateLimitSnapshot> {
    vec![RateLimitSnapshot {
        limit_id: Some("codex".to_string()),
        primary: Some(RateLimitWindow { used: used(100.0), window_minutes: Some(300), resets_at: Some(NOW + 300) }),
        secondary: Some(RateLimitWindow { used: used(used_percent), window_minutes: Some(MINUTES_PER_WEEK), resets_at }),
        rate_limit_reached: reached,
    }]
}

#[test]
fn strict_selection_is_deterministic_and_fails_closed() {
    let mut duplicate = credit("duplicate", Some(NOW + 60));
    duplicate.status = "available".to_string();
    let cases = [
        (
            "expiry ignores weekly ambiguity",
            vec![credit("later", Some(NOW + 120)), credit("earlier", Some(NOW + 60))],
            usage(50.0, None, false),
            Some("earlier"),
        ),
        ("far expiry is not eligible", vec![credit("far", Some(NOW + 3_601))], usage(50.0, Some(NOW + 400_000), false), None),
        (
            "weekly exhaustion selects a non-expiring credit",
            vec![credit("stable", None)],
            usage(100.0, Some(NOW + 73 * 60 * 60), true),
            Some("stable"),
        ),
        (
            "wrong exhaustion type fails closed",
            vec![credit("stable", None)],
            usage(100.0, Some(NOW + 73 * 60 * 60), false),
            None,
        ),
        ("duplicate exact ids are rejected", vec![duplicate.clone(), duplicate], usage(50.0, None, false), None),
        ("expired credits are rejected", vec![credit("expired", Some(NOW))], usage(100.0, Some(NOW + 73 * 60 * 60), true), None),
    ];
    for (name, credits, usage, expected) in cases {
        assert_eq!(select_credit(&credits, &usage, settings(), NOW).as_deref(), expected, "{name}");
    }
    assert!(!FreshRedemption::RecoveryOnly.allowed());
}

fn expected_profile(input: &[u8]) -> String {
    let digest = <sha2::Sha256 as sha2::Digest>::digest(input);
    let hex: String = digest.iter().take(8).map(|b| format!("{b:02x}")).collect();
    format!("acct_{hex}")
}

#[test]
fn profile_match_requires_the_exact_workspace_identity() {
    let tokens = ProfileTokens {
        account_id: Some("workspace-a".to_string()),
        chatgpt_account_id: Some("workspace-a".to_string()),
        chatgpt_user_id: None,
        email: None,
    };
    let auth = ProfileAuth { is_chatgpt_auth: true, uses_codex_backend: true, tokens: Some(tokens.clone()) };
    let expected = expected_profile(b"account:workspace-a");
    assert!(matches_profile(&expected, &auth));
    assert!(!matches_profile("acct_other", &auth));

    let user_only = ProfileTokens {
        account_id: None,
        chatgpt_account_id: None,
        chatgpt_user_id: Some("user-a".to_string()),
        email: None,
    };
    assert_eq!(profile_id(&user_only), Some(expected_profile(b"user:user-a")));
}

#[test]
fn profile_ids_hash_the_identity_with_sha256() {
    assert_eq!(profile_id_for(b"account:reset-account"), "acct_f2b6477631260f18");
    assert_eq!(profile_id_for(b"abc"), "acct_ba7816bf8f01cfea");
}

#[test]
fn exact_weekly_accepts_an_unused_window_without_a_reset_time() {
    let usage = usage(0.0, None, false);
    let (_, window) = exact_weekly(&usage).unwrap();
    assert!(window.used.is_zero);
    assert_eq!(window.resets_at, None);
}

#[test]
fn completion_notice_snapshot() {
    assert_eq!(
        notice_cell("work@example.com"),
        HistoryCell::Info { message: "Codex++ auto-redeemed a usage reset for work@example.com.".to_string(), hint: None }
    );
}

#[test]
fn completion_notices_announce_each_new_completion_once() {
    let mut notices = CompletionNotices::starting_at(100);
    assert!(!notices.observe("acct_a", "done-1", 50));
    assert!(notices.observe("acct_a", "done-2", 150));
    assert!(!notices.observe("acct_a", "done-2", 150));
    assert!(notices.observe("acct_b", "done-1", 200));
}

#[test]
fn polling_profiles_announces_fresh_completions_in_order() {
    let mut notices = CompletionNotices::starting_at(100);
    let report = |profile: &str, label: &str, completion: Option<(&str, i64)>| ProfileCompletion {
        profile: profile.to_string(),
        label: label.to_string(),
        completion: completion.map(|(id, at)| (id.to_string(), at)),
    };
    let first = vec![
        report("acct_a", "a@example.com", Some(("done-1", 50))),
        report("acct_b", "b@example.com", Some(("done-1", 150))),
        report("acct_c", "c@example.com", None),
    ];
    assert_eq!(
        notices.poll(&first),
        vec![HistoryCell::Info { message: "Codex++ auto-redeemed a usage reset for b@example.com.".to_string(), hint: None }]
    );
    assert_eq!(notices.poll(&first), Vec::<HistoryCell>::new());
    let second = vec![
        report("acct_a", "a@example.com", Some(("done-2", 300))),
        report("acct_c", "c@example.com", Some(("done-1", 400))),
    ];
    assert_eq!(
        notices.poll(&second),
        vec![
            HistoryCell::Info { message: "Codex++ auto-redeemed a usage reset for a@example.com.".to_string(), hint: None },
            HistoryCell::Info { message: "Codex++ auto-redeemed a usage reset for c@example.com.".to_string(), hint: None },
        ]
    );
}

fn quota() -> GetAccountRateLimitsResponse {
    GetAccountRateLimitsResponse {
        account_id: Some("reset-account".to_string()),
        rate_limits: AccountRateLimits {
            limit_id: Some("codex".to_string()),
            primary: Some(QuotaWindow { used_percent: 1, window_duration_mins: Some(300) }),
            secondary: Some(QuotaWindow { used_percent: 1, window_duration_mins: Some(10080) }),
            rate_limit_reached: false,
            spend_control_reached: None,
        },
        codex_rate_limits: None,
    }
}

#[test]
fn reset_requires_matching_identity_and_available_weekly_and_short_term_quota() {
    let account = "acct_f2b6477631260f18";
    assert!(reset_account_has_quota(account, &quota()));
    let mut response = quota();
    response.account_id = Some("unrelated-account".into());
    assert!(!reset_account_has_quota(account, &response));
    response.account_id = None;
    assert!(!reset_account_has_quota(account, &response));
    for weekly in [false, true] {
        for used_percent in [100, -1] {
            let mut response = quota();
            let window = if weekly { &mut response.rate_limits.secondary } else { &mut response.rate_limits.primary };
            window.as_mut().unwrap().used_percent = used_percent;
            assert!(!reset_account_has_quota(account, &response));
        }
    }
    let mut response = quota();
    response.rate_limits.secondary = None;
    assert!(!reset_account_has_quota(account, &response));
    let mut response = quota();
    response.rate_limits.spend_control_reached = Some(true);
    assert!(!reset_account_has_quota(account, &response));
}

#[test]
fn usage_reset_waits_for_a_live_failed_turn_only() {
    let mut state = UsageResetState::new();
    state.agent_turn_running = true;
    state.last_turn_id = Some("failed-turn".to_string());
    let failure = ServerNotification::Error { turn_id: "failed-turn".to_string(), will_retry: false, usage_limit_exceeded: true };
    state.observe_usage_reset_turn_at(&failure, 5_000);
    state.agent_turn_running = false;
    assert_eq!(state.usage_reset_turn(4_999), None);
    assert_eq!(state.usage_reset_turn(5_000), Some("failed-turn".to_string()));

    state.observe_usage_reset_command(AppCommand::UserTurn);
    assert_eq!(state.usage_reset_turn(6_000), None);

    let mut state = UsageResetState::new();
    state.agent_turn_running = true;
    state.last_turn_id = Some("t".to_string());
    let completed = ServerNotification::TurnCompleted {
        turn_id: "t".to_string(),
        status: TurnStatus::Failed,
        usage_limit_exceeded: true,
        completed_at: Some(10),
    };
    state.observe_usage_reset_turn_at(&completed, 1);
    state.agent_turn_running = false;
    assert_eq!(state.usage_reset_turn(10_999_999_999), None);
    assert_eq!(state.usage_reset_turn(11_000_000_000), Some("t".to_string()));
    state.observe_usage_reset_turn_at(&ServerNotification::TurnStarted, 1);
    assert_eq!(state.usage_reset_turn(11_000_000_000), None);
}

fn item(id: &str, text: &str, phase: Option<MessagePhase>) -> AgentMessageItem {
    AgentMessageItem { id: id.to_string(), content: vec![text.to_string()], phase }
}

#[test]
fn recognizes_only_exact_durable_user_messages() {
    let message = recognize(&item("user-message:call-1", "[Message for you]\n  Check deployment.  ", Some(MessagePhase::Commentary)));
    assert_eq!(
        message.map(|message| (message.id, message.body)),
        Some(("user-message:call-1".to_string(), "Check deployment.".to_string()))
    );

    for invalid in [
        item("message:call-1", "[Message for you]\nCheck deployment.", Some(MessagePhase::Commentary)),
        item("user-message:call-1", "Message for you\nCheck deployment.", Some(MessagePhase::Commentary)),
        item("user-message:call-1", "[Message for you]\nCheck deployment.", Some(MessagePhase::FinalAnswer)),
        item("user-message:call-1", "[Message for you]\n  ", Some(MessagePhase::Commentary)),
    ] {
        assert_eq!(recognize(&invalid), None);
    }
}

#[test]
fn inbox_keeps_messages_newest_first_without_duplicates() {
    let mut inbox = UserMessageInboxState::new();
    let first = inbox.record(UserMessage { id: "user-message:first".to_string(), body: "First".to_string() });
    assert_eq!(first.map(|cell| cell.body), Some("First".to_string()));
    assert!(inbox.record(UserMessage { id: "user-message:first".to_string(), body: "Again".to_string() }).is_none());
    inbox.record(UserMessage { id: "user-message:second".to_string(), body: "Second".to_string() });
    let cell = inbox.history_cell(true);
    assert!(cell.enabled && !cell.overflowed);
    let ids: Vec<&str> = cell.messages.iter().map(|m| m.id.as_str()).collect();
    assert_eq!(ids, vec!["user-message:second", "user-message:first"]);

    for index in 0..60 {
        inbox.record(UserMessage { id: format!("user-message:{index}"), body: "x".to_string() });
    }
    let cell = inbox.history_cell(false);
    assert_eq!(cell.messages.len(), 50);
    assert!(cell.overflowed && !cell.enabled);
    assert_eq!(cell.messages[0].id, "user-message:59");
}

#[test]
fn unread_state_tracks_threads() {
    let mut unread = UserMessageUnreadState::new();
    let a = ThreadId { value: 1 };
    let b = ThreadId { value: 2 };
    unread.record(a, "user-message:1", false);
    unread.record(b, "user-message:2", true);
    assert!(unread.has_unread(a));
    assert!(!unread.has_unread(b));
    unread.mark_read(a);
    assert!(!unread.has_unread(a));
    unread.record(a, "user-message:1", false);
    assert!(!unread.has_unread(a));
    unread.record(a, "user-message:3", false);
    assert!(unread.has_unread(a));
    unread.remove(a);
    assert!(!unread.has_unread(a));
    unread.record(b, "user-message:4", false);
    unread.clear();
    assert!(!unread.has_unread(b));
}

#[test]
fn scheduler_automation_is_enabled_by_either_setting() {
    assert!(!SchedulerSettings::default().enabled());
    assert!(SchedulerSettings { weekly: true, auto_redeem: None }.enabled());
    assert!(SchedulerSettings { weekly: false, auto_redeem: Some(AutoRedeemResets::default()) }.enabled());
}

#[test]
fn scheduler_status_is_bounded() {
    let mut statuses = Vec::new();
    for index in 0..=MAX_STATUS_ACCOUNTS {
        record_status(&mut statuses, &format!("acct_{index}"), WeeklyWindowStatus::Waiting(Some(100)));
    }
    assert_eq!(statuses.len(), MAX_STATUS_ACCOUNTS);
    record_status(&mut statuses, "acct_0", WeeklyWindowStatus::Failed);
    assert_eq!(statuses.len(), MAX_STATUS_ACCOUNTS);
    assert_eq!(statuses[0], ("acct_0".to_string(), WeeklyWindowStatus::Failed));
}

#[test]
fn ping_outcomes_preserve_safe_failure_evidence() {
    let assert_completed = |outcome, usage, refreshed_usage| {
        assert_eq!(attempt_outcome(outcome, usage), WeeklyWindowAttemptOutcome::Completed { refreshed_usage })
    };
    let usage = |unused| WeeklyWindowUsage::Present { unused, resets_at: Some(42) };
    assert_completed(WeeklyWindowPingOutcome::Completed, usage(true), usage(true));
    assert_completed(WeeklyWindowPingOutcome::Completed, WeeklyWindowUsage::Missing, WeeklyWindowUsage::Missing);
    assert_eq!(
        attempt_outcome(WeeklyWindowPingOutcome::Rejected { status: Some(422) }, WeeklyWindowUsage::Missing),
        WeeklyWindowAttemptOutcome::Retryable { error: WeeklyWindowRetryableError::Rejected { status: Some(422) } }
    );
    assert_eq!(
        attempt_outcome(WeeklyWindowPingOutcome::Ambiguous { status: Some(503) }, WeeklyWindowUsage::Missing),
        WeeklyWindowAttemptOutcome::Ambiguous { status: Some(503) }
    );
    assert_eq!(
        attempt_outcome(WeeklyWindowPingOutcome::UnsupportedRouting, WeeklyWindowUsage::Missing),
        WeeklyWindowAttemptOutcome::Unsupported { error: WeeklyWindowError::UnsupportedRouting }
    );
}

#[test]
fn scans_fall_back_to_recovery_without_weekly_pings() {
    let settings = SchedulerSettings { weekly: true, auto_redeem: Some(settings()) };
    let plan = scan_plan(settings, false).unwrap();
    assert!(!plan.weekly);
    assert_eq!(plan.fresh_redemption, FreshRedemption::RecoveryOnly);
    assert!(scan_plan(SchedulerSettings::default(), true).is_none());

    let mut scheduler = WeeklyWindowScheduler::new(settings);
    assert!(!scheduler.set_weekly(true));
    scheduler.publish_statuses(vec![("acct_a".to_string(), WeeklyWindowStatus::Started(Some(99)))]);
    assert_eq!(scheduler.statuses().len(), 1);
    assert!(scheduler.set_weekly(false));
    assert!(scheduler.statuses().is_empty());
}

fn user_message(id: impl Into<String>, body: impl Into<String>) -> UserMessage {
    UserMessage { id: id.into(), body: body.into() }
}

#[test]
fn transcript_and_inbox_snapshots_cover_bounded_thread_state() {
    let mut populated = UserMessageInboxState::new();
    let transcript_cell = populated
        .record(user_message("user-message:first", "First paragraph\n\nSecond paragraph"))
        .expect("new message");
    populated.record(user_message("user-message:second", "Second note")).expect("new message");
    assert!(populated.record(user_message("user-message:second", "duplicate")).is_none());

    assert_eq!(
        transcript_cell.display_lines(40).join("\n"),
        "Message for you\n  First paragraph\n\n  Second paragraph"
    );
    assert_eq!(
        UserMessageInboxState::new().history_cell(false).display_lines(80).join("\n"),
        "Enable Agent inbox messages in /codexplusplus, then restart Codex."
    );
    assert_eq!(
        UserMessageInboxState::new().history_cell(true).display_lines(80).join("\n"),
        "No messages for you in this thread."
    );
    assert_eq!(
        populated.history_cell(true).display_lines(80).join("\n"),
        "Messages for you\n1. Second note\n2. First paragraph\n\n   Second paragraph"
    );
    let disabled_with_messages = populated.history_cell(false).display_lines(80).join("\n");
    assert!(disabled_with_messages.contains("Second note"));
    assert!(disabled_with_messages.contains("Enable Agent inbox messages"));

    let mut overflowed = UserMessageInboxState::new();
    for index in 0..=50 {
        overflowed
            .record(user_message(format!("user-message:{index}"), format!("Message {index}")))
            .expect("unique message");
    }
    let cell = overflowed.history_cell(true);
    assert_eq!(cell.messages.len(), 50);
    assert_eq!(cell.messages.first().unwrap().body, "Message 50");
    assert_eq!(cell.messages.last().unwrap().body, "Message 1");
    let overflow_notice = cell.display_lines(80).pop().expect("overflow notice");
    assert_eq!(overflow_notice, "Showing the 50 newest messages. Older messages remain in the transcript.");
}

#[test]
fn inbox_bodies_wrap_under_their_number() {
    let mut inbox = UserMessageInboxState::new();
    inbox.record(user_message("user-message:a", "alpha beta gamma delta\r\nlast line\n"));
    let cell = inbox.history_cell(true);
    assert_eq!(
        cell.display_lines(14),
        vec![
            "Messages for you".to_string(),
            "1. alpha beta".to_string(),
            "   gamma delta".to_string(),
            "   last line".to_string(),
        ]
    );
    assert_eq!(cell.raw_lines(), cell.display_lines(u16::MAX));
    let transcript = inbox.record(user_message("user-message:b", "one\r\ntwo\n")).expect("new message");
    assert_eq!(
        transcript.raw_lines(),
        vec!["Message for you".to_string(), "one".to_string(), "two".to_string()]
    );
    assert_eq!(transcript.display_lines(0), transcript.display_lines(1));
    assert_eq!(
        transcript.display_lines(80),
        vec!["Message for you".to_string(), "  one".to_string(), "  two".to_string()]
    );
}

#[test]
fn reset_accounts_resolve_to_their_enabled_home() {
    let enabled = vec![
        ("acct_a".to_string(), "/homes/a".to_string()),
        ("acct_b".to_string(), "/homes/b".to_string()),
        ("acct_b".to_string(), "/homes/b-again".to_string()),
    ];
    assert_eq!(current_account_home(&enabled, "acct_b"), Ok("/homes/b".to_string()));
    assert_eq!(
        current_account_home(&enabled, "acct_c"),
        Err("imported account is no longer enabled, signed in, or available".to_string())
    );
}

#[test]
fn interrupted_redemptions_resume_before_fresh_work() {
    let redeeming = ResetAttemptPhase::Redeeming {
        credit_id: "credit-1".to_string(),
        redeem_request_id: "request-1".to_string(),
    };
    for fresh in [FreshRedemption::Allowed, FreshRedemption::RecoveryOnly] {
        assert_eq!(plan_redemption(Some(ResetAttemptPhase::ActivatingWeekly), &fresh), RedemptionPlan::Recover);
        assert_eq!(
            plan_redemption(Some(redeeming.clone()), &fresh),
            RedemptionPlan::Redeem { credit_id: "credit-1".to_string(), redeem_request_id: "request-1".to_string() }
        );
    }
    assert_eq!(plan_redemption(None, &FreshRedemption::Allowed), RedemptionPlan::SelectFresh);
    assert_eq!(plan_redemption(None, &FreshRedemption::RecoveryOnly), RedemptionPlan::Skip);
}

#[test]
fn redemption_answers_decide_between_recovery_and_clearing() {
    assert_eq!(redeem_follow_up(ConsumeRateLimitResetCreditCode::Reset), RedeemFollowUp::ConfirmThenRecover);
    assert_eq!(redeem_follow_up(ConsumeRateLimitResetCreditCode::AlreadyRedeemed), RedeemFollowUp::ConfirmThenRecover);
    assert_eq!(redeem_follow_up(ConsumeRateLimitResetCreditCode::NothingToReset), RedeemFollowUp::ClearRedeeming);
    assert_eq!(redeem_follow_up(ConsumeRateLimitResetCreditCode::NoCredit), RedeemFollowUp::ClearRedeeming);
}

#[test]
fn recovery_starts_an_unused_weekly_window_only() {
    assert_eq!(recovery_action(&usage(0.0, None, false)), RecoveryAction::RecordResetThenActivate);
    assert_eq!(recovery_action(&usage(40.0, Some(NOW + 3600), false)), RecoveryAction::RecordResetAndFinish);
    assert_eq!(recovery_action(&usage(100.0, Some(NOW + 3600), true)), RecoveryAction::Stop);
    assert_eq!(recovery_action(&usage(f64::NAN, None, false)), RecoveryAction::Stop);
    let mut twice = usage(0.0, None, false);
    twice.extend(usage(0.0, None, false));
    assert_eq!(recovery_action(&twice), RecoveryAction::Stop);
    assert_eq!(recovery_action(&Vec::new()), RecoveryAction::Stop);
}

fn weekly_left(unused: bool, remaining: u8) -> AccountUsage {
    AccountUsage {
        weekly_unused: Some(unused),
        weekly_remaining_percent: Some(remaining),
        weekly_reset_at: Some(NOW + 3600),
        ..AccountUsage::default()
    }
}

fn step(stage: &mut ScanStage, event: ScanEvent) -> ScanAction {
    let (next, action) = scan_step(*stage, event);
    *stage = next;
    action
}

#[test]
fn weekly_scan_starts_unused_windows_and_publishes_statuses() {
    let weekly_only = SchedulerSettings { weekly: true, auto_redeem: None };
    let (mut stage, action) = scan_start();
    assert_eq!(action, ScanAction::PollNotices);
    assert_eq!(step(&mut stage, ScanEvent::NoticesPolled), ScanAction::ReadSettings);
    assert_eq!(
        step(&mut stage, ScanEvent::SettingsRead { settings: weekly_only, ping_supported: true }),
        ScanAction::AcquireScanLease
    );
    assert_eq!(step(&mut stage, ScanEvent::LeaseAcquired(true)), ScanAction::ReadAccounts);
    assert_eq!(step(&mut stage, ScanEvent::AccountsRead(Some(2))), ScanAction::CheckSettings);
    assert_eq!(step(&mut stage, ScanEvent::SettingsChecked { changed: false }), ScanAction::LoadUsage);
    // First pass: the first account needs a new login and is shown as
    // such before anything else is recorded.
    assert_eq!(step(&mut stage, ScanEvent::UsageLoaded), ScanAction::ReadAccountUsage { index: 0 });
    assert_eq!(
        step(&mut stage, ScanEvent::AccountUsageRead { login_required: true, usage: None }),
        ScanAction::RecordStatus { index: 0, status: WeeklyWindowStatus::SignInRequired }
    );
    assert_eq!(step(&mut stage, ScanEvent::StatusRecorded), ScanAction::ReadAccountUsage { index: 1 });
    let usage = weekly_left(true, 100);
    assert_eq!(
        step(&mut stage, ScanEvent::AccountUsageRead { login_required: false, usage: Some(usage) }),
        ScanAction::CheckSettings
    );

    // Weekly pass: the first account is passed over, never pinged.
    assert_eq!(step(&mut stage, ScanEvent::SettingsChecked { changed: false }), ScanAction::ReadAccountUsage { index: 0 });
    assert_eq!(
        step(&mut stage, ScanEvent::AccountUsageRead { login_required: true, usage: None }),
        ScanAction::CheckSettings
    );

    // The second account's unused window is started.
    assert_eq!(step(&mut stage, ScanEvent::SettingsChecked { changed: false }), ScanAction::ReadAccountUsage { index: 1 });
    assert_eq!(
        step(&mut stage, ScanEvent::AccountUsageRead { login_required: false, usage: Some(usage) }),
        ScanAction::DecideAttempt { index: 1, usage: WeeklyWindowUsage::Present { unused: true, resets_at: Some(NOW + 3600) } }
    );
    assert_eq!(
        step(&mut stage, ScanEvent::Account(AccountScanEvent::Decided(Some(WeeklyWindowAttemptDecision::Ready)))),
        ScanAction::Account { index: 1, action: AccountScanAction::AcquireLease }
    );
    assert_eq!(
        step(&mut stage, ScanEvent::Account(AccountScanEvent::Leased(true))),
        ScanAction::Account { index: 1, action: AccountScanAction::Ping }
    );
    assert_eq!(
        step(&mut stage, ScanEvent::Account(AccountScanEvent::Pinged(WeeklyWindowPingOutcome::Completed))),
        ScanAction::Account { index: 1, action: AccountScanAction::RefreshUsage }
    );
    let refreshed = WeeklyWindowUsage::Present { unused: false, resets_at: Some(NOW + 7 * 24 * 3600) };
    assert_eq!(
        step(&mut stage, ScanEvent::Account(AccountScanEvent::Refreshed { usage: refreshed, remaining: Some(99) })),
        ScanAction::Account {
            index: 1,
            action: AccountScanAction::Finish(WeeklyWindowAttemptOutcome::Completed { refreshed_usage: refreshed }),
        }
    );
    assert_eq!(
        step(&mut stage, ScanEvent::Account(AccountScanEvent::Finished(true))),
        ScanAction::RecordStatus { index: 1, status: WeeklyWindowStatus::Started(Some(99)) }
    );
    assert_eq!(step(&mut stage, ScanEvent::StatusRecorded), ScanAction::CheckSettings);
    assert_eq!(step(&mut stage, ScanEvent::SettingsChecked { changed: false }), ScanAction::PublishStatuses);
    assert_eq!(step(&mut stage, ScanEvent::StatusesPublished), ScanAction::PollNotices);
    assert_eq!(step(&mut stage, ScanEvent::NoticesPolled), ScanAction::Stop);
    assert_eq!(stage, ScanStage::Done);
}

#[test]
fn settings_changes_cancel_a_scan_without_publishing() {
    let both = SchedulerSettings { weekly: true, auto_redeem: Some(settings()) };
    let begin = |stage: &mut ScanStage| {
        step(stage, ScanEvent::NoticesPolled);
        step(stage, ScanEvent::SettingsRead { settings: both, ping_supported: false });
        step(stage, ScanEvent::LeaseAcquired(true));
        step(stage, ScanEvent::AccountsRead(Some(2)))
    };
    let (mut stage, _) = scan_start();
    assert_eq!(begin(&mut stage), ScanAction::CheckSettings);
    assert_eq!(step(&mut stage, ScanEvent::SettingsChecked { changed: false }), ScanAction::CheckSettings);
    assert_eq!(
        step(&mut stage, ScanEvent::SettingsChecked { changed: false }),
        ScanAction::Redeem { index: 0, settings: settings(), fresh: FreshRedemption::RecoveryOnly }
    );
    assert_eq!(step(&mut stage, ScanEvent::Redeemed { cancelled: false }), ScanAction::CheckSettings);
    assert_eq!(step(&mut stage, ScanEvent::SettingsChecked { changed: true }), ScanAction::Stop);
    assert_eq!(stage, ScanStage::Done);

    // Pings are unsupported here, so the redemption pass is the whole scan.
    let (mut stage, _) = scan_start();
    begin(&mut stage);
    step(&mut stage, ScanEvent::SettingsChecked { changed: false });
    step(&mut stage, ScanEvent::SettingsChecked { changed: false });
    step(&mut stage, ScanEvent::Redeemed { cancelled: false });
    step(&mut stage, ScanEvent::SettingsChecked { changed: false });
    assert_eq!(step(&mut stage, ScanEvent::Redeemed { cancelled: false }), ScanAction::PollNotices);

    // A change during a redemption ends the scan too.
    let (mut stage, _) = scan_start();
    begin(&mut stage);
    step(&mut stage, ScanEvent::SettingsChecked { changed: false });
    step(&mut stage, ScanEvent::SettingsChecked { changed: false });
    assert_eq!(step(&mut stage, ScanEvent::Redeemed { cancelled: true }), ScanAction::Stop);
}

#[test]
fn scans_stop_early_without_work_lease_or_accounts() {
    let (mut stage, _) = scan_start();
    step(&mut stage, ScanEvent::NoticesPolled);
    assert_eq!(
        step(&mut stage, ScanEvent::SettingsRead { settings: SchedulerSettings { weekly: false, auto_redeem: None }, ping_supported: true }),
        ScanAction::Stop
    );
    let (mut stage, _) = scan_start();
    step(&mut stage, ScanEvent::NoticesPolled);
    step(&mut stage, ScanEvent::SettingsRead { settings: SchedulerSettings { weekly: true, auto_redeem: None }, ping_supported: true });
    assert_eq!(step(&mut stage, ScanEvent::LeaseAcquired(false)), ScanAction::Stop);
    let (mut stage, _) = scan_start();
    step(&mut stage, ScanEvent::NoticesPolled);
    step(&mut stage, ScanEvent::SettingsRead { settings: SchedulerSettings { weekly: true, auto_redeem: None }, ping_supported: true });
    step(&mut stage, ScanEvent::LeaseAcquired(true));
    assert_eq!(step(&mut stage, ScanEvent::AccountsRead(None)), ScanAction::Stop);
    // A change noticed just before publishing keeps the old statuses.
    let (mut stage, _) = scan_start();
    step(&mut stage, ScanEvent::NoticesPolled);
    step(&mut stage, ScanEvent::SettingsRead { settings: SchedulerSettings { weekly: true, auto_redeem: None }, ping_supported: true });
    step(&mut stage, ScanEvent::LeaseAcquired(true));
    step(&mut stage, ScanEvent::AccountsRead(Some(0)));
    step(&mut stage, ScanEvent::SettingsChecked { changed: false });
    assert_eq!(step(&mut stage, ScanEvent::UsageLoaded), ScanAction::CheckSettings);
    assert_eq!(step(&mut stage, ScanEvent::SettingsChecked { changed: true }), ScanAction::PollNotices);
}

#[test]
fn deferred_attempts_show_retrying_even_when_the_deferral_is_not_stored() {
    let start = account_scan_start(Some(weekly_left(true, 100)));
    let (leasing, _) = account_scan_step(start, AccountScanEvent::Decided(Some(WeeklyWindowAttemptDecision::Ready)));
    let (deferring, action) = account_scan_step(leasing, AccountScanEvent::Leased(false));
    assert_eq!(deferring, AccountScanStage::Deferring { remaining: Some(100) });
    assert_eq!(
        action,
        AccountScanAction::Finish(WeeklyWindowAttemptOutcome::Retryable { error: WeeklyWindowRetryableError::Transient })
    );
    for stored in [true, false] {
        assert_eq!(
            account_scan_step(deferring, AccountScanEvent::Finished(stored)).1,
            AccountScanAction::Record(WeeklyWindowStatus::Retrying(Some(100)))
        );
    }
    // A ping outcome that cannot be stored shows the account failed.
    let (pinging, _) = account_scan_step(leasing, AccountScanEvent::Leased(true));
    let (finishing, action) = account_scan_step(pinging, AccountScanEvent::Pinged(WeeklyWindowPingOutcome::Rejected { status: Some(429) }));
    assert_eq!(
        action,
        AccountScanAction::Finish(WeeklyWindowAttemptOutcome::Retryable { error: WeeklyWindowRetryableError::Rejected { status: Some(429) } })
    );
    assert_eq!(account_scan_step(finishing, AccountScanEvent::Finished(true)).1, AccountScanAction::Record(WeeklyWindowStatus::Retrying(Some(100))));
    assert_eq!(account_scan_step(finishing, AccountScanEvent::Finished(false)).1, AccountScanAction::Record(WeeklyWindowStatus::Failed));
    // Not due: waiting with the percentage left; without usage: failed.
    assert_eq!(
        account_scan_step(start, AccountScanEvent::Decided(Some(WeeklyWindowAttemptDecision::NotDue))).1,
        AccountScanAction::Record(WeeklyWindowStatus::Waiting(Some(100)))
    );
    assert_eq!(
        account_scan_step(account_scan_start(None), AccountScanEvent::Decided(Some(WeeklyWindowAttemptDecision::Locked))).1,
        AccountScanAction::Record(WeeklyWindowStatus::Failed)
    );
    assert_eq!(
        account_scan_step(start, AccountScanEvent::Decided(None)).1,
        AccountScanAction::Record(WeeklyWindowStatus::Failed)
    );
}

fn failed_turn_waiting() -> UsageResetState {
    let mut state = UsageResetState::new();
    state.agent_turn_running = true;
    state.last_turn_id = Some("failed-turn".to_string());
    let failure = ServerNotification::Error { turn_id: "failed-turn".to_string(), will_retry: false, usage_limit_exceeded: true };
    state.observe_usage_reset_turn_at(&failure, 5_000);
    state.agent_turn_running = false;
    state
}

#[test]
fn reset_resumes_live_failed_turn_once_with_available_matching_quota() {
    let account = "acct_f2b6477631260f18";
    let mut state = failed_turn_waiting();
    assert_eq!(state.usage_reset_turn(4_999), None);
    assert_eq!(state.usage_reset_turn(5_000), Some("failed-turn".to_string()));
    assert_eq!(
        state.resume_after_usage_reset("failed-turn", account, 5_000, &quota()),
        ResumeOutcome::Submit("continue".to_string())
    );
    assert_eq!(state.resume_after_usage_reset("failed-turn", account, 5_000, &quota()), ResumeOutcome::Skip);
    assert_eq!(state.resume_after_usage_reset("failed-turn", account, 6_000, &quota()), ResumeOutcome::Skip);

    let mut other_turn = failed_turn_waiting();
    assert_eq!(other_turn.resume_after_usage_reset("another-turn", account, 5_000, &quota()), ResumeOutcome::Skip);
    let mut wrong_account = failed_turn_waiting();
    assert_eq!(
        wrong_account.resume_after_usage_reset("failed-turn", "acct_0000000000000000", 5_000, &quota()),
        ResumeOutcome::Skip
    );
    assert_eq!(wrong_account.usage_reset_turn(5_000), Some("failed-turn".to_string()));
}

#[test]
fn reset_does_not_resume_replayed_cancelled_completed_or_superseded_work() {
    let account = "acct_f2b6477631260f18";
    let endings = [
        ServerNotification::TurnCompleted {
            turn_id: "failed-turn".to_string(),
            status: TurnStatus::Interrupted,
            usage_limit_exceeded: false,
            completed_at: Some(6),
        },
        ServerNotification::TurnCompleted {
            turn_id: "failed-turn".to_string(),
            status: TurnStatus::Completed,
            usage_limit_exceeded: false,
            completed_at: Some(6),
        },
        ServerNotification::TurnStarted,
        ServerNotification::AccountUpdated,
        ServerNotification::ThreadClosed,
    ];
    for ending in endings {
        let mut state = failed_turn_waiting();
        state.observe_usage_reset_turn_at(&ending, 6_000);
        assert_eq!(state.resume_after_usage_reset("failed-turn", account, 7_000, &quota()), ResumeOutcome::Skip);
    }
    let mut state = failed_turn_waiting();
    state.observe_usage_reset_command(AppCommand::UserTurn);
    assert_eq!(state.resume_after_usage_reset("failed-turn", account, 7_000, &quota()), ResumeOutcome::Skip);
    // A turn that was not running when its failure arrived (a replay) is not waited for.
    let mut replayed = UsageResetState::new();
    replayed.last_turn_id = Some("failed-turn".to_string());
    let failure = ServerNotification::Error { turn_id: "failed-turn".to_string(), will_retry: false, usage_limit_exceeded: true };
    replayed.observe_usage_reset_turn_at(&failure, 5_000);
    assert_eq!(replayed.resume_after_usage_reset("failed-turn", account, 7_000, &quota()), ResumeOutcome::Skip);
}

#[test]
fn schedule_scans_on_ticks_and_enabled_setting_changes() {
    assert_eq!(schedule_action(ScheduleEvent::Tick), ScheduleAction::Scan);
    assert_eq!(
        schedule_action(ScheduleEvent::SettingsChanged { closed: false, enabled: true }),
        ScheduleAction::ScanAndResetInterval
    );
    assert_eq!(schedule_action(ScheduleEvent::SettingsChanged { closed: false, enabled: false }), ScheduleAction::Wait);
    assert_eq!(schedule_action(ScheduleEvent::SettingsChanged { closed: true, enabled: true }), ScheduleAction::Stop);
}

#[test]
fn attempt_decisions_and_usage_feed_the_account_status() {
    assert_eq!(decision_status(WeeklyWindowAttemptDecision::Ready, true, Some(40)), None);
    assert_eq!(decision_status(WeeklyWindowAttemptDecision::NotDue, true, Some(40)), Some(WeeklyWindowStatus::Waiting(Some(40))));
    assert_eq!(decision_status(WeeklyWindowAttemptDecision::Locked, false, None), Some(WeeklyWindowStatus::Failed));
    assert_eq!(decision_status(WeeklyWindowAttemptDecision::StateUnavailable, true, Some(40)), Some(WeeklyWindowStatus::Failed));
    assert_eq!(weekly_usage(None), WeeklyWindowUsage::Missing);
    assert_eq!(weekly_usage(Some(AccountUsage::default())), WeeklyWindowUsage::Missing);
    assert_eq!(
        weekly_usage(Some(weekly_left(false, 60))),
        WeeklyWindowUsage::Present { unused: false, resets_at: Some(NOW + 3600) }
    );
    assert_eq!(activation_failure_outcome(true), WeeklyWindowPingOutcome::LoginRequired);
    assert_eq!(activation_failure_outcome(false), WeeklyWindowPingOutcome::LocalSetup);
}

#[test]
fn schedule_scans_on_time_and_observes_disable_until_dropped() {
    let mut scheduler = WeeklyWindowScheduler::new(SchedulerSettings { weekly: true, auto_redeem: None });
    let mut scans = 0;
    let mut wake = |action: ScheduleAction, scans: &mut i32| {
        if matches!(action, ScheduleAction::Scan | ScheduleAction::ScanAndResetInterval) {
            *scans += 1;
        }
        action
    };
    wake(schedule_action(ScheduleEvent::Tick), &mut scans);
    assert_eq!(scans, 1);
    wake(schedule_action(ScheduleEvent::Tick), &mut scans);
    assert_eq!(scans, 2);

    let changed = scheduler.set_settings(false, None);
    assert!(changed);
    assert_eq!(
        wake(schedule_action(ScheduleEvent::SettingsChanged { closed: false, enabled: scheduler.settings().enabled() }), &mut scans),
        ScheduleAction::Wait
    );
    assert!(scheduler.set_settings(false, Some(AutoRedeemResets::default())));
    assert!(!scheduler.set_settings(false, Some(AutoRedeemResets::default())));
    assert_eq!(
        wake(schedule_action(ScheduleEvent::SettingsChanged { closed: false, enabled: scheduler.settings().enabled() }), &mut scans),
        ScheduleAction::ScanAndResetInterval
    );
    assert_eq!(scans, 3);

    drop(scheduler);
    assert_eq!(wake(schedule_action(ScheduleEvent::SettingsChanged { closed: true, enabled: true }), &mut scans), ScheduleAction::Stop);
    assert_eq!(scans, 3);
}

#[test]
fn automatic_selection_flag_does_not_gate_reset_automation() {
    // The store lists the account as enabled although its automation flag is off.
    let enabled = vec![("acct_test".to_string(), "/codex/accounts/acct_test".to_string())];
    assert_eq!(current_account_home(&enabled, "acct_test"), Ok("/codex/accounts/acct_test".to_string()));
}

#[test]
fn redemption_settings_come_from_the_user_configuration_table() {
    assert_eq!(
        settings_of_user_config("[auto_redeem_resets]\nbefore_expiry_minutes=1\nweekly_exhausted_min_wait_hours=1"),
        Some(AutoRedeemResets { before_expiry_minutes: 1, weekly_exhausted_min_wait_hours: 1 })
    );
    assert_eq!(
        settings_of_user_config("model = \"o3\"\n[auto_redeem_resets]\nbefore_expiry_minutes = 60\nweekly_exhausted_min_wait_hours = 72\n"),
        Some(AutoRedeemResets::default())
    );
    assert_eq!(settings_of_user_config("model = \"o3\"\n"), None);
    assert_eq!(settings_of_user_config("[auto_redeem_resets]\nbefore_expiry_minutes=0\nweekly_exhausted_min_wait_hours=1"), None);
    assert_eq!(settings_of_user_config("[auto_redeem_resets]\nbefore_expiry_minutes=5"), None);
    assert_eq!(settings_of_user_config("[auto_redeem_resets"), None);
}
