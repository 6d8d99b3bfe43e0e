use codex_plus_plus::app_state::App;
use codex_plus_plus::dcg_install::checkout_at_tag;
use codex_plus_plus::dcg_install::checkout_failure;
use codex_plus_plus::dcg_install::hook_state_key_path;
use codex_plus_plus::dcg_install::hook_trust_start;
use codex_plus_plus::dcg_install::hook_trust_step;
use codex_plus_plus::dcg_install::DiscoveredHook;
use codex_plus_plus::dcg_install::HookTrustAction;
use codex_plus_plus::dcg_install::HookTrustEvent;
use codex_plus_plus::dcg_install::HookTrustStage;
use codex_plus_plus::dcg_install::checkout_is_clean;
use codex_plus_plus::dcg_install::install_error_message;
use codex_plus_plus::dcg_install::install_step;
use codex_plus_plus::dcg_install::installer_failure_message;
use codex_plus_plus::dcg_install::managed_hook_lookup;
use codex_plus_plus::dcg_install::version_token;
use codex_plus_plus::dcg_install::HookEntry;
use codex_plus_plus::dcg_install::InstallAction;
use codex_plus_plus::dcg_install::InstallEvent;
use codex_plus_plus::dcg_install::InstallFailure;
use codex_plus_plus::dcg_install::InstallState;
use codex_plus_plus::destructive_command_guard::detect_status_step;
use codex_plus_plus::destructive_command_guard::installed_change;
use codex_plus_plus::destructive_command_guard::managed_marketplace;
use codex_plus_plus::destructive_command_guard::management_supported;
use codex_plus_plus::destructive_command_guard::operation_for;
use codex_plus_plus::destructive_command_guard::unsupported_reason;
use codex_plus_plus::destructive_command_guard::DcgAction;
use codex_plus_plus::destructive_command_guard::DcgCoordination;
use codex_plus_plus::destructive_command_guard::DcgOperation;
use codex_plus_plus::destructive_command_guard::DcgReleaseError;
use codex_plus_plus::destructive_command_guard::GitHubRelease;
use codex_plus_plus::destructive_command_guard::MarketplaceConfig;
use codex_plus_plus::destructive_command_guard::marketplace_config_of_file;
use codex_plus_plus::destructive_command_guard::ConfigFileRead;
use codex_plus_plus::destructive_command_guard::MarketplaceEntry;
use codex_plus_plus::destructive_command_guard::RepairReason;
use codex_plus_plus::destructive_command_guard::release_chunk_accepted;
use codex_plus_plus::destructive_command_guard::release_length_accepted;
use codex_plus_plus::destructive_command_guard::MAX_RELEASE_BODY_BYTES;
use codex_plus_plus::destructive_command_guard::DcgObservations;
use codex_plus_plus::destructive_command_guard::DcgQuery;
use codex_plus_plus::destructive_command_guard::DcgStatus;
use codex_plus_plus::destructive_command_guard::DcgTarget;
use codex_plus_plus::destructive_command_guard::DcgUnsupportedReason;
use codex_plus_plus::destructive_command_guard::DetectStep;
use codex_plus_plus::destructive_command_guard::HookLookup;
use codex_plus_plus::destructive_command_guard::HookTrustStatus;
use codex_plus_plus::destructive_command_guard::PluginSummary;
use codex_plus_plus::notices::lag_warning;
use codex_plus_plus::notices::may_be_stale_note;
use codex_plus_plus::notices::remove_bold_markers;
use codex_plus_plus::notices::replace_upstream_app_promo;
use codex_plus_plus::notices::status_details;
use codex_plus_plus::notices::welcome_help_lines;
use codex_plus_plus::notices::wrapped_tip;
use codex_plus_plus::notices::dcg_update_tip_text;
use codex_plus_plus::notices::welcome_tip_text;
use codex_plus_plus::notices::AccountIdentityFreshness;
use codex_plus_plus::notices::WelcomeState;
use codex_plus_plus::history::HistoryCell;
use codex_plus_plus::release::dismissed_release_status;
use codex_plus_plus::release::version_for_install;
use codex_plus_plus::release::from_target;
use codex_plus_plus::release::package_manager_command_args;
use codex_plus_plus::release::refreshed_release_status;
use codex_plus_plus::release::release_status_filepath;
use codex_plus_plus::release::standalone_command_args;
use codex_plus_plus::release::CachedReleaseStatus;
use codex_plus_plus::release::cached_fork_release_status;
use codex_plus_plus::release::ForkReleaseStatus;
use codex_plus_plus::release::PackageManager;
use codex_plus_plus::release::StandalonePlatform;
use codex_plus_plus::release::UpdateAction;
use codex_plus_plus::release::UpdateTarget;
use codex_plus_plus::terminal::after_drift_check;
use codex_plus_plus::terminal::restore_history_on_contraction;
use codex_plus_plus::terminal::PollAfterDriftCheck;
use codex_plus_plus::terminal::ContractionPlan;
use codex_plus_plus::terminal::InputModeOwner;
use codex_plus_plus::terminal::Rect;
use codex_plus_plus::usage_fetch::fetch_step;
use codex_plus_plus::usage_fetch::FetchAction;
use codex_plus_plus::usage_fetch::FetchEvent;
use codex_plus_plus::usage_fetch::FetchStage;
use codex_plus_plus::usage_fetch::RefreshTokenFailedReason;
use codex_plus_plus::user_message_inbox::AgentMessageItem;
use codex_plus_plus::user_message_inbox::MessagePhase;
use codex_plus_plus::user_message_inbox::ThreadId;

#[test]
fn replaces_only_upstream_app_promo() {
    let app_promo = "Run `codex app` to open Codex Desktop";
    assert_eq!(welcome_tip_text(), replace_upstream_app_promo(app_promo));

    let unrelated_tip = "Use /fast for faster inference";
    assert_eq!(unrelated_tip, replace_upstream_app_promo(unrelated_tip));
}

#[test]
fn welcome_help_drops_bold_markers_and_wraps() {
    assert_eq!(remove_bold_markers("a **b** ***c"), "a b *c");
    let lines = welcome_help_lines();
    assert!(lines.len() >= 2);
    assert!(lines.iter().all(|line| line.starts_with("  ") && line.chars().count() <= 78));
    assert!(lines[0].contains("Welcome to Codex++."));
    assert!(!lines.concat().contains("**"));
}

#[test]
fn dcg_tip_is_handed_out_once() {
    let mut welcome = WelcomeState::new();
    assert!(welcome.take_dcg_nux_help_lines().is_none());
    welcome.mark_dcg_nux_pending();
    let lines = welcome.take_dcg_nux_help_lines().expect("tip due");
    assert!(lines[0].starts_with("  Tip: Enable Destructive Command Guard"));
    assert!(welcome.take_dcg_nux_help_lines().is_none());
    assert!(welcome.take_dcg_nux_render_pending());
    assert!(!welcome.take_dcg_nux_render_pending());
    welcome.set_dcg_update_available(true);
    assert!(welcome.dcg_update_available());
}

#[test]
fn dcg_update_flag_reads_what_was_last_set() {
    let mut welcome = WelcomeState::new();
    assert!(!welcome.dcg_update_available());
    welcome.set_dcg_update_available(true);
    welcome.mark_dcg_nux_pending();
    assert!(welcome.take_dcg_nux_help_lines().is_some());
    assert!(welcome.dcg_update_available());
    assert!(welcome.dcg_update_available());
    welcome.set_dcg_update_available(false);
    assert!(!welcome.dcg_update_available());
}

#[test]
fn renders_cached_lag_warning_states() {
    assert_eq!(lag_warning(None, Some("upstream-lag/0.147"), "/home/alice/.codex/accounts"), None);
    assert_eq!(lag_warning(Some(3), Some("fork-update/0.144.4-fork.2"), "/home/alice/.codex/accounts"), None);
    assert_eq!(
        lag_warning(Some(3), Some("upstream-lag/0.147"), "/srv/codex-home/accounts"),
        Some(HistoryCell::Warning {
            message: "Codex++ is 3 releases behind Codex. Run `codex update upstream` to switch to upstream Codex. Your accounts stay saved in /srv/codex-home/accounts and will be ready if you switch back later.".to_string()
        })
    );
}

#[test]
fn capacity_details_need_the_retry_notice() {
    assert_eq!(status_details("The selected model is at capacity. Retrying in 2 minutes."), Some("Retrying in 2 minutes."));
    assert_eq!(status_details("The selected model is at capacity. Try later."), None);
    assert_eq!(status_details("Retrying in 2 minutes."), None);
}

#[test]
fn identity_becomes_stale_after_a_retried_usage_limit() {
    let mut freshness = AccountIdentityFreshness::new();
    freshness.observe_live_error(false, true);
    freshness.observe_live_error(true, false);
    assert!(!freshness.may_be_stale());
    freshness.observe_live_error(true, true);
    freshness.observe_live_error(false, false);
    assert!(freshness.may_be_stale());
}

#[test]
fn popup_cycles_restore_visible_history_without_accumulating_blank_rows() {
    let composer = Rect { x: 0, y: 10, width: 24, height: 2 };
    let popup = Rect { x: 0, y: 7, width: 24, height: 5 };
    assert_eq!(restore_history_on_contraction(composer, popup), ContractionPlan::Keep { cursor_y: 7 });
    assert_eq!(
        restore_history_on_contraction(popup, composer),
        ContractionPlan::Restore { clear_from_y: 7, scroll_region_end: 10, scroll_by: 3, cursor_y: 10 }
    );
}

#[test]
fn input_mode_owner_restores_the_initial_setting() {
    let mut owner = InputModeOwner::new();
    assert_eq!(owner.restore(0x0007), None);
    assert_eq!(owner.ensure_native(0x0207), Some(0x0007));
    assert_eq!(owner.ensure_native(0x0007), None);
    assert_eq!(owner.restore(0x0007), Some(0x0207));
    assert_eq!(owner.restore(0x0207), None);
}

#[test]
fn update_actions_follow_the_install_plan() {
    assert_eq!(
        from_target(UpdateTarget::PackageManager { manager: PackageManager::Bun }, None),
        Some(UpdateAction::CodexPlusPlusPackageManager(PackageManager::Bun))
    );
    let standalone = UpdateTarget::Standalone { platform: StandalonePlatform::Unix };
    assert_eq!(from_target(standalone, Some(true)), Some(UpdateAction::CodexPlusPlusStandalone(StandalonePlatform::Unix)));
    assert_eq!(from_target(standalone, Some(false)), None);
    assert_eq!(from_target(UpdateTarget::Homebrew, Some(true)), None);
    let (program, args) = package_manager_command_args(PackageManager::Pnpm);
    assert_eq!((program.as_str(), args), ("pnpm", vec!["add".to_string(), "-g".to_string(), "@jjliebig/codex-plus-plus".to_string()]));
    let (program, args) = standalone_command_args(StandalonePlatform::Windows);
    assert_eq!(program, "powershell");
    assert_eq!(args.len(), 4);
    assert!(args[3].contains("install-codex-plus-plus-latest.ps1"));
}

#[test]
fn release_status_cache_round_trips() {
    assert_eq!(release_status_filepath("/home/a/.codex"), "/home/a/.codex/codex-plus-plus/release-status.json");
    assert_eq!(release_status_filepath("/home/a/.codex/"), "/home/a/.codex/codex-plus-plus/release-status.json");
    let previous = CachedReleaseStatus {
        installed_fork_version: "0.1.0".to_string(),
        latest_fork_version: Some("0.1.0".to_string()),
        latest_stable_upstream_version: Some("0.146.0".to_string()),
        checked_at: 7,
        checked_at_nanos: 5,
        dismissed_version: Some("0.1.1".to_string()),
    };
    let refreshed = refreshed_release_status(&Some(previous.clone()), "0.1.0", Some("0.1.2".to_string()), None, 9, 11).unwrap();
    assert_eq!(refreshed.latest_stable_upstream_version.as_deref(), Some("0.146.0"));
    assert_eq!(refreshed.dismissed_version.as_deref(), Some("0.1.1"));
    assert_eq!(refreshed.latest_fork_version.as_deref(), Some("0.1.2"));
    assert_eq!((refreshed.checked_at, refreshed.checked_at_nanos), (9, 11));
    assert!(refreshed_release_status(&Some(previous.clone()), "0.1.0", None, None, 9, 11).is_none());
    let dismissed = dismissed_release_status(None, "0.1.0", "0.1.2");
    assert_eq!(dismissed.latest_fork_version.as_deref(), Some("0.1.2"));
    assert_eq!(dismissed.dismissed_version.as_deref(), Some("0.1.2"));
    let dismissed = dismissed_release_status(Some(previous), "0.1.0", "0.1.3");
    assert_eq!((dismissed.checked_at, dismissed.checked_at_nanos), (7, 5));
    assert_eq!(dismissed.dismissed_version.as_deref(), Some("0.1.3"));
}

#[test]
fn app_tracks_unread_durable_messages() {
    let mut app = App::new();
    let thread = ThreadId { value: 7 };
    let message = AgentMessageItem {
        id: "user-message:1".to_string(),
        content: vec!["[Message for you]\nHi".to_string()],
        phase: Some(MessagePhase::Commentary),
    };
    app.record_live_user_message(thread, &message);
    assert!(app.has_unread_user_message(thread));
    app.mark_user_messages_read(thread);
    assert!(!app.has_unread_user_message(thread));
    app.current_displayed_thread_id = Some(thread);
    let ordinary = AgentMessageItem { id: "msg-2".to_string(), content: vec!["hello".to_string()], phase: None };
    app.record_live_user_message(thread, &ordinary);
    let second = AgentMessageItem { id: "user-message:2".to_string(), ..message };
    app.record_live_user_message(thread, &second);
    assert!(!app.has_unread_user_message(thread));
    app.current_displayed_thread_id = None;
    app.record_live_user_message(ThreadId { value: 8 }, &second);
    assert!(app.has_unread_user_message(ThreadId { value: 8 }));
    app.clear_user_message_unread_state();
    assert!(!app.has_unread_user_message(ThreadId { value: 8 }));
}

fn target() -> DcgTarget {
    DcgTarget::from_tag("v0.6.9-codexpp.1").unwrap()
}

fn observations() -> DcgObservations {
    DcgObservations {
        unsupported: None,
        marketplace: Ok(Some(target())),
        binary_is_file: true,
        marketplace_root_is_dir: true,
        external_version: None,
        plugin: Some(Some(PluginSummary { installed: true, enabled: true, local_version: Some("0.6.9-codexpp.1".to_string()) })),
        binary_version: Some(Some("0.6.9-codexpp.1".to_string())),
        hook: Some(HookLookup::Found { enabled: true, trust: HookTrustStatus::Trusted }),
        latest: None,
    }
}

#[test]
fn status_detection_asks_for_what_it_needs() {
    assert_eq!(detect_status_step(&observations()), DetectStep::Need(DcgQuery::LatestRelease));
    let mut o = observations();
    o.latest = Some(Some(DcgTarget::from_tag("v0.7.0-codexpp.1").unwrap()));
    assert_eq!(
        detect_status_step(&o),
        DetectStep::Done {
            status: DcgStatus::UpdateAvailable {
                installed_version: Some("0.6.9-codexpp.1".to_string()),
                target_version: "0.7.0-codexpp.1".to_string(),
            },
            update_available: Some(true),
        }
    );
    let mut o = observations();
    o.latest = Some(None);
    assert_eq!(
        detect_status_step(&o),
        DetectStep::Done { status: DcgStatus::Enabled("0.6.9-codexpp.1".to_string()), update_available: None }
    );
    let mut o = observations();
    o.unsupported = Some(DcgUnsupportedReason::Platform);
    assert_eq!(
        detect_status_step(&o),
        DetectStep::Done { status: DcgStatus::Unsupported(DcgUnsupportedReason::Platform), update_available: None }
    );
}

#[test]
fn managed_install_lifecycle_rolls_back_after_plugin_install() {
    let (state, action) = install_step(InstallState::new(), InstallEvent::Begin { unsupported: None });
    assert!(matches!(action, InstallAction::ResolveLatestTarget));
    let (state, action) = install_step(state, InstallEvent::TargetResolved(Ok(target())));
    assert!(matches!(action, InstallAction::CheckMarketplace));
    let (state, action) = install_step(state, InstallEvent::MarketplaceChecked(None));
    assert!(matches!(action, InstallAction::AddMarketplace { ref ref_name } if ref_name == "v0.6.9-codexpp.1"));
    let (state, action) = install_step(state, InstallEvent::MarketplaceAdded(Ok("pimpmuckl-dcg".to_string())));
    assert!(matches!(action, InstallAction::VerifyCheckout { .. }));
    let (state, _) = install_step(state, InstallEvent::CheckoutVerified(Ok(())));
    let (state, _) = install_step(state, InstallEvent::PluginRead(Ok(false)));
    let (state, _) = install_step(state, InstallEvent::BinaryBackedUp(Ok(true)));
    let (state, action) = install_step(state, InstallEvent::PluginInstalled(Ok(())));
    assert!(matches!(action, InstallAction::RunInstaller { .. }));
    let (state, _) = install_step(state.clone(), InstallEvent::InstallerRan(Ok(())));
    let (failed, action) = install_step(state.clone(), InstallEvent::BinaryVersion(Some("0.6.8".to_string())));
    assert!(matches!(action, InstallAction::RollBack { restore_backup: true, plugin_enabled: false }));
    let (_, action) = install_step(failed, InstallEvent::RolledBack { binary: Ok(()), enablement: Err("denied".to_string()) });
    match action {
        InstallAction::Finish(Err(err)) => assert_eq!(
            install_error_message(&err),
            "managed DCG binary reported 0.6.8, expected 0.6.9-codexpp.1; plugin enablement rollback also failed: denied"
        ),
        _ => panic!("expected a failure"),
    }
    let (state, _) = install_step(state, InstallEvent::BinaryVersion(Some("0.6.9-codexpp.1".to_string())));
    let (_, action) = install_step(state, InstallEvent::HookTrusted(Ok(())));
    match action {
        InstallAction::Finish(Ok(change)) => {
            assert_eq!(change.status, DcgStatus::Enabled("0.6.9-codexpp.1".to_string()));
            assert!(!change.takes_effect_in_current_session);
        },
        _ => panic!("expected success"),
    }
}

#[test]
fn unsupported_hosts_cannot_install() {
    let (_, action) = install_step(InstallState::new(), InstallEvent::Begin { unsupported: Some(DcgUnsupportedReason::RemoteHookHost) });
    match action {
        InstallAction::Finish(Err(err)) => {
            assert_eq!(err.failure, InstallFailure::Unsupported(DcgUnsupportedReason::RemoteHookHost));
            assert_eq!(install_error_message(&err), "DCG management is unsupported for RemoteHookHost");
        },
        _ => panic!("expected a failure"),
    }
}

#[test]
fn checkout_and_binary_checks() {
    assert!(checkout_is_clean(true, "# branch.oid abc\n# branch.head (detached)\n"));
    assert!(!checkout_is_clean(true, "# branch.oid abc\n? untracked\n"));
    assert!(!checkout_is_clean(false, ""));
    assert!(checkout_at_tag(true, " v0.6.9-codexpp.1\n", "v0.6.9-codexpp.1"));
    assert!(!checkout_at_tag(true, "v0.6.8\n", "v0.6.9-codexpp.1"));
    assert_eq!(version_token("dcg 0.6.9-codexpp.1 (abc)\n").as_deref(), Some("0.6.9-codexpp.1"));
    assert_eq!(version_token("  no version here "), None);
    assert_eq!(
        installer_failure_message("exit status: 1", "  boom \n"),
        "resolved DCG installer failed with exit status: 1: boom"
    );
    let hook = |plugin: &str, dir: &str, enabled: bool| HookEntry {
        plugin_id: Some(plugin.to_string()),
        source_path_components: vec!["plugins".to_string(), dir.to_string(), "hook.sh".to_string()],
        enabled,
        trust_status: HookTrustStatus::Managed,
    };
    let hooks = vec![
        hook("other@market", "0.6.9-codexpp.1", true),
        hook("destructive-command-guard@pimpmuckl-dcg", "0.6.8", true),
        hook("destructive-command-guard@pimpmuckl-dcg", "0.6.9-codexpp.1", false),
    ];
    assert_eq!(
        managed_hook_lookup(false, false, &hooks, "0.6.9-codexpp.1"),
        HookLookup::Found { enabled: false, trust: HookTrustStatus::Managed }
    );
    assert_eq!(managed_hook_lookup(false, false, &hooks, "1.0"), HookLookup::Missing);
    assert_eq!(managed_hook_lookup(false, true, &hooks, "0.6.8"), HookLookup::Failed);
}

#[test]
fn usage_reads_retry_once_after_refreshing() {
    let (stage, action) = fetch_step::<u8>(FetchStage::Start, FetchEvent::Begin { chatgpt_allowed: true });
    assert!(matches!(action, FetchAction::LoadAuth));
    let (stage, action) = fetch_step::<u8>(stage, FetchEvent::AuthLoaded(Ok(true)));
    assert!(matches!(action, FetchAction::FetchUsage));
    let (stage, action) = fetch_step::<u8>(stage, FetchEvent::Fetched(Err(("401".to_string(), true))));
    assert!(matches!(action, FetchAction::RefreshAuth));
    let (stage, action) = fetch_step::<u8>(stage, FetchEvent::Refreshed(Ok(true)));
    assert!(matches!(action, FetchAction::FetchUsage));
    let (_, action) = fetch_step::<u8>(stage, FetchEvent::Fetched(Err(("401 again".to_string(), true))));
    match action {
        FetchAction::Finish(Err(e)) => assert_eq!(e.message, "401 again"),
        _ => panic!("expected a failure"),
    }
    let (_, action) = fetch_step::<u8>(
        FetchStage::Refreshing,
        FetchEvent::Refreshed(Err(("revoked".to_string(), Some(RefreshTokenFailedReason::Revoked), Some(9)))),
    );
    match action {
        FetchAction::Finish(Err(e)) => assert!(e.login_required && e.attempted_auth == Some(9)),
        _ => panic!("expected a failure"),
    }
    let (_, action) = fetch_step::<u8>(FetchStage::Start, FetchEvent::Begin { chatgpt_allowed: false });
    match action {
        FetchAction::Finish(Err(e)) => assert_eq!(e.message, "managed authentication policy does not permit ChatGPT accounts"),
        _ => panic!("expected a failure"),
    }
}

#[test]
fn release_responses_are_capped_at_two_mebibytes() {
    assert_eq!(MAX_RELEASE_BODY_BYTES, 2 * 1024 * 1024);
    assert!(release_length_accepted(None));
    assert!(release_length_accepted(Some(2 * 1024 * 1024)));
    assert!(!release_length_accepted(Some(2 * 1024 * 1024 + 1)));
    assert!(release_chunk_accepted(0, 2 * 1024 * 1024));
    assert!(release_chunk_accepted(1024, 2 * 1024 * 1024 - 1024));
    assert!(!release_chunk_accepted(1024, 2 * 1024 * 1024 - 1023));
    assert!(!release_chunk_accepted(u64::MAX, u64::MAX));
}

#[test]
fn events_read_under_a_drifted_input_mode_are_dropped() {
    assert_eq!(after_drift_check(false, true), PollAfterDriftCheck::Deliver);
    assert_eq!(after_drift_check(false, false), PollAfterDriftCheck::Deliver);
    assert_eq!(after_drift_check(true, true), PollAfterDriftCheck::PollAgain);
    assert_eq!(after_drift_check(true, false), PollAfterDriftCheck::Pending);
}

#[test]
fn packaged_installs_report_their_manifest_version() {
    assert_eq!(version_for_install(Some("0.153.3-fork.1"), "0.0.0"), "0.153.3-fork.1");
    assert_eq!(version_for_install(None, "0.153.3"), "0.153.3");
}

fn discovered(enabled: bool) -> DiscoveredHook {
    DiscoveredHook { key: "dcg:pre_tool_use".to_string(), current_hash: "sha256:abc".to_string(), enabled }
}

#[test]
fn hook_trust_waits_for_discovery_and_writes_the_current_hash() {
    let (mut state, action) = hook_trust_start();
    assert!(matches!(action, HookTrustAction::Discover));
    for attempt in 1..100u32 {
        let (next, action) = hook_trust_step(state, HookTrustEvent::Discovered(Ok(None)));
        assert!(matches!(action, HookTrustAction::Discover));
        assert_eq!(next.attempts, attempt);
        state = next;
    }
    let (found, action) = hook_trust_step(state.clone(), HookTrustEvent::Discovered(Ok(Some(discovered(true)))));
    assert_eq!(found.stage, HookTrustStage::Writing);
    match action {
        HookTrustAction::WriteTrust { key, trusted_hash } => {
            assert_eq!(key, "dcg:pre_tool_use");
            assert_eq!(trusted_hash, "sha256:abc");
        }
        other => panic!("unexpected {other:?}"),
    }
    let (done, action) = hook_trust_step(found.clone(), HookTrustEvent::TrustWritten(Ok(true)));
    assert_eq!(done.stage, HookTrustStage::Done);
    assert!(matches!(action, HookTrustAction::Finish(Ok(()))));

    let (_, action) = hook_trust_step(state, HookTrustEvent::Discovered(Ok(None)));
    match action {
        HookTrustAction::Finish(Err(message)) => assert_eq!(message, "installed DCG plugin hook was not discovered"),
        other => panic!("unexpected {other:?}"),
    }
}

#[test]
fn overridden_or_disabled_hooks_are_not_trusted() {
    let (start, _) = hook_trust_start();
    let (_, action) = hook_trust_step(start.clone(), HookTrustEvent::Discovered(Ok(Some(discovered(false)))));
    match action {
        HookTrustAction::Finish(Err(message)) => assert_eq!(message, "installed DCG plugin hook is disabled"),
        other => panic!("unexpected {other:?}"),
    }
    let (_, action) = hook_trust_step(start.clone(), HookTrustEvent::Discovered(Err("hook discovery reported errors".to_string())));
    assert!(matches!(action, HookTrustAction::Finish(Err(message)) if message == "hook discovery reported errors"));

    let (writing, _) = hook_trust_step(start, HookTrustEvent::Discovered(Ok(Some(discovered(true)))));
    let (restoring, action) = hook_trust_step(writing, HookTrustEvent::TrustWritten(Ok(false)));
    assert_eq!(restoring.stage, HookTrustStage::Restoring);
    assert!(matches!(action, HookTrustAction::RestorePrior { key } if key == "dcg:pre_tool_use"));
    let (done, action) = hook_trust_step(restoring, HookTrustEvent::PriorRestored(Ok(())));
    assert_eq!(done.stage, HookTrustStage::Done);
    match action {
        HookTrustAction::Finish(Err(message)) => {
            assert_eq!(message, "installed DCG hook trust is overridden by managed configuration")
        }
        other => panic!("unexpected {other:?}"),
    }
}

#[test]
fn hook_trust_state_is_keyed_by_the_json_encoded_hook_key() {
    assert_eq!(hook_state_key_path("dcg:pre_tool_use"), Some("hooks.state.\"dcg:pre_tool_use\"".to_string()));
    assert_eq!(hook_state_key_path("a\"b"), Some("hooks.state.\"a\\\"b\"".to_string()));
    assert_eq!(
        hook_state_key_path("a\tb\\c\u{1}\u{1f}\u{7f}é"),
        Some("hooks.state.\"a\\tb\\\\c\\u0001\\u001f\u{7f}é\"".to_string())
    );
}

fn help_words(lines: &[String]) -> String {
    lines.iter().map(|line| line.trim()).collect::<Vec<_>>().join(" ")
}

#[test]
fn welcome_help_first_and_later_startup_snapshot() {
    let mut first = WelcomeState::new();
    first.mark_dcg_nux_pending();
    let mut first_lines = welcome_help_lines();
    first_lines.extend(first.take_dcg_nux_help_lines().expect("tip due"));
    let later_lines = welcome_help_lines();
    assert!(first_lines.iter().all(|line| line.starts_with("  ") && line.len() <= 78));
    assert_eq!(
        help_words(&first_lines),
        "Welcome to Codex++. Use /codexplusplus for settings and /accounts to enable or disable accounts. \
Tip: Enable Destructive Command Guard in /codexplusplus to send risky commands to Guardian for review even in full --yolo mode."
    );
    assert_eq!(
        help_words(&later_lines),
        "Welcome to Codex++. Use /codexplusplus for settings and /accounts to enable or disable accounts."
    );
    assert_eq!(
        wrapped_tip(dcg_update_tip_text()),
        vec!["  Tip: A Destructive Command Guard update is available in /codexplusplus.".to_string()]
    );
}

#[test]
fn unpackaged_build_keeps_the_crate_version() {
    assert_eq!(version_for_install(None, "0.1.0"), "0.1.0");
}

fn release(tag: &str, draft: bool, prerelease: bool, published_at: Option<&str>) -> GitHubRelease {
    GitHubRelease {
        tag_name: tag.to_string(),
        draft,
        prerelease,
        published_at: published_at.map(str::to_string),
    }
}

#[test]
fn latest_release_must_be_published_stable_and_codexpp_tagged() {
    let published = Some("2025-07-14T08:00:00Z");
    let target = release("v0.6.9-codexpp.2", false, false, published).into_target().expect("eligible");
    assert_eq!(target.tag, "v0.6.9-codexpp.2");
    assert_eq!(target.version, "0.6.9-codexpp.2");
    assert_eq!(target.precedence, [0, 6, 9, 2]);
    assert_eq!(release("v0.6.9-codexpp.2", true, false, published).into_target(), Err(DcgReleaseError::NotPublishedStable));
    assert_eq!(release("v0.6.9-codexpp.2", false, true, published).into_target(), Err(DcgReleaseError::NotPublishedStable));
    assert_eq!(release("v0.6.9-codexpp.2", false, false, Some("")).into_target(), Err(DcgReleaseError::NotPublishedStable));
    assert_eq!(release("v0.6.9-codexpp.2", false, false, None).into_target(), Err(DcgReleaseError::NotPublishedStable));
    assert_eq!(release("v0.6.9", false, false, published).into_target(), Err(DcgReleaseError::TagMismatch));
}

fn entry(source_type: &str, source: &str, ref_name: Option<&str>) -> MarketplaceConfig {
    MarketplaceConfig::Read(Some(MarketplaceEntry {
        source_type: Some(source_type.to_string()),
        source: Some(source.to_string()),
        ref_name: ref_name.map(str::to_string),
    }))
}

#[test]
fn managed_marketplace_pin_must_be_an_eligible_git_tag_of_the_managed_source() {
    let source = "https://github.com/Pimpmuckl/destructive_command_guard";
    assert_eq!(managed_marketplace(&MarketplaceConfig::Missing, source), Ok(None));
    assert_eq!(managed_marketplace(&MarketplaceConfig::Read(None), source), Ok(None));
    assert_eq!(
        managed_marketplace(&MarketplaceConfig::Malformed, source),
        Err(RepairReason::MarketplaceConfigMalformed)
    );
    let pinned = managed_marketplace(&entry("git", source, Some("v0.6.9-codexpp.1")), source)
        .expect("valid pin")
        .expect("pinned");
    assert_eq!(pinned, target());
    for config in [
        entry("git", source, None),
        entry("git", source, Some("main")),
        entry("local", source, Some("v0.6.9-codexpp.1")),
        entry("git", "https://example.com/fork", Some("v0.6.9-codexpp.1")),
    ] {
        assert_eq!(managed_marketplace(&config, source), Err(RepairReason::MarketplacePinMismatch));
    }
}

#[test]
fn guard_actions_map_to_operations_and_support_checks() {
    assert_eq!(operation_for(DcgAction::InstallAndEnable), DcgOperation::InstallManaged);
    assert_eq!(operation_for(DcgAction::Update), DcgOperation::InstallManaged);
    assert_eq!(operation_for(DcgAction::Enable), DcgOperation::SetEnabled(true));
    assert_eq!(operation_for(DcgAction::Disable), DcgOperation::SetEnabled(false));
    assert_eq!(operation_for(DcgAction::Repair(RepairReason::HookUntrusted)), DcgOperation::InstallManaged);
    assert_eq!(
        operation_for(DcgAction::Repair(RepairReason::HookDisabled)),
        DcgOperation::Refuse(RepairReason::HookDisabled)
    );
    assert_eq!(
        operation_for(DcgAction::Repair(RepairReason::MarketplacePinMismatch)),
        DcgOperation::Refuse(RepairReason::MarketplacePinMismatch)
    );
    assert_eq!(unsupported_reason(false, true), Some(DcgUnsupportedReason::Platform));
    assert_eq!(unsupported_reason(true, true), Some(DcgUnsupportedReason::RemoteHookHost));
    assert_eq!(unsupported_reason(true, false), None);
    assert!(management_supported(true, false));
    assert!(!management_supported(true, true));
    assert!(!management_supported(false, false));
    let change = installed_change(&target());
    assert_eq!(change.status, DcgStatus::Enabled("0.6.9-codexpp.1".to_string()));
    assert!(!change.takes_effect_in_current_session);
}

#[test]
fn one_guard_operation_at_a_time_and_only_the_latest_detection_counts() {
    let mut coordination = DcgCoordination::new();
    assert!(coordination.try_begin_operation());
    assert!(!coordination.try_begin_operation());
    coordination.finish_operation();
    assert!(coordination.try_begin_operation());
    let first = coordination.begin_status_detection();
    let second = coordination.begin_status_detection();
    assert_eq!((first, second), (1, 2));
    assert!(!coordination.is_current_status_detection(first));
    assert!(coordination.is_current_status_detection(second));
}

#[test]
fn removed_threads_forget_their_unread_messages() {
    let mut app = App::new();
    let message = AgentMessageItem {
        id: "user-message:1".to_string(),
        content: vec!["[Message for you]\nHi".to_string()],
        phase: Some(MessagePhase::Commentary),
    };
    app.record_live_user_message(ThreadId { value: 1 }, &message);
    app.record_live_user_message(ThreadId { value: 2 }, &message);
    app.remove_user_message_thread_state(ThreadId { value: 1 });
    assert!(!app.has_unread_user_message(ThreadId { value: 1 }));
    assert!(app.has_unread_user_message(ThreadId { value: 2 }));
}

#[test]
fn checkout_failures_name_the_first_problem() {
    assert_eq!(checkout_failure(false, false, "v1.0.0-codexpp.1").as_deref(), Some("resolved DCG marketplace checkout is not clean"));
    assert_eq!(
        checkout_failure(true, false, "v1.0.0-codexpp.1").as_deref(),
        Some("resolved DCG marketplace checkout is not tag v1.0.0-codexpp.1")
    );
    assert_eq!(checkout_failure(true, true, "v1.0.0-codexpp.1"), None);
    assert_eq!(may_be_stale_note(), "Account identity may be stale after automatic failover.");
}

#[test]
fn cached_release_status_takes_the_installed_version() {
    assert_eq!(
        cached_fork_release_status(None, "1.2.0".to_string()),
        ForkReleaseStatus::Unavailable { installed_fork_version: "1.2.0".to_string() }
    );
    let cached = CachedReleaseStatus {
        installed_fork_version: "1.1.0".to_string(),
        latest_fork_version: Some("1.3.0".to_string()),
        latest_stable_upstream_version: Some("0.9.0".to_string()),
        checked_at: 1_700_000_000,
        checked_at_nanos: 250,
        dismissed_version: None,
    };
    assert_eq!(
        cached_fork_release_status(Some(cached.clone()), "1.2.0".to_string()),
        ForkReleaseStatus::Cached(CachedReleaseStatus { installed_fork_version: "1.2.0".to_string(), ..cached })
    );
}

#[test]
fn marketplace_config_is_read_from_the_configuration_text() {
    assert_eq!(marketplace_config_of_file(&ConfigFileRead::NotFound), MarketplaceConfig::Missing);
    assert_eq!(marketplace_config_of_file(&ConfigFileRead::Unreadable), MarketplaceConfig::Malformed);
    assert_eq!(
        marketplace_config_of_file(&ConfigFileRead::Text("marketplaces = [".to_string())),
        MarketplaceConfig::Malformed
    );
    assert_eq!(
        marketplace_config_of_file(&ConfigFileRead::Text("model = \"o3\"\n[marketplaces.other]\nsource = \"x\"\n".to_string())),
        MarketplaceConfig::Read(None)
    );
    let text = "[marketplaces.pimpmuckl-dcg]\nsource_type = \"git\"\nsource = \"https://example.com/dcg.git\"\nref = \"v0.6.9-codexpp.1\"\n";
    assert_eq!(
        marketplace_config_of_file(&ConfigFileRead::Text(text.to_string())),
        MarketplaceConfig::Read(Some(MarketplaceEntry {
            source_type: Some("git".to_string()),
            source: Some("https://example.com/dcg.git".to_string()),
            ref_name: Some("v0.6.9-codexpp.1".to_string()),
        }))
    );
    let unpinned = "[marketplaces.pimpmuckl-dcg]\nsource_type = \"git\"\nref = 3\n";
    assert_eq!(
        marketplace_config_of_file(&ConfigFileRead::Text(unpinned.to_string())),
        MarketplaceConfig::Read(Some(MarketplaceEntry { source_type: Some("git".to_string()), source: None, ref_name: None }))
    );
}
