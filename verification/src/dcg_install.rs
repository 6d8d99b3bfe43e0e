//! Installing the managed Destructive Command Guard release, as a sequence
//! of steps whose outcomes decide what comes next; a failure after the
//! plugin was installed rolls the binary and the plugin's enablement back.

use vstd::prelude::*;
use crate::destructive_command_guard::DcgChange;
use crate::destructive_command_guard::DcgStatus;
use crate::destructive_command_guard::DcgTarget;
use crate::destructive_command_guard::DcgUnsupportedReason;
use crate::destructive_command_guard::RepairReason;
use crate::text::str_eq;
use crate::text::trim;
use crate::text::trimmed;
use crate::text::is_ws;
use crate::text::is_whitespace;
use crate::destructive_command_guard::HookLookup;
use crate::destructive_command_guard::HookTrustStatus;

verus! {

/// The marketplace name the managed checkout must expose.
pub open spec fn managed_marketplace_name() -> Seq<char> {
    "pimpmuckl-dcg"@
}

/// Where an installation stands.
#[derive(Clone, Copy, Debug, PartialEq, Eq, Structural)]
pub enum InstallStage {
    Start,
    ResolvingTarget,
    CheckingMarketplace,
    AddingMarketplace,
    VerifyingCheckout,
    ReadingPlugin,
    BackingUpBinary,
    InstallingPlugin,
    RunningInstaller,
    VerifyingBinary,
    TrustingHook,
    RollingBack,
    Done,
}

/// Why an installation failed.
#[derive(Clone, Debug, PartialEq, Eq)]
pub enum InstallFailure {
    Unsupported(DcgUnsupportedReason),
    /// The latest release could not be resolved.
    Target(String),
    /// The managed marketplace configuration needs correction first.
    MarketplaceState(RepairReason),
    MarketplaceAdd(String),
    UnexpectedMarketplaceName,
    Checkout(String),
    PluginRead(String),
    Backup(String),
    PluginInstall(String),
    Installer(String),
    BinaryVersionMissing,
    BinaryVersionMismatch { reported: String, expected: String },
    HookTrust(String),
}

/// A failed installation, with what went wrong while rolling it back.
#[derive(Clone, Debug, PartialEq, Eq)]
pub struct InstallError {
    pub failure: InstallFailure,
    pub binary_rollback: Option<String>,
    pub enablement_rollback: Option<String>,
}

/// The state of an installation.
#[derive(Clone, Debug, PartialEq, Eq)]
pub struct InstallState {
    pub stage: InstallStage,
    pub target: Option<DcgTarget>,
    pub plugin_was_enabled: bool,
    pub has_backup: bool,
    pub failure: Option<InstallFailure>,
}

/// What the previous step reported.
#[derive(Debug)]
pub enum InstallEvent {
    Begin { unsupported: Option<DcgUnsupportedReason> },
    TargetResolved(Result<DcgTarget, String>),
    /// The managed marketplace state, `Some` when it needs repair.
    MarketplaceChecked(Option<RepairReason>),
    /// The name of the added marketplace.
    MarketplaceAdded(Result<String, String>),
    CheckoutVerified(Result<(), String>),
    /// Whether the plugin was enabled before.
    PluginRead(Result<bool, String>),
    /// Whether there was a binary to back up.
    BinaryBackedUp(Result<bool, String>),
    PluginInstalled(Result<(), String>),
    InstallerRan(Result<(), String>),
    /// The version the installed binary reports.
    BinaryVersion(Option<String>),
    HookTrusted(Result<(), String>),
    RolledBack { binary: Result<(), String>, enablement: Result<(), String> },
}

/// The next step to take.
#[derive(Debug)]
pub enum InstallAction {
    ResolveLatestTarget,
    CheckMarketplace,
    /// Add the managed marketplace pinned to the tag.
    AddMarketplace { ref_name: String },
    /// Check that the checkout is clean and at the tag.
    VerifyCheckout { tag: String },
    ReadPlugin,
    BackUpBinary,
    InstallPlugin,
    RunInstaller { tag: String },
    VerifyBinary,
    TrustHook,
    /// Restore the backed-up binary (or remove the new one) and the plugin's enablement.
    RollBack { restore_backup: bool, plugin_enabled: bool },
    Finish(Result<DcgChange, InstallError>),
}

impl InstallState {
    /// An installation that has not begun.
    pub open spec fn spec_new() -> InstallState {
        InstallState { stage: InstallStage::Start, target: None, plugin_was_enabled: false, has_backup: false, failure: None }
    }

    /// An installation that has not begun.
    pub fn new() -> (res: InstallState)
        ensures
            res == InstallState::spec_new(),
    {
        InstallState { stage: InstallStage::Start, target: None, plugin_was_enabled: false, has_backup: false, failure: None }
    }
}

/// The event is the report of the step the state waits for.
pub open spec fn event_fits(state: InstallState, event: InstallEvent) -> bool {
    match event {
        InstallEvent::Begin { .. } => state.stage == InstallStage::Start,
        InstallEvent::TargetResolved(_) => state.stage == InstallStage::ResolvingTarget,
        InstallEvent::MarketplaceChecked(_) => state.stage == InstallStage::CheckingMarketplace,
        InstallEvent::MarketplaceAdded(_) => state.stage == InstallStage::AddingMarketplace,
        InstallEvent::CheckoutVerified(_) => state.stage == InstallStage::VerifyingCheckout,
        InstallEvent::PluginRead(_) => state.stage == InstallStage::ReadingPlugin,
        InstallEvent::BinaryBackedUp(_) => state.stage == InstallStage::BackingUpBinary,
        InstallEvent::PluginInstalled(_) => state.stage == InstallStage::InstallingPlugin,
        InstallEvent::InstallerRan(_) => state.stage == InstallStage::RunningInstaller,
        InstallEvent::BinaryVersion(_) => state.stage == InstallStage::VerifyingBinary,
        InstallEvent::HookTrusted(_) => state.stage == InstallStage::TrustingHook,
        InstallEvent::RolledBack { .. } => state.stage == InstallStage::RollingBack,
    }
}

/// The state once the installation has ended.
pub open spec fn finished(state: InstallState) -> InstallState {
    InstallState { stage: InstallStage::Done, ..state }
}

/// Fails before anything was changed.
pub open spec fn fail_early(state: InstallState, failure: InstallFailure) -> (InstallState, InstallAction) {
    (finished(state), InstallAction::Finish(Err(InstallError { failure, binary_rollback: None, enablement_rollback: None })))
}

/// Fails after the plugin was installed: roll back first.
pub open spec fn fail_late(state: InstallState, failure: InstallFailure) -> (InstallState, InstallAction) {
    (
        InstallState { stage: InstallStage::RollingBack, failure: Some(failure), ..state },
        InstallAction::RollBack { restore_backup: state.has_backup, plugin_enabled: state.plugin_was_enabled },
    )
}

/// Moves on to `stage` and takes `action`.
pub open spec fn advance(state: InstallState, stage: InstallStage, action: InstallAction) -> (InstallState, InstallAction) {
    (InstallState { stage, ..state }, action)
}

/// One step of an installation: unsupported hosts fail at once; then the
/// latest release is resolved, the marketplace state must not need repair,
/// the marketplace is added at the release tag and must be the managed one,
/// the checkout is verified, the plugin's enablement remembered, the binary
/// backed up and the plugin installed. From there the installer runs, the
/// binary must report the target version and the hook is trusted; a failure
/// in any of these rolls back before it is reported. Success enables the
/// target version from the next session on.
pub open spec fn spec_install_step(state: InstallState, event: InstallEvent) -> (InstallState, InstallAction) {
    match event {
        InstallEvent::Begin { unsupported } => match unsupported {
            Some(r) => fail_early(state, InstallFailure::Unsupported(r)),
            None => advance(state, InstallStage::ResolvingTarget, InstallAction::ResolveLatestTarget),
        },
        InstallEvent::TargetResolved(r) => match r {
            Err(e) => fail_early(state, InstallFailure::Target(e)),
            Ok(t) => (
                InstallState { stage: InstallStage::CheckingMarketplace, target: Some(t), ..state },
                InstallAction::CheckMarketplace,
            ),
        },
        InstallEvent::MarketplaceChecked(r) => match r {
            Some(reason) => fail_early(state, InstallFailure::MarketplaceState(reason)),
            None => advance(state, InstallStage::AddingMarketplace,
                InstallAction::AddMarketplace { ref_name: state.target->0.tag }),
        },
        InstallEvent::MarketplaceAdded(r) => match r {
            Err(e) => fail_early(state, InstallFailure::MarketplaceAdd(e)),
            Ok(name) => if name@ != managed_marketplace_name() {
                fail_early(state, InstallFailure::UnexpectedMarketplaceName)
            } else {
                advance(state, InstallStage::VerifyingCheckout,
                    InstallAction::VerifyCheckout { tag: state.target->0.tag })
            },
        },
        InstallEvent::CheckoutVerified(r) => match r {
            Err(e) => fail_early(state, InstallFailure::Checkout(e)),
            Ok(()) => advance(state, InstallStage::ReadingPlugin, InstallAction::ReadPlugin),
        },
        InstallEvent::PluginRead(r) => match r {
            Err(e) => fail_early(state, InstallFailure::PluginRead(e)),
            Ok(enabled) => (
                InstallState { stage: InstallStage::BackingUpBinary, plugin_was_enabled: enabled, ..state },
                InstallAction::BackUpBinary,
            ),
        },
        InstallEvent::BinaryBackedUp(r) => match r {
            Err(e) => fail_early(state, InstallFailure::Backup(e)),
            Ok(b) => (
                InstallState { stage: InstallStage::InstallingPlugin, has_backup: b, ..state },
                InstallAction::InstallPlugin,
            ),
        },
        InstallEvent::PluginInstalled(r) => match r {
            Err(e) => fail_early(state, InstallFailure::PluginInstall(e)),
            Ok(()) => advance(state, InstallStage::RunningInstaller,
                InstallAction::RunInstaller { tag: state.target->0.tag }),
        },
        InstallEvent::InstallerRan(r) => match r {
            Err(e) => fail_late(state, InstallFailure::Installer(e)),
            Ok(()) => advance(state, InstallStage::VerifyingBinary, InstallAction::VerifyBinary),
        },
        InstallEvent::BinaryVersion(v) => match v {
            None => fail_late(state, InstallFailure::BinaryVersionMissing),
            Some(version) => if version@ != state.target->0.version@ {
                fail_late(state, InstallFailure::BinaryVersionMismatch { reported: version, expected: state.target->0.version })
            } else {
                advance(state, InstallStage::TrustingHook, InstallAction::TrustHook)
            },
        },
        InstallEvent::HookTrusted(r) => match r {
            Err(e) => fail_late(state, InstallFailure::HookTrust(e)),
            Ok(()) => (
                finished(state),
                InstallAction::Finish(Ok(DcgChange {
                    status: DcgStatus::Enabled(state.target->0.version),
                    takes_effect_in_current_session: false,
                })),
            ),
        },
        InstallEvent::RolledBack { binary, enablement } => (
            finished(state),
            InstallAction::Finish(Err(InstallError {
                failure: state.failure->0,
                binary_rollback: match binary { Err(e) => Some(e), Ok(()) => None },
                enablement_rollback: match binary {
                    Err(_) => None,
                    Ok(()) => match enablement { Err(e) => Some(e), Ok(()) => None },
                },
            })),
        ),
    }
}

/// The state has what its stage relies on: the target from the
/// marketplace check on, and the failure while rolling back.
pub open spec fn install_wf(state: InstallState) -> bool {
    &&& (state.stage != InstallStage::Start && state.stage != InstallStage::ResolvingTarget
        && state.stage != InstallStage::Done) ==> state.target.is_some()
    &&& state.stage == InstallStage::RollingBack ==> state.failure.is_some()
}

fn target_of(state: &InstallState) -> (res: &DcgTarget)
    requires
        state.target.is_some(),
    ensures
        *res == state.target->0,
{
    state.target.as_ref().unwrap()
}

fn copy_failure(f: &InstallFailure) -> (res: InstallFailure)
    ensures
        res == *f,
{
    match f {
        InstallFailure::Unsupported(r) => InstallFailure::Unsupported(*r),
        InstallFailure::Target(e) => InstallFailure::Target(e.clone()),
        InstallFailure::MarketplaceState(r) => InstallFailure::MarketplaceState(*r),
        InstallFailure::MarketplaceAdd(e) => InstallFailure::MarketplaceAdd(e.clone()),
        InstallFailure::UnexpectedMarketplaceName => InstallFailure::UnexpectedMarketplaceName,
        InstallFailure::Checkout(e) => InstallFailure::Checkout(e.clone()),
        InstallFailure::PluginRead(e) => InstallFailure::PluginRead(e.clone()),
        InstallFailure::Backup(e) => InstallFailure::Backup(e.clone()),
        InstallFailure::PluginInstall(e) => InstallFailure::PluginInstall(e.clone()),
        InstallFailure::Installer(e) => InstallFailure::Installer(e.clone()),
        InstallFailure::BinaryVersionMissing => InstallFailure::BinaryVersionMissing,
        InstallFailure::BinaryVersionMismatch { reported, expected } => InstallFailure::BinaryVersionMismatch {
            reported: reported.clone(),
            expected: expected.clone(),
        },
        InstallFailure::HookTrust(e) => InstallFailure::HookTrust(e.clone()),
    }
}

fn stage_to(state: InstallState, stage: InstallStage) -> (res: InstallState)
    ensures
        res == (InstallState { stage, ..state }),
{
    InstallState { stage, ..state }
}

fn rollback(state: InstallState, failure: InstallFailure) -> (res: (InstallState, InstallAction))
    ensures
        res == fail_late(state, failure),
{
    let action = InstallAction::RollBack { restore_backup: state.has_backup, plugin_enabled: state.plugin_was_enabled };
    (InstallState { stage: InstallStage::RollingBack, failure: Some(failure), ..state }, action)
}

fn early(state: InstallState, failure: InstallFailure) -> (res: (InstallState, InstallAction))
    ensures
        res == fail_early(state, failure),
{
    (
        InstallState { stage: InstallStage::Done, ..state },
        InstallAction::Finish(Err(InstallError { failure, binary_rollback: None, enablement_rollback: None })),
    )
}

/// Takes one step of an installation; see `spec_install_step`.
pub fn install_step(state: InstallState, event: InstallEvent) -> (res: (InstallState, InstallAction))
    requires
        install_wf(state),
        event_fits(state, event),
    ensures
        res == spec_install_step(state, event),
        install_wf(res.0),
{
    match event {
        InstallEvent::Begin { unsupported } => match unsupported {
            Some(r) => early(state, InstallFailure::Unsupported(r)),
            None => (stage_to(state, InstallStage::ResolvingTarget), InstallAction::ResolveLatestTarget),
        },
        InstallEvent::TargetResolved(r) => match r {
            Err(e) => early(state, InstallFailure::Target(e)),
            Ok(t) => (
                InstallState { stage: InstallStage::CheckingMarketplace, target: Some(t), ..state },
                InstallAction::CheckMarketplace,
            ),
        },
        InstallEvent::MarketplaceChecked(r) => match r {
            Some(reason) => early(state, InstallFailure::MarketplaceState(reason)),
            None => {
                let tag = target_of(&state).tag.clone();
                (stage_to(state, InstallStage::AddingMarketplace), InstallAction::AddMarketplace { ref_name: tag })
            },
        },
        InstallEvent::MarketplaceAdded(r) => match r {
            Err(e) => early(state, InstallFailure::MarketplaceAdd(e)),
            Ok(name) => {
                if !str_eq(name.as_str(), "pimpmuckl-dcg") {
                    early(state, InstallFailure::UnexpectedMarketplaceName)
                } else {
                    let tag = target_of(&state).tag.clone();
                    (stage_to(state, InstallStage::VerifyingCheckout), InstallAction::VerifyCheckout { tag })
                }
            },
        },
        InstallEvent::CheckoutVerified(r) => match r {
            Err(e) => early(state, InstallFailure::Checkout(e)),
            Ok(()) => (stage_to(state, InstallStage::ReadingPlugin), InstallAction::ReadPlugin),
        },
        InstallEvent::PluginRead(r) => match r {
            Err(e) => early(state, InstallFailure::PluginRead(e)),
            Ok(enabled) => (
                InstallState { stage: InstallStage::BackingUpBinary, plugin_was_enabled: enabled, ..state },
                InstallAction::BackUpBinary,
            ),
        },
        InstallEvent::BinaryBackedUp(r) => match r {
            Err(e) => early(state, InstallFailure::Backup(e)),
            Ok(b) => (
                InstallState { stage: InstallStage::InstallingPlugin, has_backup: b, ..state },
                InstallAction::InstallPlugin,
            ),
        },
        InstallEvent::PluginInstalled(r) => match r {
            Err(e) => early(state, InstallFailure::PluginInstall(e)),
            Ok(()) => {
                let tag = target_of(&state).tag.clone();
                (stage_to(state, InstallStage::RunningInstaller), InstallAction::RunInstaller { tag })
            },
        },
        InstallEvent::InstallerRan(r) => match r {
            Err(e) => rollback(state, InstallFailure::Installer(e)),
            Ok(()) => (stage_to(state, InstallStage::VerifyingBinary), InstallAction::VerifyBinary),
        },
        InstallEvent::BinaryVersion(v) => match v {
            None => rollback(state, InstallFailure::BinaryVersionMissing),
            Some(version) => {
                let expected = target_of(&state).version.clone();
                if !str_eq(version.as_str(), expected.as_str()) {
                    rollback(state, InstallFailure::BinaryVersionMismatch { reported: version, expected })
                } else {
                    (stage_to(state, InstallStage::TrustingHook), InstallAction::TrustHook)
                }
            },
        },
        InstallEvent::HookTrusted(r) => match r {
            Err(e) => rollback(state, InstallFailure::HookTrust(e)),
            Ok(()) => {
                let version = target_of(&state).version.clone();
                (
                    InstallState { stage: InstallStage::Done, ..state },
                    InstallAction::Finish(Ok(DcgChange {
                        status: DcgStatus::Enabled(version),
                        takes_effect_in_current_session: false,
                    })),
                )
            },
        },
        InstallEvent::RolledBack { binary, enablement } => {
            let failure = copy_failure(state.failure.as_ref().unwrap());
            let binary_rollback = match binary { Err(e) => Some(e), Ok(()) => None };
            let enablement_rollback = if binary_rollback.is_some() {
                None
            } else {
                match enablement { Err(e) => Some(e), Ok(()) => None }
            };
            (
                InstallState { stage: InstallStage::Done, ..state },
                InstallAction::Finish(Err(InstallError { failure, binary_rollback, enablement_rollback })),
            )
        },
    }
}

} // verus!

verus! {

/// The name of a repair reason, as its `Debug` form writes it.
pub open spec fn spec_repair_reason_name(r: RepairReason) -> Seq<char> {
    match r {
        RepairReason::MarketplaceConfigMalformed => "MarketplaceConfigMalformed"@,
        RepairReason::MarketplacePinMismatch => "MarketplacePinMismatch"@,
        RepairReason::MarketplaceUnavailable => "MarketplaceUnavailable"@,
        RepairReason::PluginMissing => "PluginMissing"@,
        RepairReason::BinaryMissing => "BinaryMissing"@,
        RepairReason::BinaryVersionUnreadable => "BinaryVersionUnreadable"@,
        RepairReason::HookMissing => "HookMissing"@,
        RepairReason::HookUntrusted => "HookUntrusted"@,
        RepairReason::HookModified => "HookModified"@,
        RepairReason::HookDisabled => "HookDisabled"@,
        RepairReason::StatusUnavailable => "StatusUnavailable"@,
    }
}

/// The name of a repair reason, as its `Debug` form writes it.
pub fn repair_reason_name(r: RepairReason) -> (res: &'static str)
    ensures
        res@ == spec_repair_reason_name(r),
{
    match r {
        RepairReason::MarketplaceConfigMalformed => "MarketplaceConfigMalformed",
        RepairReason::MarketplacePinMismatch => "MarketplacePinMismatch",
        RepairReason::MarketplaceUnavailable => "MarketplaceUnavailable",
        RepairReason::PluginMissing => "PluginMissing",
        RepairReason::BinaryMissing => "BinaryMissing",
        RepairReason::BinaryVersionUnreadable => "BinaryVersionUnreadable",
        RepairReason::HookMissing => "HookMissing",
        RepairReason::HookUntrusted => "HookUntrusted",
        RepairReason::HookModified => "HookModified",
        RepairReason::HookDisabled => "HookDisabled",
        RepairReason::StatusUnavailable => "StatusUnavailable",
    }
}

/// The name of an unsupported-host reason, as its `Debug` form writes it.
pub open spec fn spec_unsupported_name(r: DcgUnsupportedReason) -> Seq<char> {
    match r {
        DcgUnsupportedReason::Platform => "Platform"@,
        DcgUnsupportedReason::RemoteHookHost => "RemoteHookHost"@,
    }
}

/// What a failure says; contexts come before their causes.
pub open spec fn failure_text(f: InstallFailure) -> Seq<char> {
    match f {
        InstallFailure::Unsupported(r) => "DCG management is unsupported for "@ + spec_unsupported_name(r),
        InstallFailure::Target(e) => e@,
        InstallFailure::MarketplaceState(r) => "cannot install while marketplace state is "@ + spec_repair_reason_name(r),
        InstallFailure::MarketplaceAdd(e) => "failed to add the resolved DCG marketplace: "@ + e@,
        InstallFailure::UnexpectedMarketplaceName => "resolved checkout exposed an unexpected marketplace name"@,
        InstallFailure::Checkout(e) => e@,
        InstallFailure::PluginRead(e) => "failed to inspect the managed DCG plugin: "@ + e@,
        InstallFailure::Backup(e) => e@,
        InstallFailure::PluginInstall(e) => "failed to install the resolved DCG plugin: "@ + e@,
        InstallFailure::Installer(e) => e@,
        InstallFailure::BinaryVersionMissing => "managed DCG binary did not report a version"@,
        InstallFailure::BinaryVersionMismatch { reported, expected } =>
            "managed DCG binary reported "@ + reported@ + ", expected "@ + expected@,
        InstallFailure::HookTrust(e) => e@,
    }
}

/// What a failed installation says: the failure, then a failed binary
/// rollback, else a failed enablement rollback.
pub open spec fn install_error_text(e: InstallError) -> Seq<char> {
    failure_text(e.failure) + match e.binary_rollback {
        Some(b) => "; binary rollback also failed: "@ + b@,
        None => match e.enablement_rollback {
            Some(x) => "; plugin enablement rollback also failed: "@ + x@,
            None => Seq::empty(),
        },
    }
}

fn prefixed(prefix: &str, rest: &str) -> (res: String)
    ensures
        res@ == prefix@ + rest@,
{
    let mut out = prefix.to_string();
    out.append(rest);
    out
}

/// The message of a failed installation.
pub fn install_error_message(e: &InstallError) -> (res: String)
    ensures
        res@ == install_error_text(*e),
{
    let mut out = match &e.failure {
        InstallFailure::Unsupported(r) => prefixed("DCG management is unsupported for ", match r {
            DcgUnsupportedReason::Platform => "Platform",
            DcgUnsupportedReason::RemoteHookHost => "RemoteHookHost",
        }),
        InstallFailure::Target(m) => m.clone(),
        InstallFailure::MarketplaceState(r) => prefixed("cannot install while marketplace state is ", repair_reason_name(*r)),
        InstallFailure::MarketplaceAdd(m) => prefixed("failed to add the resolved DCG marketplace: ", m.as_str()),
        InstallFailure::UnexpectedMarketplaceName => "resolved checkout exposed an unexpected marketplace name".to_string(),
        InstallFailure::Checkout(m) => m.clone(),
        InstallFailure::PluginRead(m) => prefixed("failed to inspect the managed DCG plugin: ", m.as_str()),
        InstallFailure::Backup(m) => m.clone(),
        InstallFailure::PluginInstall(m) => prefixed("failed to install the resolved DCG plugin: ", m.as_str()),
        InstallFailure::Installer(m) => m.clone(),
        InstallFailure::BinaryVersionMissing => "managed DCG binary did not report a version".to_string(),
        InstallFailure::BinaryVersionMismatch { reported, expected } => {
            let mut m = prefixed("managed DCG binary reported ", reported.as_str());
            m.append(", expected ");
            m.append(expected.as_str());
            m
        },
        InstallFailure::HookTrust(m) => m.clone(),
    };
    match &e.binary_rollback {
        Some(b) => {
            out.append("; binary rollback also failed: ");
            out.append(b.as_str());
        },
        None => match &e.enablement_rollback {
            Some(x) => {
                out.append("; plugin enablement rollback also failed: ");
                out.append(x.as_str());
            },
            None => {},
        },
    }
    out
}

/// The message of a failed installer run: its exit status and its trimmed
/// error output.
pub fn installer_failure_message(status: &str, stderr: &str) -> (res: String)
    ensures
        res@ == "resolved DCG installer failed with "@ + status@ + ": "@ + trimmed(stderr@),
{
    let mut out = prefixed("resolved DCG installer failed with ", status);
    out.append(": ");
    out.append(trim(stderr));
    out
}

/// Every line of `s` starts with "# ": `git status --porcelain=v2
/// --branch` then reports only branch headers, so nothing is changed or
/// untracked.
pub open spec fn only_header_lines(s: Seq<char>) -> bool {
    forall|i: int| 0 <= i < s.len() && (i == 0 || s[i - 1] == '\n') ==>
        #[trigger] s.subrange(i, s.len() as int).len() >= 2 && s[i] == '#' && s[i + 1] == ' '
}

/// Whether a checkout's status output shows it clean.
pub fn checkout_is_clean(status_succeeded: bool, status_output: &str) -> (res: bool)
    ensures
        res == (status_succeeded && only_header_lines(status_output@)),
{
    if !status_succeeded {
        return false;
    }
    let n = status_output.unicode_len();
    let mut i: usize = 0;
    while i < n
        invariant
            n == status_output@.len(),
            i <= n,
            forall|k: int| 0 <= k < i && (k == 0 || status_output@[k - 1] == '\n') ==>
                #[trigger] status_output@.subrange(k, n as int).len() >= 2 && status_output@[k] == '#'
                    && status_output@[k + 1] == ' ',
        decreases n - i,
    {
        let at_line_start = i == 0 || status_output.get_char(i - 1) == '\n';
        if at_line_start {
            if n - i < 2 || status_output.get_char(i) != '#' || status_output.get_char(i + 1) != ' ' {
                assert(status_output@.subrange(i as int, n as int).len() == n - i);
                return false;
            }
            assert(status_output@.subrange(i as int, n as int).len() == n - i);
        }
        i = i + 1;
    }
    true
}

/// Whether `git describe --tags --exact-match HEAD` names the tag.
pub fn checkout_at_tag(describe_succeeded: bool, describe_output: &str, tag: &str) -> (res: bool)
    ensures
        res == (describe_succeeded && trimmed(describe_output@) == tag@),
{
    describe_succeeded && str_eq(trim(describe_output), tag)
}

/// The failure of a checkout that is not clean or not at the tag, if any.
pub fn checkout_failure(clean: bool, at_tag: bool, tag: &str) -> (res: Option<String>)
    ensures
        !clean ==> (res matches Some(m) && m@ == "resolved DCG marketplace checkout is not clean"@),
        clean && !at_tag ==> (res matches Some(m) && m@ == "resolved DCG marketplace checkout is not tag "@ + tag@),
        clean && at_tag ==> res.is_none(),
{
    if !clean {
        Some("resolved DCG marketplace checkout is not clean".to_string())
    } else if !at_tag {
        Some(prefixed("resolved DCG marketplace checkout is not tag ", tag))
    } else {
        None
    }
}

} // verus!

verus! {

/// Where the token starting at `i` ends: the next white space, or the end.
pub open spec fn token_end(s: Seq<char>, i: int) -> int
    decreases s.len() - i,
{
    if i < 0 || i >= s.len() || is_ws(s[i]) { i } else { token_end(s, i + 1) }
}

/// Where a token ends, and that it holds no white space.
pub proof fn lemma_token_end(s: Seq<char>, i: int)
    requires
        0 <= i <= s.len(),
    ensures
        i <= token_end(s, i) <= s.len(),
        i < s.len() && !is_ws(s[i]) ==> token_end(s, i) > i,
        forall|k: int| i <= k < token_end(s, i) ==> !is_ws(#[trigger] s[k]),
        token_end(s, i) < s.len() ==> is_ws(s[token_end(s, i)]),
    decreases s.len() - i,
{
    if i < s.len() && !is_ws(s[i]) {
        lemma_token_end(s, i + 1);
    }
}

/// The first white-space separated token from `i` on that contains a dot.
pub open spec fn dotted_token_from(s: Seq<char>, i: int) -> Option<Seq<char>>
    decreases s.len() - i,
{
    if i < 0 || i >= s.len() {
        None
    } else if is_ws(s[i]) {
        dotted_token_from(s, i + 1)
    } else {
        let e = token_end(s, i);
        proof { lemma_token_end(s, i); }
        let t = s.subrange(i, e);
        if t.contains('.') { Some(t) } else { dotted_token_from(s, e) }
    }
}

/// The version a binary reports: the first token of its output that
/// contains a dot.
pub fn version_token(output: &str) -> (res: Option<String>)
    ensures
        match res {
            Some(v) => dotted_token_from(output@, 0) == Some(v@),
            None => dotted_token_from(output@, 0).is_none(),
        },
{
    let n = output.unicode_len();
    let ghost s = output@;
    let mut i: usize = 0;
    while i < n
        invariant
            n == s.len(),
            s == output@,
            i <= n,
            dotted_token_from(s, i as int) == dotted_token_from(s, 0),
        decreases n - i,
    {
        if is_whitespace(output.get_char(i)) {
            i = i + 1;
        } else {
            proof { lemma_token_end(s, i as int); }
            let mut j: usize = i;
            let mut has_dot = false;
            while j < n && !is_whitespace(output.get_char(j))
                invariant
                    n == s.len(),
                    s == output@,
                    i <= j <= n,
                    j <= token_end(s, i as int),
                    token_end(s, j as int) == token_end(s, i as int),
                    has_dot == s.subrange(i as int, j as int).contains('.'),
                decreases n - j,
            {
                let c = output.get_char(j);
                proof {
                    assert(s.subrange(i as int, j + 1) =~= s.subrange(i as int, j as int).push(c));
                    if s.subrange(i as int, j as int).contains('.') {
                        let k = choose|k: int| 0 <= k < s.subrange(i as int, j as int).len() && s.subrange(i as int, j as int)[k] == '.';
                        assert(s.subrange(i as int, j + 1)[k] == '.');
                    }
                    if c == '.' {
                        assert(s.subrange(i as int, j + 1)[j - i] == '.');
                    }
                }
                if c == '.' {
                    has_dot = true;
                }
                proof { lemma_token_end(s, j + 1); }
                j = j + 1;
            }
            assert(j == token_end(s, i as int));
            if has_dot {
                return Some(output.substring_char(i, j).to_string());
            }
            i = j;
        }
    }
    None
}

/// The plugin id of the managed guard.
pub open spec fn managed_plugin_id() -> Seq<char> {
    "destructive-command-guard@pimpmuckl-dcg"@
}

/// A hook as hook discovery lists it.
#[derive(Clone, Debug, PartialEq, Eq)]
pub struct HookEntry {
    pub plugin_id: Option<String>,
    /// The components of the hook's source path.
    pub source_path_components: Vec<String>,
    pub enabled: bool,
    pub trust_status: HookTrustStatus,
}

/// The hook belongs to the managed plugin at the given version: its
/// plugin is the managed one and its source path passes through a
/// directory named after the version.
pub open spec fn is_managed_hook(hook: HookEntry, version: Seq<char>) -> bool {
    &&& hook.plugin_id matches Some(p) && p@ == managed_plugin_id()
    &&& exists|k: int| 0 <= k < hook.source_path_components@.len() && (#[trigger] hook.source_path_components@[k])@ == version
}

fn is_managed(hook: &HookEntry, version: &str) -> (res: bool)
    ensures
        res == is_managed_hook(*hook, version@),
{
    let ours = match &hook.plugin_id {
        Some(p) => str_eq(p.as_str(), "destructive-command-guard@pimpmuckl-dcg"),
        None => false,
    };
    if !ours {
        return false;
    }
    let parts = &hook.source_path_components;
    let mut k: usize = 0;
    while k < parts.len()
        invariant
            k <= parts@.len(),
            *parts == hook.source_path_components,
            hook.plugin_id matches Some(p) && p@ == managed_plugin_id(),
            forall|m: int| 0 <= m < k ==> (#[trigger] parts@[m])@ != version@,
        decreases parts@.len() - k,
    {
        if str_eq(parts[k].as_str(), version) {
            assert((parts@[k as int])@ == version@);
            return true;
        }
        k = k + 1;
    }
    false
}

/// The managed hook of a release among the discovered hooks: discovery
/// that failed or reported errors fails the lookup; otherwise the first
/// managed hook of that version, if any.
pub fn managed_hook_lookup(discovery_failed: bool, has_errors: bool, hooks: &Vec<HookEntry>, version: &str) -> (res: HookLookup)
    ensures
        discovery_failed || has_errors ==> res == HookLookup::Failed,
        !(discovery_failed || has_errors) ==> match res {
            HookLookup::Found { enabled, trust } => exists|k: int| 0 <= k < hooks@.len()
                && is_managed_hook(#[trigger] hooks@[k], version@)
                && (forall|m: int| 0 <= m < k ==> !is_managed_hook(#[trigger] hooks@[m], version@))
                && hooks@[k].enabled == enabled && hooks@[k].trust_status == trust,
            HookLookup::Missing => forall|k: int| 0 <= k < hooks@.len() ==> !is_managed_hook(#[trigger] hooks@[k], version@),
            HookLookup::Failed => false,
        },
{
    if discovery_failed || has_errors {
        return HookLookup::Failed;
    }
    let mut k: usize = 0;
    while k < hooks.len()
        invariant
            k <= hooks@.len(),
            !(discovery_failed || has_errors),
            forall|m: int| 0 <= m < k ==> !is_managed_hook(#[trigger] hooks@[m], version@),
        decreases hooks@.len() - k,
    {
        if is_managed(&hooks[k], version) {
            return HookLookup::Found { enabled: hooks[k].enabled, trust: hooks[k].trust_status };
        }
        k = k + 1;
    }
    HookLookup::Missing
}

/// How many times hook discovery is asked for the installed hook before
/// trusting it is given up.
pub const MAX_HOOK_DISCOVERY_ATTEMPTS: u32 = 100;

/// The managed hook as discovery reports it, with what trusting it needs.
#[derive(Clone, Debug, PartialEq, Eq)]
pub struct DiscoveredHook {
    pub key: String,
    pub current_hash: String,
    pub enabled: bool,
}

/// Where trusting the installed hook stands.
#[derive(Clone, Copy, Debug, PartialEq, Eq, Structural)]
pub enum HookTrustStage {
    Discovering,
    Writing,
    Restoring,
    Done,
}

/// The state of trusting the installed hook: the stage, how many
/// discovery attempts found nothing, and the hook's key once found.
#[derive(Clone, Debug, PartialEq, Eq)]
pub struct HookTrustState {
    pub stage: HookTrustStage,
    pub attempts: u32,
    pub key: Option<String>,
}

/// What the previous step of trusting the hook reported.
#[derive(Debug)]
pub enum HookTrustEvent {
    /// One discovery: an error when discovery failed or reported errors,
    /// `None` while the managed hook of the release is not listed yet.
    Discovered(Result<Option<DiscoveredHook>, String>),
    /// The trust write: an error when it could not be made, else whether it
    /// took effect (`false` when managed configuration overrides it).
    TrustWritten(Result<bool, String>),
    /// The hook's earlier trust state was written back.
    PriorRestored(Result<(), String>),
}

/// The next step of trusting the hook.
#[derive(Debug)]
pub enum HookTrustAction {
    /// Ask hook discovery for the managed hook, after a pause of ten
    /// milliseconds when this is not the first attempt.
    Discover,
    /// Record `trusted_hash` as the trusted hash of the hook with `key`,
    /// without reloading the configuration.
    WriteTrust { key: String, trusted_hash: String },
    /// Write back the trust state the hook with `key` had before.
    RestorePrior { key: String },
    /// Done: the result the installation receives.
    Finish(Result<(), String>),
}

/// The state is consistent: attempts stay within the limit, and a key is
/// known exactly once the hook was found.
pub open spec fn hook_trust_wf(state: HookTrustState) -> bool {
    &&& state.attempts <= MAX_HOOK_DISCOVERY_ATTEMPTS
    &&& (state.stage == HookTrustStage::Writing || state.stage == HookTrustStage::Restoring) <==> state.key.is_some()
}

/// The event answers the action the stage asked for.
pub open spec fn hook_trust_event_fits(state: HookTrustState, event: HookTrustEvent) -> bool {
    match state.stage {
        HookTrustStage::Discovering => event is Discovered,
        HookTrustStage::Writing => event is TrustWritten,
        HookTrustStage::Restoring => event is PriorRestored,
        HookTrustStage::Done => false,
    }
}

/// The message when the hook never showed up.
pub open spec fn hook_not_discovered() -> Seq<char> {
    "installed DCG plugin hook was not discovered"@
}

/// The message when the hook is disabled.
pub open spec fn hook_disabled() -> Seq<char> {
    "installed DCG plugin hook is disabled"@
}

/// The message when managed configuration overrides the trust.
pub open spec fn hook_trust_overridden() -> Seq<char> {
    "installed DCG hook trust is overridden by managed configuration"@
}

/// A lowercase hexadecimal digit.
pub open spec fn lower_hex_digit(d: nat) -> char {
    if d < 10 { crate::text::digit_char(d) }
    else if d == 10 { 'a' }
    else if d == 11 { 'b' }
    else if d == 12 { 'c' }
    else if d == 13 { 'd' }
    else if d == 14 { 'e' }
    else { 'f' }
}

/// A character inside a JSON string: a quote and a backslash behind a
/// backslash, the short escapes for backspace, tab, line feed, form feed
/// and carriage return, `\u00XX` for the other control characters, and
/// any other character as it is.
pub open spec fn json_escaped_char(c: char) -> Seq<char> {
    if c == '"' { seq!['\\', '"'] }
    else if c == '\\' { seq!['\\', '\\'] }
    else if c == '\x08' { seq!['\\', 'b'] }
    else if c == '\t' { seq!['\\', 't'] }
    else if c == '\n' { seq!['\\', 'n'] }
    else if c == '\x0c' { seq!['\\', 'f'] }
    else if c == '\r' { seq!['\\', 'r'] }
    else if (c as nat) < 0x20 {
        seq!['\\', 'u', '0', '0', lower_hex_digit((c as nat) / 16), lower_hex_digit((c as nat) % 16)]
    } else { seq![c] }
}

/// The escaped characters of a JSON string's contents.
pub open spec fn json_escaped(s: Seq<char>) -> Seq<char>
    decreases s.len(),
{
    if s.len() == 0 { Seq::empty() } else { json_escaped(s.drop_last()) + json_escaped_char(s.last()) }
}

/// `s` as a JSON string: its escaped characters between quotes.
pub open spec fn json_string(s: Seq<char>) -> Seq<char> {
    seq!['"'] + json_escaped(s) + seq!['"']
}

/// Calls `serde_json::to_string` on a string slice. Claimed: the text is
/// the slice as a JSON string, escaped as `json_escaped_char` says (its
/// serializer writes a quote, the contents through its escape table, and
/// a quote, into a vector, which cannot fail for a string).
#[verifier::external_body]
fn json_string_text(s: &str) -> (res: Option<String>)
    ensures
        res.is_some(),
        res.unwrap()@ == json_string(s@),
{
    serde_json::to_string(s).ok()
}

/// The configuration path of a hook's trust state: `hooks.state.` and the
/// hook's key as a JSON string.
pub fn hook_state_key_path(key: &str) -> (res: Option<String>)
    ensures
        res matches Some(p) && p@ == "hooks.state."@ + json_string(key@),
{
    match json_string_text(key) {
        Some(k) => {
            let mut path = String::from_str("hooks.state.");
            path.append(k.as_str());
            Some(path)
        },
        None => None,
    }
}

/// Trusting the hook starts by asking discovery for it.
pub fn hook_trust_start() -> (res: (HookTrustState, HookTrustAction))
    ensures
        res.0 == (HookTrustState { stage: HookTrustStage::Discovering, attempts: 0, key: None }),
        res.1 is Discover,
{
    (HookTrustState { stage: HookTrustStage::Discovering, attempts: 0, key: None }, HookTrustAction::Discover)
}

/// One step of trusting the installed hook, from `state` on `event` to
/// `next` with `action`. Discovery is asked again while the hook is not
/// listed, at most `MAX_HOOK_DISCOVERY_ATTEMPTS` times in all; a failed
/// discovery ends it with that error. A disabled hook is not trusted. Its
/// hash is written as trusted; when managed configuration overrides that
/// write, the earlier state is written back and trusting fails.
pub open spec fn hook_trust_transition(
    state: HookTrustState,
    event: HookTrustEvent,
    next: HookTrustState,
    action: HookTrustAction,
) -> bool {
    &&& hook_trust_wf(next)
    &&& (action is Finish) <==> next.stage == HookTrustStage::Done
    &&& match event {
        HookTrustEvent::Discovered(Err(e)) => action == HookTrustAction::Finish(Err(e)),
        HookTrustEvent::Discovered(Ok(None)) => if state.attempts + 1 < MAX_HOOK_DISCOVERY_ATTEMPTS {
            next == (HookTrustState { attempts: (state.attempts + 1) as u32, ..state }) && action is Discover
        } else {
            action matches HookTrustAction::Finish(Err(m)) && m@ == hook_not_discovered()
        },
        HookTrustEvent::Discovered(Ok(Some(h))) => if h.enabled {
            &&& next.stage == HookTrustStage::Writing
            &&& next.key == Some(h.key)
            &&& next.attempts == state.attempts
            &&& action == (HookTrustAction::WriteTrust { key: h.key, trusted_hash: h.current_hash })
        } else {
            action matches HookTrustAction::Finish(Err(m)) && m@ == hook_disabled()
        },
        HookTrustEvent::TrustWritten(Err(e)) => action == HookTrustAction::Finish(Err(e)),
        HookTrustEvent::TrustWritten(Ok(true)) => action == HookTrustAction::Finish(Ok(())),
        HookTrustEvent::TrustWritten(Ok(false)) => next == (HookTrustState { stage: HookTrustStage::Restoring, ..state })
            && action == (HookTrustAction::RestorePrior { key: state.key.unwrap() }),
        HookTrustEvent::PriorRestored(Err(e)) => action == HookTrustAction::Finish(Err(e)),
        HookTrustEvent::PriorRestored(Ok(())) => action matches HookTrustAction::Finish(Err(m)) && m@ == hook_trust_overridden(),
    }
}

/// One step of trusting the installed hook, as `hook_trust_transition`
/// says.
pub fn hook_trust_step(state: HookTrustState, event: HookTrustEvent) -> (res: (HookTrustState, HookTrustAction))
    requires
        hook_trust_wf(state),
        hook_trust_event_fits(state, event),
    ensures
        hook_trust_transition(state, event, res.0, res.1),
{
    let done = HookTrustState { stage: HookTrustStage::Done, attempts: state.attempts, key: None };
    match event {
        HookTrustEvent::Discovered(Err(e)) => (done, HookTrustAction::Finish(Err(e))),
        HookTrustEvent::Discovered(Ok(None)) => {
            if state.attempts + 1 < MAX_HOOK_DISCOVERY_ATTEMPTS {
                (HookTrustState { attempts: state.attempts + 1, ..state }, HookTrustAction::Discover)
            } else {
                (done, HookTrustAction::Finish(Err(String::from_str("installed DCG plugin hook was not discovered"))))
            }
        },
        HookTrustEvent::Discovered(Ok(Some(h))) => {
            if h.enabled {
                let key = h.key.clone();
                (
                    HookTrustState { stage: HookTrustStage::Writing, attempts: state.attempts, key: Some(key) },
                    HookTrustAction::WriteTrust { key: h.key, trusted_hash: h.current_hash },
                )
            } else {
                (done, HookTrustAction::Finish(Err(String::from_str("installed DCG plugin hook is disabled"))))
            }
        },
        HookTrustEvent::TrustWritten(Err(e)) => (done, HookTrustAction::Finish(Err(e))),
        HookTrustEvent::TrustWritten(Ok(true)) => (done, HookTrustAction::Finish(Ok(()))),
        HookTrustEvent::TrustWritten(Ok(false)) => {
            let key = match &state.key {
                Some(k) => k.clone(),
                None => String::new(),
            };
            (HookTrustState { stage: HookTrustStage::Restoring, ..state }, HookTrustAction::RestorePrior { key })
        },
        HookTrustEvent::PriorRestored(Err(e)) => (done, HookTrustAction::Finish(Err(e))),
        HookTrustEvent::PriorRestored(Ok(())) => {
            (done, HookTrustAction::Finish(Err(String::from_str("installed DCG hook trust is overridden by managed configuration"))))
        },
    }
}

/// Trusting the hook succeeds only through a trust write that took
/// effect, and a write that managed configuration overrode is always
/// written back before trusting fails.
pub proof fn lemma_trust_succeeds_only_when_written(
    state: HookTrustState,
    event: HookTrustEvent,
    next: HookTrustState,
    action: HookTrustAction,
)
    requires
        hook_trust_wf(state),
        hook_trust_event_fits(state, event),
        hook_trust_transition(state, event, next, action),
    ensures
        action == HookTrustAction::Finish(Ok(())) ==> state.stage == HookTrustStage::Writing
            && event == HookTrustEvent::TrustWritten(Ok(true)),
        event == HookTrustEvent::TrustWritten(Ok(false)) ==> action is RestorePrior
            && next.stage == HookTrustStage::Restoring,
        state.stage == HookTrustStage::Restoring ==> action matches HookTrustAction::Finish(Err(_)),
{
}

/// An installation is transactional: once the plugin is installed, a
/// failure of the installer, of the binary check or of trusting the hook
/// is not reported before the binary (from its backup, if there was one)
/// and the plugin's earlier enablement are restored.
pub proof fn lemma_late_failures_roll_back(state: InstallState, event: InstallEvent)
    requires
        install_wf(state),
        event_fits(state, event),
        state.stage == InstallStage::RunningInstaller || state.stage == InstallStage::VerifyingBinary
            || state.stage == InstallStage::TrustingHook,
    ensures
        ({
            let (next, action) = spec_install_step(state, event);
            !(action matches InstallAction::Finish(Err(_)))
                && ((action is RollBack) ==> next.stage == InstallStage::RollingBack
                    && action == (InstallAction::RollBack { restore_backup: state.has_backup, plugin_enabled: state.plugin_was_enabled }))
        }),
{
}

/// An installation succeeds only through a trusted hook, and then enables
/// the resolved version from the next session on.
pub proof fn lemma_success_only_after_trusted_hook(state: InstallState, event: InstallEvent)
    requires
        install_wf(state),
        event_fits(state, event),
    ensures
        ({
            let (next, action) = spec_install_step(state, event);
            (action matches InstallAction::Finish(Ok(_))) ==> {
                &&& (event matches InstallEvent::HookTrusted(Ok(_)))
                &&& action == InstallAction::Finish(Ok(DcgChange {
                    status: DcgStatus::Enabled(state.target->0.version),
                    takes_effect_in_current_session: false,
                }))
                &&& next.stage == InstallStage::Done
            }
        }),
{
}

} // verus!
