//! Keeping Codex++ up to date: how an update is carried out, and the cached
//! status of the latest releases.

use vstd::prelude::*;
use crate::text::has_suffix;
use crate::text::ends_with;

verus! {

/// A package manager that installed Codex++.
#[derive(Clone, Copy, Debug, PartialEq, Eq, Structural)]
pub enum PackageManager {
    Npm,
    Bun,
    Pnpm,
}

/// The platform of a standalone installation.
#[derive(Clone, Copy, Debug, PartialEq, Eq, Structural)]
pub enum StandalonePlatform {
    Unix,
    Windows,
}

/// How the installation can be updated, as the install context plans it.
#[derive(Clone, Copy, Debug, PartialEq, Eq, Structural)]
pub enum UpdateTarget {
    PackageManager { manager: PackageManager },
    Standalone { platform: StandalonePlatform },
    Homebrew,
    Manual,
}

/// An update Codex++ can run by itself.
#[derive(Clone, Copy, Debug, PartialEq, Eq, Structural)]
pub enum UpdateAction {
    CodexPlusPlusPackageManager(PackageManager),
    CodexPlusPlusStandalone(StandalonePlatform),
}

/// A standalone update needs its install directory: absolute and present.
pub fn standalone_action(platform: StandalonePlatform, dir_is_absolute_dir: bool) -> (res: Option<UpdateAction>)
    ensures
        res == if dir_is_absolute_dir { Some(UpdateAction::CodexPlusPlusStandalone(platform)) } else { None },
{
    if dir_is_absolute_dir { Some(UpdateAction::CodexPlusPlusStandalone(platform)) } else { None }
}

/// The update for a plan: through the package manager, or the standalone
/// installer when its directory is known (`dir`: whether there is one that
/// is an absolute, existing directory); Homebrew and manual installs are
/// updated by the user.
pub fn from_target(target: UpdateTarget, dir: Option<bool>) -> (res: Option<UpdateAction>)
    ensures
        res == match target {
            UpdateTarget::PackageManager { manager } => Some(UpdateAction::CodexPlusPlusPackageManager(manager)),
            UpdateTarget::Standalone { platform } => if dir == Some(true) {
                Some(UpdateAction::CodexPlusPlusStandalone(platform))
            } else {
                None
            },
            _ => None,
        },
{
    match target {
        UpdateTarget::PackageManager { manager } => Some(UpdateAction::CodexPlusPlusPackageManager(manager)),
        UpdateTarget::Standalone { platform } => match dir {
            Some(d) => standalone_action(platform, d),
            None => None,
        },
        UpdateTarget::Homebrew | UpdateTarget::Manual => None,
    }
}

/// The command and its arguments, as text.
pub open spec fn command_view(c: (String, Vec<String>)) -> (Seq<char>, Seq<Seq<char>>) {
    (c.0@, c.1@.map_values(|a: String| a@))
}

fn args_of(a: &str, b: &str, c: &str) -> (res: Vec<String>)
    ensures
        res@.map_values(|x: String| x@) == seq![a@, b@, c@],
{
    let mut v: Vec<String> = Vec::new();
    v.push(a.to_string());
    v.push(b.to_string());
    v.push(c.to_string());
    assert(v@.map_values(|x: String| x@) =~= seq![a@, b@, c@]);
    v
}

/// The global reinstall command of each package manager.
pub fn package_manager_command_args(manager: PackageManager) -> (res: (String, Vec<String>))
    ensures
        command_view(res) == match manager {
            PackageManager::Npm => ("npm"@, seq!["install"@, "-g"@, "@jjliebig/codex-plus-plus"@]),
            PackageManager::Bun => ("bun"@, seq!["install"@, "-g"@, "@jjliebig/codex-plus-plus"@]),
            PackageManager::Pnpm => ("pnpm"@, seq!["add"@, "-g"@, "@jjliebig/codex-plus-plus"@]),
        },
{
    match manager {
        PackageManager::Npm => ("npm".to_string(), args_of("install", "-g", "@jjliebig/codex-plus-plus")),
        PackageManager::Bun => ("bun".to_string(), args_of("install", "-g", "@jjliebig/codex-plus-plus")),
        PackageManager::Pnpm => ("pnpm".to_string(), args_of("add", "-g", "@jjliebig/codex-plus-plus")),
    }
}

/// The shell script that fetches and runs the latest Unix installer.
pub open spec fn unix_installer_script() -> Seq<char> {
    "shim=$CODEX_PLUS_PLUS_SHIM_DIR && installer=$(mktemp \"${TMPDIR:-/tmp}/codex-plus-plus-update.XXXXXX\") && trap 'rm -f \"$installer\"' 0 && curl -fsSL https://raw.githubusercontent.com/Pimpmuckl/codex/main/scripts/install/install-codex-plus-plus-latest.sh -o \"$installer\" && [ -s \"$installer\" ] && sh \"$installer\" --shim-dir \"$shim\""@
}

/// The PowerShell script that fetches and runs the latest Windows installer.
pub open spec fn windows_installer_script() -> Seq<char> {
    "$shim=$env:CODEX_PLUS_PLUS_SHIM_DIR; & ([scriptblock]::Create((irm https://raw.githubusercontent.com/Pimpmuckl/codex/main/scripts/install/install-codex-plus-plus-latest.ps1))) -ShimDir $shim"@
}

/// The command that reinstalls a standalone installation.
pub fn standalone_command_args(platform: StandalonePlatform) -> (res: (String, Vec<String>))
    ensures
        command_view(res) == match platform {
            StandalonePlatform::Unix => ("sh"@, seq!["-c"@, unix_installer_script()]),
            StandalonePlatform::Windows => ("powershell"@, seq!["-ExecutionPolicy"@, "Bypass"@, "-c"@, windows_installer_script()]),
        },
{
    match platform {
        StandalonePlatform::Unix => {
            let mut v: Vec<String> = Vec::new();
            v.push("-c".to_string());
            v.push("shim=$CODEX_PLUS_PLUS_SHIM_DIR && installer=$(mktemp \"${TMPDIR:-/tmp}/codex-plus-plus-update.XXXXXX\") && trap 'rm -f \"$installer\"' 0 && curl -fsSL https://raw.githubusercontent.com/Pimpmuckl/codex/main/scripts/install/install-codex-plus-plus-latest.sh -o \"$installer\" && [ -s \"$installer\" ] && sh \"$installer\" --shim-dir \"$shim\"".to_string());
            assert(v@.map_values(|x: String| x@) =~= seq!["-c"@, unix_installer_script()]);
            ("sh".to_string(), v)
        },
        StandalonePlatform::Windows => {
            let mut v: Vec<String> = Vec::new();
            v.push("-ExecutionPolicy".to_string());
            v.push("Bypass".to_string());
            v.push("-c".to_string());
            v.push("$shim=$env:CODEX_PLUS_PLUS_SHIM_DIR; & ([scriptblock]::Create((irm https://raw.githubusercontent.com/Pimpmuckl/codex/main/scripts/install/install-codex-plus-plus-latest.ps1))) -ShimDir $shim".to_string());
            assert(v@.map_values(|x: String| x@) =~= seq!["-ExecutionPolicy"@, "Bypass"@, "-c"@, windows_installer_script()]);
            ("powershell".to_string(), v)
        },
    }
}

/// Where the release status is cached, below the Codex home.
pub open spec fn cache_path() -> Seq<char> {
    "codex-plus-plus/release-status.json"@
}

/// The cache file of a Codex home: the relative cache path joined to it,
/// with a separator unless the home is empty or already ends with one.
pub open spec fn spec_release_status_filepath(codex_home: Seq<char>) -> Seq<char> {
    if codex_home.len() == 0 {
        cache_path()
    } else if has_suffix(codex_home, "/"@) {
        codex_home + cache_path()
    } else {
        codex_home + "/"@ + cache_path()
    }
}

/// The cache file of a Codex home.
pub fn release_status_filepath(codex_home: &str) -> (res: String)
    ensures
        res@ == spec_release_status_filepath(codex_home@),
{
    if codex_home.unicode_len() == 0 {
        return "codex-plus-plus/release-status.json".to_string();
    }
    let mut out = codex_home.to_string();
    if !ends_with(codex_home, "/") {
        out.append("/");
    }
    out.append("codex-plus-plus/release-status.json");
    out
}

/// The version this installation reports: the version of its package
/// manifest when it has one, else the version the program was built as.
pub fn version_for_install(manifest_version: Option<&str>, built_version: &str) -> (res: String)
    ensures
        res@ == match manifest_version {
            Some(v) => v@,
            None => built_version@,
        },
{
    match manifest_version {
        Some(v) => String::from_str(v),
        None => String::from_str(built_version),
    }
}

/// The largest cache file that is read.
pub const MAX_CACHE_BYTES: u64 = 65536;

/// The cached release status.
#[derive(Clone, Debug, PartialEq, Eq)]
pub struct CachedReleaseStatus {
    pub installed_fork_version: String,
    pub latest_fork_version: Option<String>,
    pub latest_stable_upstream_version: Option<String>,
    /// When the releases were checked: seconds since the Unix epoch, and
    /// nanoseconds past that second.
    pub checked_at: u64,
    pub checked_at_nanos: u32,
    pub dismissed_version: Option<String>,
}

/// The fork release status an installation starts from.
#[derive(Clone, Debug, PartialEq, Eq)]
pub enum ForkReleaseStatus {
    /// No cached status could be read: only the installed version is known.
    Unavailable { installed_fork_version: String },
    /// The cached status, taken for the version installed now.
    Cached(CachedReleaseStatus),
}

/// The fork release status from a read of the cache: the cached status
/// with the installed version written into it, or, when the cache could
/// not be read, an unavailable status for the installed version.
pub fn cached_fork_release_status(read: Option<CachedReleaseStatus>, installed_version: String) -> (res: ForkReleaseStatus)
    ensures
        match read {
            None => res == (ForkReleaseStatus::Unavailable { installed_fork_version: installed_version }),
            Some(cached) => res == ForkReleaseStatus::Cached(CachedReleaseStatus { installed_fork_version: installed_version, ..cached }),
        },
{
    match read {
        None => ForkReleaseStatus::Unavailable { installed_fork_version: installed_version },
        Some(cached) => ForkReleaseStatus::Cached(CachedReleaseStatus { installed_fork_version: installed_version, ..cached }),
    }
}

fn copy_opt(s: &Option<String>) -> (res: Option<String>)
    ensures
        res == *s,
{
    match s {
        Some(v) => Some(v.clone()),
        None => None,
    }
}

/// The status after checking for releases: the fork's latest release (the
/// check fails without it), the stable upstream release found now or else
/// the one cached, and the dismissal cached.
pub fn refreshed_release_status(
    previous: &Option<CachedReleaseStatus>,
    installed_version: &str,
    latest_fork: Option<String>,
    stable_upstream: Option<String>,
    checked_at: u64,
    checked_at_nanos: u32,
) -> (res: Option<CachedReleaseStatus>)
    ensures
        latest_fork.is_none() ==> res.is_none(),
        latest_fork matches Some(fork) ==> (res matches Some(s) && {
            &&& s.installed_fork_version@ == installed_version@
            &&& s.latest_fork_version == Some(fork)
            &&& s.latest_stable_upstream_version == match stable_upstream {
                Some(u) => Some(u),
                None => match previous { Some(p) => p.latest_stable_upstream_version, None => None },
            }
            &&& s.checked_at == checked_at
            &&& s.checked_at_nanos == checked_at_nanos
            &&& s.dismissed_version == match previous { Some(p) => p.dismissed_version, None => None }
        }),
{
    let fork = match latest_fork {
        Some(f) => f,
        None => { return None; },
    };
    let upstream = match stable_upstream {
        Some(u) => Some(u),
        None => match previous {
            Some(p) => copy_opt(&p.latest_stable_upstream_version),
            None => None,
        },
    };
    let dismissed = match previous {
        Some(p) => copy_opt(&p.dismissed_version),
        None => None,
    };
    Some(CachedReleaseStatus {
        installed_fork_version: installed_version.to_string(),
        latest_fork_version: Some(fork),
        latest_stable_upstream_version: upstream,
        checked_at,
        checked_at_nanos,
        dismissed_version: dismissed,
    })
}

/// The status after the user dismissed a release: the cached status, or
/// when there is none a status that knows only that release, with the
/// dismissal recorded.
pub fn dismissed_release_status(
    previous: Option<CachedReleaseStatus>,
    installed_version: &str,
    version: &str,
) -> (res: CachedReleaseStatus)
    ensures
        res.dismissed_version matches Some(d) && d@ == version@,
        match previous {
            Some(p) => res == (CachedReleaseStatus { dismissed_version: res.dismissed_version, ..p }),
            None => {
                &&& res.installed_fork_version@ == installed_version@
                &&& res.latest_fork_version matches Some(f) && f@ == version@
                &&& res.latest_stable_upstream_version.is_none()
                &&& res.checked_at == 0
                &&& res.checked_at_nanos == 0
            },
        },
{
    match previous {
        Some(p) => CachedReleaseStatus { dismissed_version: Some(version.to_string()), ..p },
        None => CachedReleaseStatus {
            installed_fork_version: installed_version.to_string(),
            latest_fork_version: Some(version.to_string()),
            latest_stable_upstream_version: None,
            checked_at: 0,
            checked_at_nanos: 0,
            dismissed_version: Some(version.to_string()),
        },
    }
}

} // verus!
