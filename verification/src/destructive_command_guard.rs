//! Managing the Destructive Command Guard plugin: which releases qualify,
//! what state an installation is in, and which repairs are safe.

use vstd::prelude::*;
use crate::parse::all_digits;
use crate::parse::find_char;
use crate::parse::find_char_index;
use crate::parse::find_seq;
use crate::parse::find_str;
use crate::parse::parse_u64;
use crate::parse::spec_parse_u64;
use crate::text::has_prefix;
use crate::text::str_eq;
use crate::text::strip_prefix;

verus! {

/// A release of the guard published for Codex++: `vX.Y.Z-codexpp.N`.
#[derive(Clone, Debug, PartialEq, Eq)]
pub struct DcgTarget {
    pub tag: String,
    pub version: String,
    /// Major, minor, patch and Codex++ revision, compared in this order.
    pub precedence: [u64; 4],
}

/// The parts of a release tag: its version (the tag without `v`) and its
/// precedence, when the tag is `v` + three dot-separated numbers +
/// `-codexpp.` + a revision of digits only.
pub open spec fn spec_from_tag(tag: Seq<char>) -> Option<(Seq<char>, Seq<u64>)> {
    if !has_prefix(tag, "v"@) {
        None
    } else {
        let version = tag.drop_first();
        match find_seq(version, "-codexpp."@) {
            None => None,
            Some(k) => {
                let base = version.take(k);
                let revision = version.skip(k + 9);
                match find_char(base, '.') {
                    None => None,
                    Some(i) => {
                        let p0 = base.take(i);
                        let rest = base.skip(i + 1);
                        match find_char(rest, '.') {
                            None => None,
                            Some(j) => {
                                let p1 = rest.take(j);
                                let p2 = rest.skip(j + 1);
                                if find_char(p2, '.').is_some() || revision.len() == 0 || !all_digits(revision) {
                                    None
                                } else {
                                    match (spec_parse_u64(p0), spec_parse_u64(p1), spec_parse_u64(p2), spec_parse_u64(revision)) {
                                        (Some(a), Some(b), Some(c), Some(d)) => Some((version, seq![a, b, c, d])),
                                        _ => None,
                                    }
                                }
                            },
                        }
                    },
                }
            },
        }
    }
}

impl DcgTarget {
    /// The release a tag names, if it is an eligible `vX.Y.Z-codexpp.N` tag.
    pub fn from_tag(tag: &str) -> (res: Option<DcgTarget>)
        ensures
            match res {
                Some(t) => t.tag@ == tag@ && spec_from_tag(tag@) == Some((t.version@, t.precedence@)),
                None => spec_from_tag(tag@).is_none(),
            },
    {
        proof {
            reveal_strlit("v");
            reveal_strlit("-codexpp.");
        }
        let version = match strip_prefix(tag, "v") {
            Some(v) => v,
            None => { return None; },
        };
        assert(version@ =~= tag@.drop_first());
        let k = match find_str(version, "-codexpp.") {
            Some(k) => k,
            None => { return None; },
        };
        let vlen = version.unicode_len();
        let base = version.substring_char(0, k);
        let revision = version.substring_char(k + 9, vlen);
        assert(base@ =~= version@.take(k as int));
        assert(revision@ =~= version@.skip(k + 9));
        let i = match find_char_index(base, '.') {
            Some(i) => i,
            None => { return None; },
        };
        proof { lemma_find_char_bound(base@, '.'); }
        let blen = base.unicode_len();
        let p0 = base.substring_char(0, i);
        let rest = base.substring_char(i + 1, blen);
        assert(p0@ =~= base@.take(i as int));
        assert(rest@ =~= base@.skip(i + 1));
        let j = match find_char_index(rest, '.') {
            Some(j) => j,
            None => { return None; },
        };
        proof { lemma_find_char_bound(rest@, '.'); }
        let rlen = rest.unicode_len();
        let p1 = rest.substring_char(0, j);
        let p2 = rest.substring_char(j + 1, rlen);
        assert(p1@ =~= rest@.take(j as int));
        assert(p2@ =~= rest@.skip(j + 1));
        if find_char_index(p2, '.').is_some() {
            return None;
        }
        let n = revision.unicode_len();
        if n == 0 {
            return None;
        }
        if !crate::parse::all_ascii_digits(revision) {
            return None;
        }
        let major = match parse_u64(p0) { Some(v) => v, None => { return None; } };
        let minor = match parse_u64(p1) { Some(v) => v, None => { return None; } };
        let patch = match parse_u64(p2) { Some(v) => v, None => { return None; } };
        let rev = match parse_u64(revision) { Some(v) => v, None => { return None; } };
        let precedence = [major, minor, patch, rev];
        assert(precedence@ =~= seq![major, minor, patch, rev]);
        let target = DcgTarget { tag: String::from_str(tag), version: String::from_str(version), precedence };
        Some(target)
    }
}

proof fn lemma_find_char_bound(s: Seq<char>, c: char)
    ensures
        find_char(s, c) matches Some(i) ==> 0 <= i < s.len() && s[i] == c,
    decreases s.len(),
{
    if s.len() > 0 && s[0] != c {
        lemma_find_char_bound(s.drop_first(), c);
    }
}

/// Precedence `a` is strictly after `b`, comparing component by component.
pub open spec fn precedence_after(a: Seq<u64>, b: Seq<u64>) -> bool {
    if a[0] != b[0] { a[0] > b[0] }
    else if a[1] != b[1] { a[1] > b[1] }
    else if a[2] != b[2] { a[2] > b[2] }
    else { a[3] > b[3] }
}

/// Whether release precedence `a` is strictly after `b`.
pub fn precedence_is_after(a: &[u64; 4], b: &[u64; 4]) -> (res: bool)
    ensures
        res == precedence_after(a@, b@),
{
    if a[0] != b[0] { a[0] > b[0] }
    else if a[1] != b[1] { a[1] > b[1] }
    else if a[2] != b[2] { a[2] > b[2] }
    else { a[3] > b[3] }
}

/// A release as the GitHub API describes it.
#[derive(Clone, Debug, PartialEq, Eq)]
pub struct GitHubRelease {
    pub tag_name: String,
    pub draft: bool,
    pub prerelease: bool,
    pub published_at: Option<String>,
}

/// Why a release is not a target.
#[derive(Clone, Copy, Debug, PartialEq, Eq, Structural)]
pub enum DcgReleaseError {
    /// The release is a draft, a prerelease, or not published.
    NotPublishedStable,
    /// The tag does not match `vX.Y.Z-codexpp.N`.
    TagMismatch,
}

impl GitHubRelease {
    /// The release as an install target: it must be published and stable,
    /// and its tag must be an eligible Codex++ tag.
    pub fn into_target(self) -> (res: Result<DcgTarget, DcgReleaseError>)
        ensures
            (self.draft || self.prerelease || !(self.published_at matches Some(p) && p@.len() > 0))
                ==> res == Err::<DcgTarget, DcgReleaseError>(DcgReleaseError::NotPublishedStable),
            !(self.draft || self.prerelease || !(self.published_at matches Some(p) && p@.len() > 0)) ==> match res {
                Ok(t) => t.tag@ == self.tag_name@ && spec_from_tag(self.tag_name@) == Some((t.version@, t.precedence@)),
                Err(e) => e == DcgReleaseError::TagMismatch && spec_from_tag(self.tag_name@).is_none(),
            },
    {
        let published = match &self.published_at {
            Some(p) => p.as_str().unicode_len() > 0,
            None => false,
        };
        if self.draft || self.prerelease || !published {
            return Err(DcgReleaseError::NotPublishedStable);
        }
        match DcgTarget::from_tag(self.tag_name.as_str()) {
            Some(t) => Ok(t),
            None => Err(DcgReleaseError::TagMismatch),
        }
    }
}

/// A listed release is a candidate when it is neither a draft nor a
/// prerelease and its tag is eligible.
pub open spec fn release_candidate(r: GitHubRelease) -> Option<(Seq<char>, Seq<u64>)> {
    if r.draft || r.prerelease { None } else { spec_from_tag(r.tag_name@) }
}

impl DcgTarget {
    /// A listed release as a target, when it is a candidate.
    pub fn from_release(release: &GitHubRelease) -> (res: Option<DcgTarget>)
        ensures
            match res {
                Some(t) => t.tag@ == release.tag_name@ && release_candidate(*release) == Some((t.version@, t.precedence@)),
                None => release_candidate(*release).is_none(),
            },
    {
        if release.draft || release.prerelease {
            return None;
        }
        DcgTarget::from_tag(release.tag_name.as_str())
    }

    /// The first candidate of a list of releases.
    pub fn from_releases(releases: &Vec<GitHubRelease>) -> (res: Option<DcgTarget>)
        ensures
            match res {
                Some(t) => exists|k: int| 0 <= k < releases@.len()
                    && (forall|m: int| 0 <= m < k ==> (#[trigger] release_candidate(releases@[m])).is_none())
                    && t.tag@ == releases@[k].tag_name@
                    && release_candidate(releases@[k]) == Some((t.version@, t.precedence@)),
                None => forall|k: int| 0 <= k < releases@.len() ==> (#[trigger] release_candidate(releases@[k])).is_none(),
            },
    {
        let mut k: usize = 0;
        while k < releases.len()
            invariant
                k <= releases@.len(),
                forall|m: int| 0 <= m < k ==> (#[trigger] release_candidate(releases@[m])).is_none(),
            decreases releases@.len() - k,
        {
            match DcgTarget::from_release(&releases[k]) {
                Some(t) => { return Some(t); },
                None => {},
            }
            k = k + 1;
        }
        None
    }
}

/// The largest release description read from the releases API, in bytes.
pub const MAX_RELEASE_BODY_BYTES: u64 = 2097152;

/// Whether a release response may be read: one that declares a length
/// over the limit is refused before any of it is read; one that declares
/// none is read.
pub fn release_length_accepted(declared: Option<u64>) -> (res: bool)
    ensures
        res == match declared {
            Some(n) => n <= MAX_RELEASE_BODY_BYTES,
            None => true,
        },
{
    match declared {
        Some(n) => n <= MAX_RELEASE_BODY_BYTES,
        None => true,
    }
}

/// Whether a chunk may be appended to the part of a release response read
/// so far: the whole must stay within the limit.
pub fn release_chunk_accepted(received: u64, chunk: u64) -> (res: bool)
    ensures
        res == (received + chunk <= MAX_RELEASE_BODY_BYTES),
{
    if received > MAX_RELEASE_BODY_BYTES {
        false
    } else {
        chunk <= MAX_RELEASE_BODY_BYTES - received
    }
}

/// Why the guard cannot be managed here.
#[derive(Clone, Copy, Debug, PartialEq, Eq, Structural)]
pub enum DcgUnsupportedReason {
    Platform,
    RemoteHookHost,
}

/// What is wrong with an installation.
#[derive(Clone, Copy, Debug, PartialEq, Eq, Structural)]
pub enum RepairReason {
    MarketplaceConfigMalformed,
    MarketplacePinMismatch,
    MarketplaceUnavailable,
    PluginMissing,
    BinaryMissing,
    BinaryVersionUnreadable,
    HookMissing,
    HookUntrusted,
    HookModified,
    HookDisabled,
    StatusUnavailable,
}

/// The state of the guard.
#[derive(Clone, Debug, PartialEq, Eq)]
pub enum DcgStatus {
    Unsupported(DcgUnsupportedReason),
    NotInstalled,
    ExternalInstallation(String),
    Enabled(String),
    Disabled(String),
    UpdateAvailable { installed_version: Option<String>, target_version: String },
    NeedsRepair(RepairReason),
}

/// The state after a change, and whether it applies to the running session.
#[derive(Clone, Debug, PartialEq, Eq)]
pub struct DcgChange {
    pub status: DcgStatus,
    pub takes_effect_in_current_session: bool,
}

/// Reinstalling fixes the problem; the others need correction elsewhere.
pub open spec fn spec_is_repairable(reason: RepairReason) -> bool {
    !(reason == RepairReason::MarketplaceConfigMalformed || reason == RepairReason::MarketplacePinMismatch
        || reason == RepairReason::HookDisabled || reason == RepairReason::StatusUnavailable)
}

/// Whether reinstalling the managed plugin repairs this problem.
pub fn is_repairable(reason: RepairReason) -> (res: bool)
    ensures
        res == spec_is_repairable(reason),
{
    match reason {
        RepairReason::MarketplaceUnavailable | RepairReason::PluginMissing | RepairReason::BinaryMissing
        | RepairReason::BinaryVersionUnreadable | RepairReason::HookMissing | RepairReason::HookUntrusted
        | RepairReason::HookModified => true,
        RepairReason::MarketplaceConfigMalformed | RepairReason::MarketplacePinMismatch | RepairReason::HookDisabled
        | RepairReason::StatusUnavailable => false,
    }
}

/// Why the guard cannot be managed: an unsupported platform first, then a
/// hook host on a remote workspace.
pub fn unsupported_reason(platform_supported: bool, remote_hook_host: bool) -> (res: Option<DcgUnsupportedReason>)
    ensures
        res == if !platform_supported { Some(DcgUnsupportedReason::Platform) }
            else if remote_hook_host { Some(DcgUnsupportedReason::RemoteHookHost) }
            else { None },
{
    if !platform_supported {
        return Some(DcgUnsupportedReason::Platform);
    }
    if remote_hook_host { Some(DcgUnsupportedReason::RemoteHookHost) } else { None }
}

/// The managed marketplace entry of the user configuration, as read.
#[derive(Clone, Debug, PartialEq, Eq)]
pub struct MarketplaceEntry {
    pub source_type: Option<String>,
    pub source: Option<String>,
    pub ref_name: Option<String>,
}

/// What reading the user configuration gave.
#[derive(Clone, Debug, PartialEq, Eq)]
pub enum MarketplaceConfig {
    /// There is no configuration file.
    Missing,
    /// The file could not be read or is not valid TOML.
    Malformed,
    /// The file was read; the managed marketplace entry, if it has one.
    Read(Option<MarketplaceEntry>),
}

/// The view of an optional string.
pub open spec fn opt_text(s: Option<String>) -> Option<Seq<char>> {
    match s {
        Some(t) => Some(t@),
        None => None,
    }
}

/// What `toml::from_str::<toml::Value>` makes of `text`, looked up at
/// `marketplaces.<name>`: `None` when the text is not valid TOML;
/// `Some(None)` when there is no such entry (or `marketplaces` is not a
/// table); else the entry's `source_type`, `source` and `ref`, each where
/// it is a string.
pub uninterp spec fn toml_marketplace_entry(
    text: Seq<char>,
    name: Seq<char>,
) -> Option<Option<(Option<Seq<char>>, Option<Seq<char>>, Option<Seq<char>>)>>;

/// Parses `text` with `toml::from_str::<toml::Value>` and reads the entry
/// `marketplaces.<name>` with `Value::get`, `Value::as_table` and
/// `Value::as_str`. Claimed: the outcome depends on the text and the name
/// alone, and is `toml_marketplace_entry` field by field.
#[verifier::external_body]
fn parse_marketplace_entry(text: &str, name: &str) -> (res: Option<Option<MarketplaceEntry>>)
    ensures
        toml_marketplace_entry(text@, name@) == match res {
            None => None,
            Some(None) => Some(None),
            Some(Some(e)) => Some(Some((opt_text(e.source_type), opt_text(e.source), opt_text(e.ref_name)))),
        },
{
    let value = toml::from_str::<toml::Value>(text).ok()?;
    let entry = value.get("marketplaces").and_then(toml::Value::as_table).and_then(|m| m.get(name));
    let field = |e: &toml::Value, key: &str| e.get(key).and_then(toml::Value::as_str).map(str::to_string);
    Some(entry.map(|e| MarketplaceEntry {
        source_type: field(e, "source_type"),
        source: field(e, "source"),
        ref_name: field(e, "ref"),
    }))
}

/// What reading the user configuration file gave.
#[derive(Clone, Debug, PartialEq, Eq)]
pub enum ConfigFileRead {
    /// There is no such file.
    NotFound,
    /// The file exists but could not be read.
    Unreadable,
    /// The file's text.
    Text(String),
}

/// The marketplace configuration of the user configuration file: missing
/// without a file, malformed when it cannot be read or is not valid TOML,
/// else the managed marketplace's entry, if there is one.
pub fn marketplace_config_of_file(read: &ConfigFileRead) -> (res: MarketplaceConfig)
    ensures
        match *read {
            ConfigFileRead::NotFound => res == MarketplaceConfig::Missing,
            ConfigFileRead::Unreadable => res == MarketplaceConfig::Malformed,
            ConfigFileRead::Text(t) => match toml_marketplace_entry(t@, "pimpmuckl-dcg"@) {
                None => res == MarketplaceConfig::Malformed,
                Some(None) => res == MarketplaceConfig::Read(None),
                Some(Some((source_type, source, ref_name))) => res matches MarketplaceConfig::Read(Some(e))
                    && opt_text(e.source_type) == source_type && opt_text(e.source) == source
                    && opt_text(e.ref_name) == ref_name,
            },
        },
{
    match read {
        ConfigFileRead::NotFound => MarketplaceConfig::Missing,
        ConfigFileRead::Unreadable => MarketplaceConfig::Malformed,
        ConfigFileRead::Text(t) => match parse_marketplace_entry(t.as_str(), "pimpmuckl-dcg") {
            None => MarketplaceConfig::Malformed,
            Some(entry) => MarketplaceConfig::Read(entry),
        },
    }
}

/// The release pinned by the managed marketplace entry: no pin without a
/// configuration or entry; a malformed configuration, a pin that is not an
/// eligible tag, another source or a source type other than git needs repair.
pub fn managed_marketplace(config: &MarketplaceConfig, expected_source: &str) -> (res: Result<Option<DcgTarget>, RepairReason>)
    ensures
        match *config {
            MarketplaceConfig::Missing => res == Ok::<Option<DcgTarget>, RepairReason>(None),
            MarketplaceConfig::Malformed => res == Err::<Option<DcgTarget>, RepairReason>(RepairReason::MarketplaceConfigMalformed),
            MarketplaceConfig::Read(None) => res == Ok::<Option<DcgTarget>, RepairReason>(None),
            MarketplaceConfig::Read(Some(e)) => {
                let pinned = match e.ref_name { Some(r) => spec_from_tag(r@), None => None };
                let well_sourced = (e.source matches Some(s) && s@ == expected_source@)
                    && (e.source_type matches Some(t) && t@ == "git"@);
                match res {
                    Ok(Some(t)) => pinned == Some((t.version@, t.precedence@)) && well_sourced
                        && (e.ref_name matches Some(r) && t.tag@ == r@),
                    Ok(None) => false,
                    Err(reason) => reason == RepairReason::MarketplacePinMismatch && (pinned.is_none() || !well_sourced),
                }
            },
        },
{
    match config {
        MarketplaceConfig::Missing => Ok(None),
        MarketplaceConfig::Malformed => Err(RepairReason::MarketplaceConfigMalformed),
        MarketplaceConfig::Read(None) => Ok(None),
        MarketplaceConfig::Read(Some(entry)) => {
            let target = match &entry.ref_name {
                Some(r) => match DcgTarget::from_tag(r.as_str()) {
                    Some(t) => t,
                    None => { return Err(RepairReason::MarketplacePinMismatch); },
                },
                None => { return Err(RepairReason::MarketplacePinMismatch); },
            };
            let source_ok = match &entry.source { Some(s) => str_eq(s.as_str(), expected_source), None => false };
            let type_ok = match &entry.source_type { Some(t) => str_eq(t.as_str(), "git"), None => false };
            if !source_ok || !type_ok {
                return Err(RepairReason::MarketplacePinMismatch);
            }
            Ok(Some(target))
        },
    }
}

/// The managed plugin as the app server reports it.
#[derive(Clone, Debug, PartialEq, Eq)]
pub struct PluginSummary {
    pub installed: bool,
    pub enabled: bool,
    pub local_version: Option<String>,
}

/// How far the user trusts the plugin's hook.
#[derive(Clone, Copy, Debug, PartialEq, Eq, Structural)]
pub enum HookTrustStatus {
    Managed,
    Trusted,
    Untrusted,
    Modified,
}

/// Looking up the managed hook of the pinned release.
#[derive(Clone, Copy, Debug, PartialEq, Eq, Structural)]
pub enum HookLookup {
    /// Hook discovery failed or reported errors.
    Failed,
    /// No hook of the managed plugin for this release.
    Missing,
    /// The hook: whether it is enabled, and its trust.
    Found { enabled: bool, trust: HookTrustStatus },
}

/// What status detection has observed so far; `None` where it has not
/// looked yet.
#[derive(Debug)]
pub struct DcgObservations {
    pub unsupported: Option<DcgUnsupportedReason>,
    /// The release pinned by the managed marketplace.
    pub marketplace: Result<Option<DcgTarget>, RepairReason>,
    /// The managed binary exists.
    pub binary_is_file: bool,
    /// The managed marketplace checkout exists.
    pub marketplace_root_is_dir: bool,
    /// The version an external `dcg` on the path reports (`Some(None)`: none).
    pub external_version: Option<Option<String>>,
    /// The managed plugin (`Some(None)`: it could not be read).
    pub plugin: Option<Option<PluginSummary>>,
    /// The version the managed binary reports (`Some(None)`: unreadable).
    pub binary_version: Option<Option<String>>,
    pub hook: Option<HookLookup>,
    /// The latest eligible release (`Some(None)`: it could not be resolved).
    pub latest: Option<Option<DcgTarget>>,
}

/// The next observation that status detection needs.
#[derive(Clone, Copy, Debug, PartialEq, Eq, Structural)]
pub enum DcgQuery {
    ExternalBinaryVersion,
    ReadPlugin,
    BinaryVersion,
    ManagedHook,
    LatestRelease,
}

/// A step of status detection: an observation to make, or the status with
/// what to record about an available update (`Some(flag)` records it).
#[derive(Clone, Debug, PartialEq, Eq)]
pub enum DetectStep {
    Need(DcgQuery),
    Done { status: DcgStatus, update_available: Option<bool> },
}

/// Status detection as a function of the observations. Support comes
/// first, then the marketplace pin, the checkout, the plugin, the binary
/// and its version, the hook when the plugin is enabled, and last a newer
/// release that turns an enabled or disabled installation into an
/// available update.
pub open spec fn spec_detect_step(o: DcgObservations) -> DetectStep {
    let done = |s: DcgStatus| DetectStep::Done { status: s, update_available: None };
    match o.unsupported {
        Some(r) => done(DcgStatus::Unsupported(r)),
        None => match o.marketplace {
            Err(r) => done(DcgStatus::NeedsRepair(r)),
            Ok(None) => if o.binary_is_file {
                done(DcgStatus::NeedsRepair(RepairReason::PluginMissing))
            } else {
                match o.external_version {
                    None => DetectStep::Need(DcgQuery::ExternalBinaryVersion),
                    Some(None) => done(DcgStatus::NotInstalled),
                    Some(Some(v)) => done(DcgStatus::ExternalInstallation(v)),
                }
            },
            Ok(Some(target)) => if !o.marketplace_root_is_dir {
                done(DcgStatus::NeedsRepair(RepairReason::MarketplaceUnavailable))
            } else {
                match o.plugin {
                    None => DetectStep::Need(DcgQuery::ReadPlugin),
                    Some(None) => done(DcgStatus::NeedsRepair(RepairReason::PluginMissing)),
                    Some(Some(p)) => if !p.installed {
                        done(DcgStatus::NeedsRepair(RepairReason::PluginMissing))
                    } else if !(p.local_version matches Some(lv) && lv@ == target.version@) {
                        done(DcgStatus::UpdateAvailable { installed_version: p.local_version, target_version: target.version })
                    } else if !o.binary_is_file {
                        done(DcgStatus::NeedsRepair(RepairReason::BinaryMissing))
                    } else {
                        match o.binary_version {
                            None => DetectStep::Need(DcgQuery::BinaryVersion),
                            Some(None) => done(DcgStatus::NeedsRepair(RepairReason::BinaryVersionUnreadable)),
                            Some(Some(v)) => if v@ != target.version@ {
                                done(DcgStatus::UpdateAvailable { installed_version: Some(v), target_version: target.version })
                            } else {
                                let settled: Option<DcgStatus> = if p.enabled {
                                    match o.hook {
                                        None => None,
                                        Some(HookLookup::Failed) => Some(DcgStatus::NeedsRepair(RepairReason::StatusUnavailable)),
                                        Some(HookLookup::Missing) => Some(DcgStatus::NeedsRepair(RepairReason::HookMissing)),
                                        Some(HookLookup::Found { enabled, trust }) => Some(if !enabled {
                                            DcgStatus::NeedsRepair(RepairReason::HookDisabled)
                                        } else {
                                            match trust {
                                                HookTrustStatus::Managed | HookTrustStatus::Trusted => DcgStatus::Enabled(v),
                                                HookTrustStatus::Untrusted => DcgStatus::NeedsRepair(RepairReason::HookUntrusted),
                                                HookTrustStatus::Modified => DcgStatus::NeedsRepair(RepairReason::HookModified),
                                            }
                                        }),
                                    }
                                } else {
                                    Some(DcgStatus::Disabled(v))
                                };
                                match settled {
                                    None => DetectStep::Need(DcgQuery::ManagedHook),
                                    Some(status) => if !(status is Enabled || status is Disabled) {
                                        done(status)
                                    } else {
                                        match o.latest {
                                            None => DetectStep::Need(DcgQuery::LatestRelease),
                                            Some(None) => done(status),
                                            Some(Some(latest)) => if precedence_after(latest.precedence@, target.precedence@) {
                                                DetectStep::Done {
                                                    status: DcgStatus::UpdateAvailable { installed_version: Some(target.version), target_version: latest.version },
                                                    update_available: Some(true),
                                                }
                                            } else {
                                                DetectStep::Done { status, update_available: Some(false) }
                                            },
                                        }
                                    },
                                }
                            },
                        }
                    },
                }
            },
        },
    }
}

/// The guard is reported enabled only when it is supported, pinned by the
/// managed marketplace, installed and enabled as a plugin at the pinned
/// version, its binary reports that version, and its hook is found,
/// enabled, and trusted (managed or by the user). A hook found enabled but
/// untrusted is reported as needing repair, never as enabled.
pub proof fn lemma_enabled_only_with_a_trusted_hook(o: DcgObservations)
    ensures
        spec_detect_step(o) matches DetectStep::Done { status: DcgStatus::Enabled(v), .. } ==> {
            &&& o.unsupported.is_none()
            &&& o.marketplace matches Ok(Some(t)) && t.version@ == v@
            &&& o.marketplace_root_is_dir && o.binary_is_file
            &&& o.plugin matches Some(Some(p)) && p.installed && p.enabled
            &&& o.binary_version == Some(Some(v))
            &&& o.hook matches Some(HookLookup::Found { enabled, trust }) && enabled
                && (trust == HookTrustStatus::Managed || trust == HookTrustStatus::Trusted)
        },
        o.hook == Some(HookLookup::Found { enabled: true, trust: HookTrustStatus::Untrusted })
            ==> !(spec_detect_step(o) matches DetectStep::Done { status: DcgStatus::Enabled(_), .. }),
        ({
            &&& o.unsupported.is_none()
            &&& o.marketplace matches Ok(Some(t))
            &&& o.marketplace_root_is_dir && o.binary_is_file
            &&& o.plugin matches Some(Some(p)) && p.installed && p.enabled
                && (p.local_version matches Some(lv) && lv@ == t.version@)
            &&& o.binary_version matches Some(Some(v)) && v@ == t.version@
            &&& o.hook == Some(HookLookup::Found { enabled: true, trust: HookTrustStatus::Untrusted })
        }) ==> spec_detect_step(o) == (DetectStep::Done {
            status: DcgStatus::NeedsRepair(RepairReason::HookUntrusted),
            update_available: None,
        }),
{
}

fn done(status: DcgStatus) -> (res: DetectStep)
    ensures
        res == (DetectStep::Done { status, update_available: None }),
{
    DetectStep::Done { status, update_available: None }
}

/// The next step of status detection; see `spec_detect_step`.
pub fn detect_status_step(o: &DcgObservations) -> (res: DetectStep)
    ensures
        res == spec_detect_step(*o),
{
    if let Some(r) = o.unsupported {
        return done(DcgStatus::Unsupported(r));
    }
    let target = match &o.marketplace {
        Err(r) => { return done(DcgStatus::NeedsRepair(*r)); },
        Ok(None) => {
            if o.binary_is_file {
                return done(DcgStatus::NeedsRepair(RepairReason::PluginMissing));
            }
            return match &o.external_version {
                None => DetectStep::Need(DcgQuery::ExternalBinaryVersion),
                Some(None) => done(DcgStatus::NotInstalled),
                Some(Some(v)) => done(DcgStatus::ExternalInstallation(v.clone())),
            };
        },
        Ok(Some(t)) => t,
    };
    if !o.marketplace_root_is_dir {
        return done(DcgStatus::NeedsRepair(RepairReason::MarketplaceUnavailable));
    }
    let plugin = match &o.plugin {
        None => { return DetectStep::Need(DcgQuery::ReadPlugin); },
        Some(None) => { return done(DcgStatus::NeedsRepair(RepairReason::PluginMissing)); },
        Some(Some(p)) => p,
    };
    if !plugin.installed {
        return done(DcgStatus::NeedsRepair(RepairReason::PluginMissing));
    }
    let current = match &plugin.local_version {
        Some(lv) => str_eq(lv.as_str(), target.version.as_str()),
        None => false,
    };
    if !current {
        return done(DcgStatus::UpdateAvailable {
            installed_version: plugin.local_version.clone(),
            target_version: target.version.clone(),
        });
    }
    if !o.binary_is_file {
        return done(DcgStatus::NeedsRepair(RepairReason::BinaryMissing));
    }
    let version = match &o.binary_version {
        None => { return DetectStep::Need(DcgQuery::BinaryVersion); },
        Some(None) => { return done(DcgStatus::NeedsRepair(RepairReason::BinaryVersionUnreadable)); },
        Some(Some(v)) => v,
    };
    if !str_eq(version.as_str(), target.version.as_str()) {
        return done(DcgStatus::UpdateAvailable { installed_version: Some(version.clone()), target_version: target.version.clone() });
    }
    let status = if plugin.enabled {
        match o.hook {
            None => { return DetectStep::Need(DcgQuery::ManagedHook); },
            Some(HookLookup::Failed) => { return done(DcgStatus::NeedsRepair(RepairReason::StatusUnavailable)); },
            Some(HookLookup::Missing) => { return done(DcgStatus::NeedsRepair(RepairReason::HookMissing)); },
            Some(HookLookup::Found { enabled, trust }) => {
                if !enabled {
                    return done(DcgStatus::NeedsRepair(RepairReason::HookDisabled));
                }
                match trust {
                    HookTrustStatus::Managed | HookTrustStatus::Trusted => DcgStatus::Enabled(version.clone()),
                    HookTrustStatus::Untrusted => { return done(DcgStatus::NeedsRepair(RepairReason::HookUntrusted)); },
                    HookTrustStatus::Modified => { return done(DcgStatus::NeedsRepair(RepairReason::HookModified)); },
                }
            },
        }
    } else {
        DcgStatus::Disabled(version.clone())
    };
    match &o.latest {
        None => DetectStep::Need(DcgQuery::LatestRelease),
        Some(None) => done(status),
        Some(Some(latest)) => {
            if precedence_is_after(&latest.precedence, &target.precedence) {
                DetectStep::Done {
                    status: DcgStatus::UpdateAvailable { installed_version: Some(target.version.clone()), target_version: latest.version.clone() },
                    update_available: Some(true),
                }
            } else {
                DetectStep::Done { status, update_available: Some(false) }
            }
        },
    }
}

/// Whether a change reached the state the action asked for: disabling must
/// leave it disabled; updating, enabled or disabled; anything else, enabled.
pub fn action_succeeded(action: DcgAction, status: &DcgStatus) -> (res: bool)
    ensures
        res == match action {
            DcgAction::Disable => status is Disabled,
            DcgAction::Update => status is Enabled || status is Disabled,
            _ => status is Enabled,
        },
{
    match action {
        DcgAction::Disable => match status { DcgStatus::Disabled(_) => true, _ => false },
        DcgAction::Update => match status { DcgStatus::Enabled(_) | DcgStatus::Disabled(_) => true, _ => false },
        _ => match status { DcgStatus::Enabled(_) => true, _ => false },
    }
}

/// What the user asked to do with the guard.
#[derive(Clone, Copy, Debug, PartialEq, Eq, Structural)]
pub enum DcgAction {
    InstallAndEnable,
    Enable,
    Disable,
    Update,
    Repair(RepairReason),
}

/// How an action is carried out.
#[derive(Clone, Copy, Debug, PartialEq, Eq, Structural)]
pub enum DcgOperation {
    /// Install the latest release through the managed marketplace.
    InstallManaged,
    /// Switch the plugin on or off in the user configuration.
    SetEnabled(bool),
    /// Refuse: the problem needs correction outside Codex++.
    Refuse(RepairReason),
}

/// How each action is carried out: installing, updating and safe repairs
/// reinstall; enabling and disabling switch the plugin; other repairs are
/// refused.
pub fn operation_for(action: DcgAction) -> (res: DcgOperation)
    ensures
        res == match action {
            DcgAction::InstallAndEnable | DcgAction::Update => DcgOperation::InstallManaged,
            DcgAction::Enable => DcgOperation::SetEnabled(true),
            DcgAction::Disable => DcgOperation::SetEnabled(false),
            DcgAction::Repair(r) => if spec_is_repairable(r) { DcgOperation::InstallManaged } else { DcgOperation::Refuse(r) },
        },
{
    match action {
        DcgAction::InstallAndEnable | DcgAction::Update => DcgOperation::InstallManaged,
        DcgAction::Enable => DcgOperation::SetEnabled(true),
        DcgAction::Disable => DcgOperation::SetEnabled(false),
        DcgAction::Repair(r) => if is_repairable(r) { DcgOperation::InstallManaged } else { DcgOperation::Refuse(r) },
    }
}

/// A successful managed install enables the target release, from the next
/// session on.
pub fn installed_change(target: &DcgTarget) -> (res: DcgChange)
    ensures
        res.status matches DcgStatus::Enabled(v) && v@ == target.version@,
        !res.takes_effect_in_current_session,
{
    DcgChange { status: DcgStatus::Enabled(target.version.clone()), takes_effect_in_current_session: false }
}

} // verus!

verus! {

/// Coordination of guard work within a process: at most one management
/// operation at a time, and only the latest status detection counts.
pub struct DcgCoordination {
    operation_in_flight: bool,
    status_detection_id: u64,
}

impl DcgCoordination {
    /// An operation is running.
    pub closed spec fn spec_in_flight(self) -> bool {
        self.operation_in_flight
    }

    /// The id of the latest status detection.
    pub closed spec fn spec_detection_id(self) -> u64 {
        self.status_detection_id
    }

    /// Nothing running, no detection started.
    pub fn new() -> (res: DcgCoordination)
        ensures
            !res.spec_in_flight(),
            res.spec_detection_id() == 0,
    {
        DcgCoordination { operation_in_flight: false, status_detection_id: 0 }
    }

    /// Starts an operation unless one is running; whether it started.
    pub fn try_begin_operation(&mut self) -> (res: bool)
        ensures
            res == !old(self).spec_in_flight(),
            final(self).spec_in_flight(),
            final(self).spec_detection_id() == old(self).spec_detection_id(),
    {
        let started = !self.operation_in_flight;
        self.operation_in_flight = true;
        started
    }

    /// The running operation ended.
    pub fn finish_operation(&mut self)
        ensures
            !final(self).spec_in_flight(),
            final(self).spec_detection_id() == old(self).spec_detection_id(),
    {
        self.operation_in_flight = false;
    }

    /// Starts a status detection; earlier ones stop counting.
    pub fn begin_status_detection(&mut self) -> (id: u64)
        ensures
            id == final(self).spec_detection_id(),
            id == (if old(self).spec_detection_id() == u64::MAX { 0 } else { (old(self).spec_detection_id() + 1) as u64 }),
            final(self).spec_in_flight() == old(self).spec_in_flight(),
    {
        self.status_detection_id = if self.status_detection_id == u64::MAX { 0 } else { self.status_detection_id + 1 };
        self.status_detection_id
    }

    /// Whether a detection is the latest one.
    pub fn is_current_status_detection(&self, id: u64) -> (res: bool)
        ensures
            res == (id == self.spec_detection_id()),
    {
        self.status_detection_id == id
    }
}

/// The guard can be managed on a supported platform without a remote workspace.
pub fn management_supported(platform_supported: bool, uses_remote_workspace: bool) -> (res: bool)
    ensures
        res == (platform_supported && !uses_remote_workspace),
{
    platform_supported && !uses_remote_workspace
}

} // verus!
