//! The Codex++ settings: the settings view, what saving it writes, and how
//! the configuration read back afterwards is reported.

use vstd::prelude::*;
use crate::auto_redeem_resets::AutoRedeemResets;
use crate::destructive_command_guard::DcgAction;
use crate::destructive_command_guard::DcgStatus;
use crate::dcg_views::dcg_settings_row;
use crate::history::HistoryCell;
use crate::selection::ItemAction;
use crate::selection::SelectionItem;
use crate::selection::SelectionViewParams;
use crate::selection::Toggle;
use crate::selection::ToggleTarget;
use crate::text::str_eq;

verus! {

/// Whether Codex++ chooses and switches accounts by itself.
#[derive(Clone, Copy, Debug, PartialEq, Eq, Structural)]
pub enum AutomaticAccountSelection {
    Enabled,
    Disabled,
}

/// Whether unused weekly windows of imported accounts are started.
#[derive(Clone, Copy, Debug, PartialEq, Eq, Structural)]
pub enum WeeklyUsageWindowAutoStart {
    Enabled,
    Disabled,
}

/// How long requests are retried while the model is at capacity.
#[derive(Clone, Copy, Debug, PartialEq, Eq, Structural)]
pub enum ModelCapacityRetryMode {
    Bounded,
    Indefinite,
}

/// Whether the agent may leave durable messages for the user.
#[derive(Clone, Copy, Debug, PartialEq, Eq, Structural)]
pub enum UserMessageInbox {
    Enabled,
    Disabled,
}

/// How much routine tool activity the main conversation shows.
#[derive(Clone, Copy, Debug, PartialEq, Eq, Structural)]
pub enum ToolActivityPresentation {
    Full,
    Compact,
}

/// The settings a save asks for; `None` leaves a setting as it is.
#[derive(Clone, Copy, Debug, PartialEq, Eq, Structural)]
pub struct SettingsRequest {
    pub automatic_account_selection: AutomaticAccountSelection,
    pub weekly_usage_window_auto_start: Option<WeeklyUsageWindowAutoStart>,
    pub auto_redeem_resets: Option<bool>,
    pub model_capacity_retry_mode: Option<ModelCapacityRetryMode>,
    pub user_message_inbox: UserMessageInbox,
    pub tool_activity: ToolActivityPresentation,
}

/// The toggles of the settings view.
#[derive(Clone, Copy, Debug, PartialEq, Eq, Structural)]
pub enum SettingKey {
    Automatic,
    Weekly,
    AutoRedeem,
    CapacityIndefinite,
    UserMessageInbox,
    CompactToolActivity,
}

/// The staged state of the settings view's toggles.
#[derive(Clone, Copy, Debug, PartialEq, Eq, Structural)]
pub struct SettingsToggles {
    pub automatic: bool,
    pub weekly: bool,
    pub auto_redeem: bool,
    pub capacity_indefinite: bool,
    pub user_message_inbox: bool,
    pub compact_tool_activity: bool,
}

/// `on` when the flag is set, else `off`.
pub fn selected<T: Copy>(flag: bool, on: T, off: T) -> (res: T)
    ensures
        res == (if flag { on } else { off }),
{
    if flag { on } else { off }
}

impl SettingsToggles {
    /// The toggles as the current settings set them.
    pub open spec fn spec_initial(
        automatic: AutomaticAccountSelection,
        weekly: WeeklyUsageWindowAutoStart,
        auto_redeem: bool,
        capacity: ModelCapacityRetryMode,
        user_message_inbox: bool,
        tool_activity: ToolActivityPresentation,
    ) -> SettingsToggles {
        SettingsToggles {
            automatic: automatic == AutomaticAccountSelection::Enabled,
            weekly: weekly == WeeklyUsageWindowAutoStart::Enabled,
            auto_redeem,
            capacity_indefinite: capacity == ModelCapacityRetryMode::Indefinite,
            user_message_inbox,
            compact_tool_activity: tool_activity == ToolActivityPresentation::Compact,
        }
    }

    /// The toggles as the current settings set them.
    pub fn initial(
        automatic: AutomaticAccountSelection,
        weekly: WeeklyUsageWindowAutoStart,
        auto_redeem: bool,
        capacity: ModelCapacityRetryMode,
        user_message_inbox: bool,
        tool_activity: ToolActivityPresentation,
    ) -> (res: SettingsToggles)
        ensures
            res == SettingsToggles::spec_initial(automatic, weekly, auto_redeem, capacity, user_message_inbox, tool_activity),
    {
        SettingsToggles {
            automatic: automatic == AutomaticAccountSelection::Enabled,
            weekly: weekly == WeeklyUsageWindowAutoStart::Enabled,
            auto_redeem,
            capacity_indefinite: capacity == ModelCapacityRetryMode::Indefinite,
            user_message_inbox,
            compact_tool_activity: tool_activity == ToolActivityPresentation::Compact,
        }
    }

    /// The state of one toggle.
    pub open spec fn get(self, key: SettingKey) -> bool {
        match key {
            SettingKey::Automatic => self.automatic,
            SettingKey::Weekly => self.weekly,
            SettingKey::AutoRedeem => self.auto_redeem,
            SettingKey::CapacityIndefinite => self.capacity_indefinite,
            SettingKey::UserMessageInbox => self.user_message_inbox,
            SettingKey::CompactToolActivity => self.compact_tool_activity,
        }
    }

    /// Switches one toggle and leaves the others.
    pub fn set(&mut self, key: SettingKey, on: bool)
        ensures
            final(self).get(key) == on,
            forall|k: SettingKey| k != key ==> final(self).get(k) == old(self).get(k),
    {
        match key {
            SettingKey::Automatic => self.automatic = on,
            SettingKey::Weekly => self.weekly = on,
            SettingKey::AutoRedeem => self.auto_redeem = on,
            SettingKey::CapacityIndefinite => self.capacity_indefinite = on,
            SettingKey::UserMessageInbox => self.user_message_inbox = on,
            SettingKey::CompactToolActivity => self.compact_tool_activity = on,
        }
    }

    /// The save the toggles ask for; the weekly settings only when they are shown.
    pub open spec fn spec_request(self, save_weekly: bool) -> SettingsRequest {
        SettingsRequest {
            automatic_account_selection: if self.automatic { AutomaticAccountSelection::Enabled } else { AutomaticAccountSelection::Disabled },
            weekly_usage_window_auto_start: if save_weekly {
                Some(if self.weekly { WeeklyUsageWindowAutoStart::Enabled } else { WeeklyUsageWindowAutoStart::Disabled })
            } else {
                None
            },
            auto_redeem_resets: if save_weekly { Some(self.auto_redeem) } else { None },
            model_capacity_retry_mode: Some(if self.capacity_indefinite { ModelCapacityRetryMode::Indefinite } else { ModelCapacityRetryMode::Bounded }),
            user_message_inbox: if self.user_message_inbox { UserMessageInbox::Enabled } else { UserMessageInbox::Disabled },
            tool_activity: if self.compact_tool_activity { ToolActivityPresentation::Compact } else { ToolActivityPresentation::Full },
        }
    }

    /// The save the toggles ask for; the weekly settings only when they are shown.
    pub fn request(&self, save_weekly: bool) -> (res: SettingsRequest)
        ensures
            res == self.spec_request(save_weekly),
    {
        SettingsRequest {
            automatic_account_selection: selected(self.automatic, AutomaticAccountSelection::Enabled, AutomaticAccountSelection::Disabled),
            weekly_usage_window_auto_start: if save_weekly {
                Some(selected(self.weekly, WeeklyUsageWindowAutoStart::Enabled, WeeklyUsageWindowAutoStart::Disabled))
            } else {
                None
            },
            auto_redeem_resets: if save_weekly { Some(self.auto_redeem) } else { None },
            model_capacity_retry_mode: Some(selected(self.capacity_indefinite, ModelCapacityRetryMode::Indefinite, ModelCapacityRetryMode::Bounded)),
            user_message_inbox: selected(self.user_message_inbox, UserMessageInbox::Enabled, UserMessageInbox::Disabled),
            tool_activity: selected(self.compact_tool_activity, ToolActivityPresentation::Compact, ToolActivityPresentation::Full),
        }
    }
}

/// `item` is a settings row named `name` with `description`, toggling
/// `key` (now `is_on`), that saves the settings when chosen.
pub open spec fn settings_row(
    item: SelectionItem,
    name: Seq<char>,
    description: Seq<char>,
    key: SettingKey,
    is_on: bool,
    save_weekly: bool,
) -> bool {
    &&& item.name@ == name
    &&& item.description matches Some(d) && d@ == description
    &&& item.toggle == Some(Toggle { is_on, target: ToggleTarget::Setting(key) })
    &&& item.action == Some(ItemAction::SaveSettings { save_weekly, then: None })
    &&& item.dismiss_on_select
    &&& !item.is_default && !item.is_current && !item.is_disabled
    &&& item.search_value.is_none()
}

/// A settings row: its toggle stages the setting, choosing it saves them all.
pub fn settings_item(name: &str, description: &str, key: SettingKey, is_on: bool, save_weekly: bool) -> (res: SelectionItem)
    ensures
        settings_row(res, name@, description@, key, is_on, save_weekly),
{
    let mut item = SelectionItem::named(name.to_string());
    item.description = Some(description.to_string());
    item.toggle = Some(Toggle { is_on, target: ToggleTarget::Setting(key) });
    item.action = Some(ItemAction::SaveSettings { save_weekly, then: None });
    item.dismiss_on_select = true;
    item
}

/// The rows of the settings view after the guard's row: automatic
/// selection, the weekly settings when supported, capacity retries, compact
/// tool activity and the agent inbox.
pub open spec fn settings_rows(items: Seq<SelectionItem>, t: SettingsToggles, weekly_supported: bool) -> bool {
    let k: int = if weekly_supported { 3 } else { 1 };
    &&& items.len() == k + 3
    &&& settings_row(items[0], "Automatic account selection"@, "Choose and switch accounts when needed."@,
        SettingKey::Automatic, t.automatic, weekly_supported)
    &&& weekly_supported ==> settings_row(items[1], "Start unused weekly windows"@,
        "Keep imported accounts ready to use."@, SettingKey::Weekly, t.weekly, true)
    &&& weekly_supported ==> settings_row(items[2], "Auto-redeem usage resets (Experimental)"@,
        "Use earned resets before expiry or a distant weekly reset."@, SettingKey::AutoRedeem, t.auto_redeem, true)
    &&& settings_row(items[k], "Keep retrying at capacity"@,
        "After 1, 2, 5, and 15 minutes, retry every 15 minutes."@, SettingKey::CapacityIndefinite,
        t.capacity_indefinite, weekly_supported)
    &&& settings_row(items[k + 1], "Compact tool activity"@,
        "Keep routine tool details in Ctrl+T instead of the main conversation."@,
        SettingKey::CompactToolActivity, t.compact_tool_activity, weekly_supported)
    &&& settings_row(items[k + 2], "Agent inbox messages (Experimental)"@,
        "Let Codex leave durable messages you can review with /inbox."@, SettingKey::UserMessageInbox,
        t.user_message_inbox, weekly_supported)
}

/// `res` is the Codex++ settings view for these toggles, with `hint`
/// under it.
pub open spec fn settings_view(
    res: SelectionViewParams,
    toggles: SettingsToggles,
    weekly_supported: bool,
    dcg_status: Option<DcgStatus>,
    hint: Seq<char>,
) -> bool {
    &&& res.title matches Some(t) && t@ == "Codex++ Settings"@
    &&& res.subtitle matches Some(s) && s@ == "Select the settings to enable."@
    &&& res.footer_note.is_none()
    &&& res.footer_hint matches Some(h) && h@ == hint
    &&& res.initial_selected_idx.is_none()
    &&& !res.is_searchable
    &&& res.view_id.is_none()
    &&& res.allow_cancel
    &&& match dcg_status {
        Some(status) => {
            &&& res.items@.len() > 0
            &&& dcg_settings_row(res.items@[0], status, weekly_supported)
            &&& settings_rows(res.items@.drop_first(), toggles, weekly_supported)
        },
        None => settings_rows(res.items@, toggles, weekly_supported),
    }
}

/// The Codex++ settings view: the guard's row first when its status is
/// known, then the settings rows; the weekly settings only where weekly
/// windows are supported, which is also when saving includes them. The
/// hint under it names the keys of `keys`.
pub fn codex_plus_plus_settings_params(
    toggles: SettingsToggles,
    weekly_supported: bool,
    dcg_status: Option<DcgStatus>,
    keys: &ListKeymap,
) -> (res: SelectionViewParams)
    ensures
        settings_view(res, toggles, weekly_supported, dcg_status, keys.spec_hint()),
{
    let mut items: Vec<SelectionItem> = Vec::new();
    let has_dcg = dcg_status.is_some();
    match dcg_status {
        Some(status) => items.push(crate::dcg_views::settings_item(status, weekly_supported)),
        None => {},
    }
    let ghost start = items@;
    items.push(settings_item(
        "Automatic account selection",
        "Choose and switch accounts when needed.",
        SettingKey::Automatic,
        toggles.automatic,
        weekly_supported,
    ));
    if weekly_supported {
        items.push(settings_item(
            "Start unused weekly windows",
            "Keep imported accounts ready to use.",
            SettingKey::Weekly,
            toggles.weekly,
            true,
        ));
        items.push(settings_item(
            "Auto-redeem usage resets (Experimental)",
            "Use earned resets before expiry or a distant weekly reset.",
            SettingKey::AutoRedeem,
            toggles.auto_redeem,
            true,
        ));
    }
    items.push(settings_item(
        "Keep retrying at capacity",
        "After 1, 2, 5, and 15 minutes, retry every 15 minutes.",
        SettingKey::CapacityIndefinite,
        toggles.capacity_indefinite,
        weekly_supported,
    ));
    items.push(settings_item(
        "Compact tool activity",
        "Keep routine tool details in Ctrl+T instead of the main conversation.",
        SettingKey::CompactToolActivity,
        toggles.compact_tool_activity,
        weekly_supported,
    ));
    items.push(settings_item(
        "Agent inbox messages (Experimental)",
        "Let Codex leave durable messages you can review with /inbox.",
        SettingKey::UserMessageInbox,
        toggles.user_message_inbox,
        weekly_supported,
    ));
    proof {
        if has_dcg {
            assert(items@.drop_first() =~= items@.subrange(1, items@.len() as int));
        }
    }
    let mut params = SelectionViewParams::titled("Codex++ Settings".to_string(), items);
    params.subtitle = Some("Select the settings to enable.".to_string());
    params.footer_hint = Some(settings_hint_line(&keys.accept, &keys.cancel));
    params
}

} // verus!

verus! {

/// A value written to the user configuration.
#[derive(Clone, Debug, PartialEq, Eq)]
pub enum ConfigValue {
    Text(String),
    AutoRedeem(AutoRedeemResets),
}

/// One edit of the user configuration.
#[derive(Clone, Debug, PartialEq, Eq)]
pub enum ConfigWrite {
    Replace { key: String, value: ConfigValue },
    /// Removes the key from the active user layer; inherited values stay.
    Clear { key: String },
}

/// `w` replaces `key` with the text `value`.
pub open spec fn replaces_text(w: ConfigWrite, key: Seq<char>, value: Seq<char>) -> bool {
    w matches ConfigWrite::Replace { key: k, value: ConfigValue::Text(v) } && k@ == key && v@ == value
}

/// The configuration text of automatic account selection.
pub open spec fn automatic_text(a: AutomaticAccountSelection) -> Seq<char> {
    match a { AutomaticAccountSelection::Enabled => "enabled"@, AutomaticAccountSelection::Disabled => "disabled"@ }
}

/// The configuration text of the weekly start.
pub open spec fn weekly_text(w: WeeklyUsageWindowAutoStart) -> Seq<char> {
    match w { WeeklyUsageWindowAutoStart::Enabled => "enabled"@, WeeklyUsageWindowAutoStart::Disabled => "disabled"@ }
}

/// The configuration text of the capacity retry mode.
pub open spec fn capacity_text(c: ModelCapacityRetryMode) -> Seq<char> {
    match c { ModelCapacityRetryMode::Bounded => "bounded"@, ModelCapacityRetryMode::Indefinite => "indefinite"@ }
}

/// The configuration text of the agent inbox setting.
pub open spec fn inbox_text(u: UserMessageInbox) -> Seq<char> {
    match u { UserMessageInbox::Enabled => "enabled"@, UserMessageInbox::Disabled => "disabled"@ }
}

/// The configuration text of the tool activity presentation.
pub open spec fn tool_activity_text(t: ToolActivityPresentation) -> Seq<char> {
    match t { ToolActivityPresentation::Full => "full"@, ToolActivityPresentation::Compact => "compact"@ }
}

fn enabled_or_disabled(enabled: bool) -> (res: String)
    ensures
        res@ == (if enabled { "enabled"@ } else { "disabled"@ }),
{
    if enabled { "enabled".to_string() } else { "disabled".to_string() }
}

fn replace_text(key: &str, value: String) -> (res: ConfigWrite)
    ensures
        replaces_text(res, key@, value@),
{
    ConfigWrite::Replace { key: key.to_string(), value: ConfigValue::Text(value) }
}

/// The automatic-redemption settings a request writes: `None` when it
/// leaves them, `Some(None)` when it turns them off, and when it turns them
/// on, the configured settings or else the defaults.
pub open spec fn requested_auto_redeem(
    request: SettingsRequest,
    configured: Option<AutoRedeemResets>,
) -> Option<Option<AutoRedeemResets>> {
    match request.auto_redeem_resets {
        None => None,
        Some(false) => Some(None),
        Some(true) => Some(Some(match configured {
            Some(s) => s,
            None => AutoRedeemResets::spec_default(),
        })),
    }
}

/// The writes of a save, in order: automatic selection, the weekly start
/// when asked, automatic redemption when asked (its table, or its removal),
/// capacity retries when asked, the agent inbox and tool activity.
pub open spec fn spec_settings_writes(
    request: SettingsRequest,
    configured: Option<AutoRedeemResets>,
    writes: Seq<ConfigWrite>,
) -> bool {
    let n_weekly: int = if request.weekly_usage_window_auto_start.is_some() { 1 } else { 0 };
    let n_redeem: int = if request.auto_redeem_resets.is_some() { 1 } else { 0 };
    let n_capacity: int = if request.model_capacity_retry_mode.is_some() { 1 } else { 0 };
    let r = 1 + n_weekly;
    let c = r + n_redeem;
    let u = c + n_capacity;
    &&& writes.len() == u + 2
    &&& replaces_text(writes[0], "automatic_account_selection"@, automatic_text(request.automatic_account_selection))
    &&& (request.weekly_usage_window_auto_start matches Some(w) ==> replaces_text(writes[1],
        "weekly_usage_window_auto_start"@, weekly_text(w)))
    &&& (match requested_auto_redeem(request, configured) {
        Some(Some(s)) => writes[r] matches ConfigWrite::Replace { key, value: ConfigValue::AutoRedeem(v) }
            && key@ == "auto_redeem_resets"@ && v == s,
        Some(None) => writes[r] matches ConfigWrite::Clear { key } && key@ == "auto_redeem_resets"@,
        None => true,
    })
    &&& (request.model_capacity_retry_mode matches Some(m) ==> replaces_text(writes[c],
        "model_capacity_retry_mode"@, capacity_text(m)))
    &&& replaces_text(writes[u], "user_message_inbox"@, inbox_text(request.user_message_inbox))
    &&& replaces_text(writes[u + 1], "codex_plus_plus_tool_activity"@, tool_activity_text(request.tool_activity))
}

/// The configuration writes of a save; `configured` is the user's current
/// automatic-redemption settings, kept when redemption stays on.
pub fn settings_writes(request: SettingsRequest, configured: Option<AutoRedeemResets>) -> (res: Vec<ConfigWrite>)
    ensures
        spec_settings_writes(request, configured, res@),
{
    let mut writes: Vec<ConfigWrite> = Vec::new();
    writes.push(replace_text(
        "automatic_account_selection",
        enabled_or_disabled(request.automatic_account_selection == AutomaticAccountSelection::Enabled),
    ));
    match request.weekly_usage_window_auto_start {
        Some(w) => writes.push(replace_text(
            "weekly_usage_window_auto_start",
            enabled_or_disabled(w == WeeklyUsageWindowAutoStart::Enabled),
        )),
        None => {},
    }
    match request.auto_redeem_resets {
        Some(true) => {
            let s = match configured {
                Some(s) => s,
                None => AutoRedeemResets::default(),
            };
            writes.push(ConfigWrite::Replace {
                key: "auto_redeem_resets".to_string(),
                value: ConfigValue::AutoRedeem(s),
            });
        },
        Some(false) => writes.push(ConfigWrite::Clear { key: "auto_redeem_resets".to_string() }),
        None => {},
    }
    match request.model_capacity_retry_mode {
        Some(m) => {
            let text = match m {
                ModelCapacityRetryMode::Bounded => "bounded".to_string(),
                ModelCapacityRetryMode::Indefinite => "indefinite".to_string(),
            };
            writes.push(replace_text("model_capacity_retry_mode", text));
        },
        None => {},
    }
    writes.push(replace_text(
        "user_message_inbox",
        enabled_or_disabled(request.user_message_inbox == UserMessageInbox::Enabled),
    ));
    let activity = match request.tool_activity {
        ToolActivityPresentation::Full => "full".to_string(),
        ToolActivityPresentation::Compact => "compact".to_string(),
    };
    writes.push(replace_text("codex_plus_plus_tool_activity", activity));
    writes
}

/// The settings in effect after a save, as read back from the configuration.
#[derive(Clone, Copy, Debug, PartialEq, Eq, Structural)]
pub struct EffectiveSettings {
    pub automatic: AutomaticAccountSelection,
    pub weekly: WeeklyUsageWindowAutoStart,
    pub capacity: ModelCapacityRetryMode,
    pub user_message_inbox: UserMessageInbox,
    pub tool_activity: ToolActivityPresentation,
}

/// `value` is the text `expected`.
pub open spec fn is_text(value: Option<Seq<char>>, expected: Seq<char>) -> bool {
    value matches Some(v) && v == expected
}

fn text_is(value: Option<&str>, expected: &str) -> (res: bool)
    ensures
        res == is_text(text_of(value), expected@),
{
    match value {
        Some(v) => str_eq(v, expected),
        None => false,
    }
}

/// The effective settings read from the text values of their keys (`None`
/// where a key is missing or not text). Each setting keeps its default
/// unless its key holds the other value exactly: automatic selection and
/// weekly start are on unless "disabled", capacity retries bounded unless
/// "indefinite", the inbox off unless "enabled", tool activity full unless
/// "compact".
pub open spec fn spec_effective_settings(
    automatic: Option<Seq<char>>,
    weekly: Option<Seq<char>>,
    capacity: Option<Seq<char>>,
    user_message_inbox: Option<Seq<char>>,
    tool_activity: Option<Seq<char>>,
) -> EffectiveSettings {
    EffectiveSettings {
        automatic: if is_text(automatic, "disabled"@) { AutomaticAccountSelection::Disabled } else { AutomaticAccountSelection::Enabled },
        weekly: if is_text(weekly, "disabled"@) { WeeklyUsageWindowAutoStart::Disabled } else { WeeklyUsageWindowAutoStart::Enabled },
        capacity: if is_text(capacity, "indefinite"@) { ModelCapacityRetryMode::Indefinite } else { ModelCapacityRetryMode::Bounded },
        user_message_inbox: if is_text(user_message_inbox, "enabled"@) { UserMessageInbox::Enabled } else { UserMessageInbox::Disabled },
        tool_activity: if is_text(tool_activity, "compact"@) { ToolActivityPresentation::Compact } else { ToolActivityPresentation::Full },
    }
}

/// The text of an optional string.
pub open spec fn text_of(value: Option<&str>) -> Option<Seq<char>> {
    match value {
        Some(v) => Some(v@),
        None => None,
    }
}

/// Reads the effective settings from the text values of their keys; see
/// `spec_effective_settings`.
pub fn effective_settings(
    automatic: Option<&str>,
    weekly: Option<&str>,
    capacity: Option<&str>,
    user_message_inbox: Option<&str>,
    tool_activity: Option<&str>,
) -> (res: EffectiveSettings)
    ensures
        res == spec_effective_settings(text_of(automatic), text_of(weekly), text_of(capacity),
            text_of(user_message_inbox), text_of(tool_activity)),
{
    EffectiveSettings {
        automatic: if text_is(automatic, "disabled") { AutomaticAccountSelection::Disabled } else { AutomaticAccountSelection::Enabled },
        weekly: if text_is(weekly, "disabled") { WeeklyUsageWindowAutoStart::Disabled } else { WeeklyUsageWindowAutoStart::Enabled },
        capacity: if text_is(capacity, "indefinite") { ModelCapacityRetryMode::Indefinite } else { ModelCapacityRetryMode::Bounded },
        user_message_inbox: if text_is(user_message_inbox, "enabled") { UserMessageInbox::Enabled } else { UserMessageInbox::Disabled },
        tool_activity: if text_is(tool_activity, "compact") { ToolActivityPresentation::Compact } else { ToolActivityPresentation::Full },
    }
}

/// The configuration read back holds everything the request asked for:
/// each setting it names, and automatic redemption present exactly when it
/// asked to turn it on.
pub open spec fn spec_request_honored(request: SettingsRequest, effective: EffectiveSettings, auto_redeem_present: bool) -> bool {
    &&& effective.automatic == request.automatic_account_selection
    &&& (request.weekly_usage_window_auto_start matches Some(w) ==> effective.weekly == w)
    &&& (request.auto_redeem_resets matches Some(on) ==> auto_redeem_present == on)
    &&& (request.model_capacity_retry_mode matches Some(m) ==> effective.capacity == m)
    &&& effective.user_message_inbox == request.user_message_inbox
    &&& effective.tool_activity == request.tool_activity
}

/// Whether the configuration read back honors the request; an ambiguous
/// write whose read-back matches still counts as saved.
pub fn request_honored(request: &SettingsRequest, effective: &EffectiveSettings, auto_redeem_present: bool) -> (res: bool)
    ensures
        res == spec_request_honored(*request, *effective, auto_redeem_present),
{
    effective.automatic == request.automatic_account_selection
        && match request.weekly_usage_window_auto_start {
            Some(w) => effective.weekly == w,
            None => true,
        }
        && match request.auto_redeem_resets {
            Some(on) => auto_redeem_present == on,
            None => true,
        }
        && match request.model_capacity_retry_mode {
            Some(m) => effective.capacity == m,
            None => true,
        }
        && effective.user_message_inbox == request.user_message_inbox
        && effective.tool_activity == request.tool_activity
}

/// What is kept of a request when its effect cannot be confirmed: only
/// opt-outs, turning the weekly start or automatic redemption off, are
/// applied locally; nothing is turned on.
#[derive(Clone, Copy, Debug, PartialEq, Eq, Structural)]
pub struct UnconfirmedOptOuts {
    pub disable_weekly: bool,
    pub clear_auto_redeem: bool,
}

impl UnconfirmedOptOuts {
    /// Settings must be synchronised again after the opt-outs.
    pub open spec fn any(self) -> bool {
        self.disable_weekly || self.clear_auto_redeem
    }
}

/// The opt-outs of a request: turning the weekly start off, and turning
/// automatic redemption off.
pub open spec fn spec_unconfirmed_opt_outs(request: SettingsRequest) -> UnconfirmedOptOuts {
    UnconfirmedOptOuts {
        disable_weekly: request.weekly_usage_window_auto_start == Some(WeeklyUsageWindowAutoStart::Disabled),
        clear_auto_redeem: request.auto_redeem_resets == Some(false),
    }
}

/// The opt-outs of a request that apply though the save is unconfirmed.
pub fn unconfirmed_opt_outs(request: &SettingsRequest) -> (res: UnconfirmedOptOuts)
    ensures
        res.disable_weekly == (request.weekly_usage_window_auto_start == Some(WeeklyUsageWindowAutoStart::Disabled)),
        res.clear_auto_redeem == (request.auto_redeem_resets == Some(false)),
        res == spec_unconfirmed_opt_outs(*request),
{
    UnconfirmedOptOuts {
        disable_weekly: match request.weekly_usage_window_auto_start {
            Some(WeeklyUsageWindowAutoStart::Disabled) => true,
            _ => false,
        },
        clear_auto_redeem: match request.auto_redeem_resets {
            Some(false) => true,
            _ => false,
        },
    }
}

/// The message of a save that took effect.
pub fn persistence_success_message() -> (res: String)
    ensures
        res@ == "Codex++ settings updated. Changes apply after restart."@,
{
    "Codex++ settings updated. Changes apply after restart.".to_string()
}

/// The message of a save that failed.
pub fn persistence_error_message(err: &str) -> (res: String)
    ensures
        res@ == "Failed to update Codex++ settings: "@ + err@,
{
    let mut out = String::from_str("Failed to update Codex++ settings: ");
    out.append(err);
    out
}

/// The message of a save that other configuration layers overrode.
pub fn persistence_overridden_message() -> (res: String)
    ensures
        res@ == "Some Codex++ settings are controlled elsewhere and were not changed."@,
{
    "Some Codex++ settings are controlled elsewhere and were not changed.".to_string()
}

/// The message of a save that could not be checked.
pub fn persistence_verification_failed_message(err: &str) -> (res: String)
    ensures
        res@ == "Codex++ settings were saved, but Codex could not verify them for this project: "@ + err@,
{
    let mut out = String::from_str("Codex++ settings were saved, but Codex could not verify them for this project: ");
    out.append(err);
    out
}

/// The report when the configuration could not be read back: a failed
/// write and the read error together, else a verification failure.
pub fn readback_failure_cell(write_error: Option<&str>, read_error: &str) -> (res: HistoryCell)
    ensures
        res matches HistoryCell::Error { message } && message@ == match write_error {
            Some(w) => "Failed to update Codex++ settings: "@ + (w@ + "; unable to reconcile effective settings: "@ + read_error@),
            None => "Codex++ settings were saved, but Codex could not verify them for this project: "@ + read_error@,
        },
{
    match write_error {
        Some(w) => {
            let mut detail = w.to_string();
            detail.append("; unable to reconcile effective settings: ");
            detail.append(read_error);
            HistoryCell::Error { message: persistence_error_message(detail.as_str()) }
        },
        None => HistoryCell::Error { message: persistence_verification_failed_message(read_error) },
    }
}

/// The report once the configuration was read back and reloaded: the
/// success message when the request was honored, else the override notice.
pub fn readback_cell(honored: bool) -> (res: HistoryCell)
    ensures
        honored ==> res == (HistoryCell::Info { message: res->Info_message, hint: None })
            && res.message() == "Codex++ settings updated. Changes apply after restart."@,
        !honored ==> res is Error
            && res.message() == "Some Codex++ settings are controlled elsewhere and were not changed."@,
{
    if honored {
        HistoryCell::Info { message: persistence_success_message(), hint: None }
    } else {
        HistoryCell::Error { message: persistence_overridden_message() }
    }
}

/// A save that is read back as written is honored: when the configuration
/// holds the texts the save wrote for each setting it names (and, for the
/// others, whatever their keys hold), and automatic redemption is present
/// exactly when the save turned it on, the settings read back are the
/// requested ones and the save counts as persisted.
pub proof fn lemma_written_settings_read_back(
    request: SettingsRequest,
    weekly_before: Option<Seq<char>>,
    capacity_before: Option<Seq<char>>,
    auto_redeem_present: bool,
)
    requires
        request.auto_redeem_resets matches Some(on) ==> auto_redeem_present == on,
    ensures
        ({
            let effective = spec_effective_settings(
                Some(automatic_text(request.automatic_account_selection)),
                match request.weekly_usage_window_auto_start { Some(w) => Some(weekly_text(w)), None => weekly_before },
                match request.model_capacity_retry_mode { Some(m) => Some(capacity_text(m)), None => capacity_before },
                Some(inbox_text(request.user_message_inbox)),
                Some(tool_activity_text(request.tool_activity)),
            );
            &&& effective.automatic == request.automatic_account_selection
            &&& effective.user_message_inbox == request.user_message_inbox
            &&& effective.tool_activity == request.tool_activity
            &&& (request.weekly_usage_window_auto_start matches Some(w) ==> effective.weekly == w)
            &&& (request.model_capacity_retry_mode matches Some(m) ==> effective.capacity == m)
            &&& spec_request_honored(request, effective, auto_redeem_present)
        }),
{
    reveal_strlit("enabled");
    reveal_strlit("disabled");
    reveal_strlit("bounded");
    reveal_strlit("indefinite");
    reveal_strlit("full");
    reveal_strlit("compact");
    assert("enabled"@.len() != "disabled"@.len());
    assert("bounded"@.len() != "indefinite"@.len());
    assert("full"@.len() != "compact"@.len());
    assert("enabled"@ != "disabled"@);
    assert("bounded"@ != "indefinite"@);
    assert("full"@ != "compact"@);
}

/// Saving the settings view without touching a toggle asks for the
/// settings in effect: the request built from the initial toggles names
/// each setting as it was.
pub proof fn lemma_untouched_view_requests_current_settings(
    automatic: AutomaticAccountSelection,
    weekly: WeeklyUsageWindowAutoStart,
    auto_redeem: bool,
    capacity: ModelCapacityRetryMode,
    user_message_inbox: UserMessageInbox,
    tool_activity: ToolActivityPresentation,
    save_weekly: bool,
)
    ensures
        ({
            let request = SettingsToggles::spec_initial(automatic, weekly, auto_redeem, capacity,
                user_message_inbox == UserMessageInbox::Enabled, tool_activity).spec_request(save_weekly);
            &&& request.automatic_account_selection == automatic
            &&& request.model_capacity_retry_mode == Some(capacity)
            &&& request.user_message_inbox == user_message_inbox
            &&& request.tool_activity == tool_activity
            &&& request.weekly_usage_window_auto_start == if save_weekly { Some(weekly) } else { None }
            &&& request.auto_redeem_resets == if save_weekly { Some(auto_redeem) } else { None }
        }),
{
}

} // verus!

verus! {

/// The accept keys of the settings view: space toggles instead, and
/// enter accepts when no other key is left.
pub open spec fn spec_settings_accept_keys(accept: Seq<String>) -> Seq<Seq<char>> {
    let kept = accept.map_values(|k: String| k@).filter(|k: Seq<char>| k != "space"@);
    if kept.len() == 0 { seq!["enter"@] } else { kept }
}

/// The accept keys of the settings view, by name.
pub fn settings_list_accept_keys(accept: &Vec<String>) -> (res: Vec<String>)
    ensures
        res@.map_values(|k: String| k@) == spec_settings_accept_keys(accept@),
{
    let ghost names = accept@.map_values(|k: String| k@);
    let mut out: Vec<String> = Vec::new();
    let mut i: usize = 0;
    while i < accept.len()
        invariant
            i <= accept@.len(),
            names == accept@.map_values(|k: String| k@),
            out@.map_values(|k: String| k@) == names.take(i as int).filter(|k: Seq<char>| k != "space"@),
        decreases accept@.len() - i,
    {
        proof {
            assert(names.take(i + 1).drop_last() =~= names.take(i as int));
            reveal(Seq::filter);
        }
        if !str_eq(accept[i].as_str(), "space") {
            out.push(accept[i].clone());
            proof {
                assert(out@.map_values(|k: String| k@) =~= names.take(i as int).filter(|k: Seq<char>| k != "space"@).push(accept@[i as int]@));
            }
        }
        i = i + 1;
    }
    assert(names.take(accept@.len() as int) =~= names);
    if out.len() == 0 {
        out.push("enter".to_string());
        assert(out@.map_values(|k: String| k@) =~= seq!["enter"@]);
    }
    out
}

/// The hint under the settings view: space toggles, then the first accept
/// key saves or manages and the first cancel key cancels, when there are.
pub open spec fn spec_settings_hint(accept: Seq<Seq<char>>, cancel: Seq<Seq<char>>) -> Seq<char> {
    "Press space to toggle"@
        + (if accept.len() > 0 { "; "@ + accept[0] + " to save or manage"@ } else { Seq::empty() })
        + (if cancel.len() > 0 { "; "@ + cancel[0] + " to cancel"@ } else { Seq::empty() })
}

/// The keys of a selection list, by name: those that accept the selected
/// row and those that cancel the view, the first of each being the one a
/// hint names.
#[derive(Clone, Debug)]
pub struct ListKeymap {
    pub accept: Vec<String>,
    pub cancel: Vec<String>,
}

impl ListKeymap {
    pub open spec fn accept_names(self) -> Seq<Seq<char>> {
        self.accept@.map_values(|k: String| k@)
    }

    pub open spec fn cancel_names(self) -> Seq<Seq<char>> {
        self.cancel@.map_values(|k: String| k@)
    }

    /// The settings hint for these keys.
    pub open spec fn spec_hint(self) -> Seq<char> {
        spec_settings_hint(self.accept_names(), self.cancel_names())
    }

    /// The hint of the settings keymap made from these keys.
    pub open spec fn spec_settings_hint(self) -> Seq<char> {
        spec_settings_hint(spec_settings_accept_keys(self.accept@), self.cancel_names())
    }
}

/// The names of `keys`, in order.
fn copied_names(keys: &Vec<String>) -> (res: Vec<String>)
    ensures
        res@.map_values(|k: String| k@) == keys@.map_values(|k: String| k@),
{
    let mut out: Vec<String> = Vec::new();
    let mut i: usize = 0;
    while i < keys.len()
        invariant
            i <= keys@.len(),
            out@.map_values(|k: String| k@) == keys@.map_values(|k: String| k@).take(i as int),
        decreases keys@.len() - i,
    {
        let ghost before = out@;
        out.push(keys[i].clone());
        proof {
            assert(out@ == before.push(keys@[i as int]));
            assert(out@.map_values(|k: String| k@) =~= before.map_values(|k: String| k@).push(keys@[i as int]@));
            assert(keys@.map_values(|k: String| k@).take(i + 1)
                =~= keys@.map_values(|k: String| k@).take(i as int).push(keys@[i as int]@));
        }
        i = i + 1;
    }
    assert(keys@.map_values(|k: String| k@).take(keys@.len() as int) =~= keys@.map_values(|k: String| k@));
    out
}

/// The keymap of the settings views: space toggles a row, so it does not
/// accept one; enter accepts when no other key is left.
pub fn settings_list_keymap(keys: &ListKeymap) -> (res: ListKeymap)
    ensures
        res.accept_names() == spec_settings_accept_keys(keys.accept@),
        res.cancel_names() == keys.cancel_names(),
        res.spec_hint() == keys.spec_settings_hint(),
{
    ListKeymap { accept: settings_list_accept_keys(&keys.accept), cancel: copied_names(&keys.cancel) }
}

/// The hint under the settings view.
pub fn settings_hint_line(accept: &Vec<String>, cancel: &Vec<String>) -> (res: String)
    ensures
        res@ == spec_settings_hint(accept@.map_values(|k: String| k@), cancel@.map_values(|k: String| k@)),
{
    let mut out = String::from_str("Press space to toggle");
    if accept.len() > 0 {
        out.append("; ");
        out.append(accept[0].as_str());
        out.append(" to save or manage");
    }
    if cancel.len() > 0 {
        out.append("; ");
        out.append(cancel[0].as_str());
        out.append(" to cancel");
    }
    out
}

} // verus!

verus! {

/// Where saving the Codex++ settings stands.
#[derive(Clone, Debug, PartialEq, Eq)]
pub enum SaveStage {
    /// The configuration edits are being written.
    Writing { request: SettingsRequest },
    /// The configuration in effect is being read back; `write_error` when
    /// the writes failed.
    ReadingBack { request: SettingsRequest, write_error: Option<String> },
    /// The settings read back were taken as those in effect; the
    /// configuration is being reloaded from disk.
    Reloading { request: SettingsRequest, effective: EffectiveSettings },
    Done,
}

/// What the previous step of a save reported.
#[derive(Debug)]
pub enum SaveEvent {
    Written(Result<(), String>),
    /// The settings in effect, read from the configuration of the project.
    ReadBack(Result<EffectiveSettings, String>),
    /// The reloaded configuration: whether it holds automatic-redemption
    /// settings.
    Reloaded(Result<bool, String>),
}

/// How a save ends for the user.
#[derive(Clone, Debug, PartialEq, Eq)]
pub enum SaveReport {
    /// The settings in effect are the ones asked for.
    Persisted(EffectiveSettings),
    /// Other configuration layers decide some of the settings asked for.
    Overridden(EffectiveSettings),
    /// The save failed; the reason.
    PersistenceFailed(String),
    /// The save could not be checked; the reason.
    VerificationFailed(String),
}

/// The next step of a save.
#[derive(Clone, Debug, PartialEq, Eq)]
pub enum SaveAction {
    /// Write these edits in one batch, without reloading.
    Write(Vec<ConfigWrite>),
    /// Read the configuration in effect for the working directory.
    ReadBack,
    /// Take these settings as the ones in effect, synchronise the widget,
    /// and reload the configuration from disk.
    ApplyAndReload(EffectiveSettings),
    /// Apply the opt-outs to the settings in memory, synchronise the widget
    /// and the weekly scheduler when `synchronize`, and show the report.
    Finish { opt_outs: UnconfirmedOptOuts, synchronize: bool, report: SaveReport },
}

/// No opt-outs.
pub open spec fn no_opt_outs() -> UnconfirmedOptOuts {
    UnconfirmedOptOuts { disable_weekly: false, clear_auto_redeem: false }
}

/// The end of a save that could not be confirmed: only its opt-outs apply,
/// and the settings are synchronised when one does.
pub open spec fn unconfirmed_finish(request: SettingsRequest, action: SaveAction) -> bool {
    action matches SaveAction::Finish { opt_outs, synchronize, .. }
        && opt_outs == spec_unconfirmed_opt_outs(request) && synchronize == opt_outs.any()
}

/// The event answers what the stage waits for.
pub open spec fn save_event_fits(stage: SaveStage, event: SaveEvent) -> bool {
    match stage {
        SaveStage::Writing { .. } => event is Written,
        SaveStage::ReadingBack { .. } => event is ReadBack,
        SaveStage::Reloading { .. } => event is Reloaded,
        SaveStage::Done => false,
    }
}

/// One step of a save, from `stage` on `event` to `next` with `action`.
/// After the writes, whether they failed or not, the configuration is read
/// back. When it cannot be read, only the opt-outs of the request apply and
/// the report is the failure (with the read error after a write error) or,
/// after a successful write, that the save could not be checked. The
/// settings read back are taken and the configuration reloaded; when that
/// fails, only the opt-outs apply and the save could not be checked.
/// Otherwise everything is synchronised and the save is reported as
/// persisted when the settings in effect honour the request, else as
/// overridden, whatever the writes reported.
pub open spec fn save_transition(stage: SaveStage, event: SaveEvent, next: SaveStage, action: SaveAction) -> bool {
    match (stage, event) {
        (SaveStage::Writing { request }, SaveEvent::Written(r)) =>
            next == (SaveStage::ReadingBack { request, write_error: match r { Ok(()) => None, Err(e) => Some(e) } })
                && action == SaveAction::ReadBack,
        (SaveStage::ReadingBack { request, write_error }, SaveEvent::ReadBack(Err(e))) => {
            &&& next == SaveStage::Done
            &&& unconfirmed_finish(request, action)
            &&& match write_error {
                Some(w) => action->report matches SaveReport::PersistenceFailed(d)
                    && d@ == w@ + "; unable to reconcile effective settings: "@ + e@,
                None => action->report == SaveReport::VerificationFailed(e),
            }
        },
        (SaveStage::ReadingBack { request, .. }, SaveEvent::ReadBack(Ok(effective))) =>
            next == (SaveStage::Reloading { request, effective }) && action == SaveAction::ApplyAndReload(effective),
        (SaveStage::Reloading { request, .. }, SaveEvent::Reloaded(Err(e))) =>
            next == SaveStage::Done && unconfirmed_finish(request, action)
                && action->report == SaveReport::VerificationFailed(e),
        (SaveStage::Reloading { request, effective }, SaveEvent::Reloaded(Ok(present))) =>
            next == SaveStage::Done && action == (SaveAction::Finish {
                opt_outs: no_opt_outs(),
                synchronize: true,
                report: if spec_request_honored(request, effective, present) {
                    SaveReport::Persisted(effective)
                } else {
                    SaveReport::Overridden(effective)
                },
            }),
        _ => false,
    }
}

/// A save is reported as persisted only when the settings read back are
/// the ones asked for: automatic selection, the inbox and tool activity
/// always, the weekly start and capacity retries when the request names
/// them, and automatic redemption present exactly as asked. When a
/// setting read back differs from the one asked for, the save is reported
/// as overridden instead, with the settings read back.
pub proof fn lemma_persisted_means_every_setting_took_effect(
    stage: SaveStage,
    event: SaveEvent,
    next: SaveStage,
    action: SaveAction,
)
    requires
        save_transition(stage, event, next, action),
    ensures
        action matches SaveAction::Finish { report: SaveReport::Persisted(e), .. } ==> {
            &&& stage matches SaveStage::Reloading { request, effective }
            &&& e == effective
            &&& event matches SaveEvent::Reloaded(Ok(present))
            &&& e.automatic == request.automatic_account_selection
            &&& e.user_message_inbox == request.user_message_inbox
            &&& e.tool_activity == request.tool_activity
            &&& (request.weekly_usage_window_auto_start matches Some(w) ==> e.weekly == w)
            &&& (request.model_capacity_retry_mode matches Some(m) ==> e.capacity == m)
            &&& (request.auto_redeem_resets matches Some(on) ==> present == on)
        },
        (stage matches SaveStage::Reloading { request, effective }
            && event matches SaveEvent::Reloaded(Ok(_))
            && effective.automatic != request.automatic_account_selection)
            ==> (action matches SaveAction::Finish { report: SaveReport::Overridden(e), .. } && e == stage->effective),
{
}

/// A save begins by writing the edits of the request; `configured` is the
/// user's current automatic-redemption settings.
pub fn save_start(request: SettingsRequest, configured: Option<AutoRedeemResets>) -> (res: (SaveStage, SaveAction))
    ensures
        res.0 == (SaveStage::Writing { request }),
        res.1 matches SaveAction::Write(writes) && spec_settings_writes(request, configured, writes@),
{
    (SaveStage::Writing { request }, SaveAction::Write(settings_writes(request, configured)))
}

/// Takes one step of a save; see `save_transition`.
pub fn save_step(stage: SaveStage, event: SaveEvent) -> (res: (SaveStage, SaveAction))
    requires
        save_event_fits(stage, event),
    ensures
        save_transition(stage, event, res.0, res.1),
{
    match (stage, event) {
        (SaveStage::Writing { request }, SaveEvent::Written(r)) => {
            let write_error = match r {
                Ok(()) => None,
                Err(e) => Some(e),
            };
            (SaveStage::ReadingBack { request, write_error }, SaveAction::ReadBack)
        },
        (SaveStage::ReadingBack { request, write_error }, SaveEvent::ReadBack(Err(e))) => {
            let opt_outs = unconfirmed_opt_outs(&request);
            let report = match write_error {
                Some(w) => {
                    let mut detail = w;
                    detail.append("; unable to reconcile effective settings: ");
                    detail.append(e.as_str());
                    SaveReport::PersistenceFailed(detail)
                },
                None => SaveReport::VerificationFailed(e),
            };
            (SaveStage::Done, SaveAction::Finish { opt_outs, synchronize: opt_outs.disable_weekly || opt_outs.clear_auto_redeem, report })
        },
        (SaveStage::ReadingBack { request, .. }, SaveEvent::ReadBack(Ok(effective))) =>
            (SaveStage::Reloading { request, effective }, SaveAction::ApplyAndReload(effective)),
        (SaveStage::Reloading { request, .. }, SaveEvent::Reloaded(Err(e))) => {
            let opt_outs = unconfirmed_opt_outs(&request);
            (
                SaveStage::Done,
                SaveAction::Finish {
                    opt_outs,
                    synchronize: opt_outs.disable_weekly || opt_outs.clear_auto_redeem,
                    report: SaveReport::VerificationFailed(e),
                },
            )
        },
        (SaveStage::Reloading { request, effective }, SaveEvent::Reloaded(Ok(present))) => {
            let report = if request_honored(&request, &effective, present) {
                SaveReport::Persisted(effective)
            } else {
                SaveReport::Overridden(effective)
            };
            (
                SaveStage::Done,
                SaveAction::Finish {
                    opt_outs: UnconfirmedOptOuts { disable_weekly: false, clear_auto_redeem: false },
                    synchronize: true,
                    report,
                },
            )
        },
        (SaveStage::Done, _) => (SaveStage::Done, SaveAction::ReadBack),
        (SaveStage::Writing { .. }, _) | (SaveStage::ReadingBack { .. }, _) | (SaveStage::Reloading { .. }, _) =>
            (SaveStage::Done, SaveAction::ReadBack),
    }
}

/// The request a save works on, until it is done.
pub open spec fn save_request(stage: SaveStage) -> Option<SettingsRequest> {
    match stage {
        SaveStage::Writing { request } => Some(request),
        SaveStage::ReadingBack { request, .. } => Some(request),
        SaveStage::Reloading { request, .. } => Some(request),
        SaveStage::Done => None,
    }
}

/// A save is reported as persisted only when the configuration reloaded
/// after it honours the request, and it turns nothing on unless confirmed:
/// a save that ends otherwise applies only the request's opt-outs.
pub proof fn lemma_save_reports_what_took_effect(stage: SaveStage, event: SaveEvent, next: SaveStage, action: SaveAction)
    requires
        save_event_fits(stage, event),
        save_transition(stage, event, next, action),
    ensures
        action matches SaveAction::Finish { report: SaveReport::Persisted(e), .. } ==> (stage matches SaveStage::Reloading { request, effective }
            && event matches SaveEvent::Reloaded(Ok(present)) && e == effective && spec_request_honored(request, effective, present)),
        action is Finish && (action->report is PersistenceFailed || action->report is VerificationFailed)
            ==> (stage is ReadingBack || stage is Reloading)
                && (save_request(stage) matches Some(request) && action->opt_outs == spec_unconfirmed_opt_outs(request)),
{
}

} // verus!

verus! {

/// An event that activating a row sends to the app.
#[derive(Clone, Copy, Debug, PartialEq, Eq, Structural)]
pub enum RowEvent {
    /// Save the Codex++ settings.
    PersistCodexPlusPlusSettings(SettingsRequest),
    /// Ask whether to install the Destructive Command Guard.
    OpenDcgInstallConfirmation,
    /// Carry out a Destructive Command Guard action.
    ManageDcg(DcgAction),
    /// Save automatic account selection.
    PersistAutomaticAccountSelection(AutomaticAccountSelection),
    /// Save the account automation toggles that changed.
    SaveAccountAutomation,
}

/// What a row's action sends, in order, with the settings view's toggles as
/// they stand: a settings save carries the request built from the toggles
/// (the weekly settings only when the row saves them), then, for a guard
/// row, the install confirmation when installing, else the guard action.
pub open spec fn spec_row_events(action: ItemAction, toggles: SettingsToggles) -> Seq<RowEvent> {
    match action {
        ItemAction::SaveSettings { save_weekly, then } => seq![RowEvent::PersistCodexPlusPlusSettings(toggles.spec_request(save_weekly))]
            + match then {
                None => Seq::empty(),
                Some(DcgAction::InstallAndEnable) => seq![RowEvent::OpenDcgInstallConfirmation],
                Some(a) => seq![RowEvent::ManageDcg(a)],
            },
        ItemAction::ManageDcg(a) => seq![RowEvent::ManageDcg(a)],
        ItemAction::PersistAutomaticAccountSelection(s) => seq![RowEvent::PersistAutomaticAccountSelection(s)],
        ItemAction::SaveAccountAutomation => seq![RowEvent::SaveAccountAutomation],
    }
}

/// The events a row's action sends, in order; see `spec_row_events`.
pub fn row_events(action: ItemAction, toggles: &SettingsToggles) -> (res: Vec<RowEvent>)
    ensures
        res@ == spec_row_events(action, *toggles),
{
    let mut events: Vec<RowEvent> = Vec::new();
    match action {
        ItemAction::SaveSettings { save_weekly, then } => {
            events.push(RowEvent::PersistCodexPlusPlusSettings(toggles.request(save_weekly)));
            match then {
                None => {},
                Some(DcgAction::InstallAndEnable) => events.push(RowEvent::OpenDcgInstallConfirmation),
                Some(a) => events.push(RowEvent::ManageDcg(a)),
            }
        },
        ItemAction::ManageDcg(a) => events.push(RowEvent::ManageDcg(a)),
        ItemAction::PersistAutomaticAccountSelection(s) => events.push(RowEvent::PersistAutomaticAccountSelection(s)),
        ItemAction::SaveAccountAutomation => events.push(RowEvent::SaveAccountAutomation),
    }
    proof {
        assert(events@ =~= spec_row_events(action, *toggles));
    }
    events
}

} // verus!
