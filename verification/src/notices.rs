//! What Codex++ tells the user beside the conversation: onboarding tips,
//! the release-lag warning, capacity retries and stale account identity.

use vstd::prelude::*;
use crate::history::HistoryCell;
use crate::text::decimal;
use crate::text::decimal_string;
use crate::text::has_infix;
use crate::text::has_prefix;
use crate::text::contains;
use crate::text::starts_with;
use crate::text::strip_prefix;
use crate::wrapping::line_texts;
use crate::wrapping::wrap_text;
use crate::wrapping::wrapped_lines;

verus! {

/// The tip that greets a new Codex++ user; `**` marks bold text.
pub open spec fn welcome_tip() -> Seq<char> {
    "Welcome to **Codex++**. Use **/codexplusplus** for settings and **/accounts** to enable or disable accounts."@
}

/// The tip that suggests the Destructive Command Guard.
pub open spec fn dcg_nux_tip() -> Seq<char> {
    "Tip: Enable Destructive Command Guard in /codexplusplus to send risky commands to Guardian for review even in full --yolo mode."@
}

/// The tip that announces a guard update.
pub open spec fn dcg_update_tip() -> Seq<char> {
    "Tip: A Destructive Command Guard update is available in /codexplusplus."@
}

/// The welcome tip.
pub fn welcome_tip_text() -> (res: &'static str)
    ensures
        res@ == welcome_tip(),
{
    "Welcome to **Codex++**. Use **/codexplusplus** for settings and **/accounts** to enable or disable accounts."
}

/// The guard update tip.
pub fn dcg_update_tip_text() -> (res: &'static str)
    ensures
        res@ == dcg_update_tip(),
{
    "Tip: A Destructive Command Guard update is available in /codexplusplus."
}

/// Upstream's tip promoting its desktop app gives way to the welcome tip;
/// other tips stay.
pub fn replace_upstream_app_promo(tip: &str) -> (res: String)
    ensures
        has_infix(tip@, "codex app"@) ==> res@ == welcome_tip(),
        !has_infix(tip@, "codex app"@) ==> res@ == tip@,
{
    if contains(tip, "codex app") {
        welcome_tip_text().to_string()
    } else {
        tip.to_string()
    }
}

/// `s` with every `**` removed, scanning from the left as `str::replace` does.
pub open spec fn without_bold_markers(s: Seq<char>) -> Seq<char>
    decreases s.len(),
{
    if s.len() == 0 {
        s
    } else if s.len() >= 2 && s[0] == '*' && s[1] == '*' {
        without_bold_markers(s.subrange(2, s.len() as int))
    } else {
        seq![s[0]] + without_bold_markers(s.drop_first())
    }
}

proof fn lemma_markers_step(s: Seq<char>, i: int, j: int)
    requires
        0 <= i <= j <= s.len(),
        j == i + 1 || (j == i + 2 && s[i] == '*' && s[i + 1] == '*'),
        j == i + 1 ==> !(i + 1 < s.len() && s[i] == '*' && s[i + 1] == '*'),
    ensures
        without_bold_markers(s.subrange(i, s.len() as int)) == if j == i + 2 {
            without_bold_markers(s.subrange(j, s.len() as int))
        } else {
            seq![s[i]] + without_bold_markers(s.subrange(j, s.len() as int))
        },
{
    let t = s.subrange(i, s.len() as int);
    if j == i + 2 {
        assert(t.subrange(2, t.len() as int) =~= s.subrange(j, s.len() as int));
    } else {
        assert(t.drop_first() =~= s.subrange(j, s.len() as int));
    }
}

/// `s` with every `**` removed.
pub fn remove_bold_markers(s: &str) -> (res: String)
    ensures
        res@ == without_bold_markers(s@),
{
    let n = s.unicode_len();
    let mut out = String::new();
    let mut i: usize = 0;
    assert(s@.subrange(0, n as int) =~= s@);
    assert(out@ + without_bold_markers(s@) =~= without_bold_markers(s@));
    while i < n
        invariant
            n == s@.len(),
            i <= n,
            out@ + without_bold_markers(s@.subrange(i as int, n as int)) == without_bold_markers(s@),
        decreases n - i,
    {
        if i + 1 < n && s.get_char(i) == '*' && s.get_char(i + 1) == '*' {
            proof { lemma_markers_step(s@, i as int, i + 2); }
            i = i + 2;
        } else {
            let c = s.get_char(i);
            proof {
                lemma_markers_step(s@, i as int, i + 1);
                assert(out@ + seq![c] + without_bold_markers(s@.subrange(i + 1, n as int))
                    =~= out@ + (seq![c] + without_bold_markers(s@.subrange(i + 1, n as int))));
            }
            out.append(s.substring_char(i, i + 1));
            assert(s@.subrange(i as int, i + 1) =~= seq![c]);
            i = i + 1;
        }
    }
    assert(s@.subrange(n as int, n as int) =~= Seq::<char>::empty());
    assert(out@ + Seq::<char>::empty() =~= out@);
    out
}

/// The lines of a tip: wrapped at 78 columns with every line indented by
/// two spaces.
pub open spec fn tip_lines(text: Seq<char>) -> Seq<Seq<char>> {
    wrapped_lines(text, 78, "  "@, "  "@)
}

/// A tip wrapped as `tip_lines` says.
pub fn wrapped_tip(text: &str) -> (res: Vec<String>)
    ensures
        line_texts(res@) == tip_lines(text@),
{
    wrap_text(text, 78, "  ", "  ")
}

/// The welcome help: the welcome tip without its bold markers, wrapped.
pub fn welcome_help_lines() -> (res: Vec<String>)
    ensures
        line_texts(res@) == tip_lines(without_bold_markers(welcome_tip())),
{
    let plain = remove_bold_markers(welcome_tip_text());
    wrapped_tip(plain.as_str())
}

/// The onboarding flags of a session: whether the guard tip is due,
/// whether its rendering must still be noted, and whether a guard update
/// is available.
pub struct WelcomeState {
    dcg_nux_pending: bool,
    dcg_nux_render_pending: bool,
    dcg_update_available: bool,
}

impl WelcomeState {
    /// The guard tip is due.
    pub closed spec fn spec_nux_pending(self) -> bool {
        self.dcg_nux_pending
    }

    /// The guard tip was handed out and its rendering not yet noted.
    pub closed spec fn spec_render_pending(self) -> bool {
        self.dcg_nux_render_pending
    }

    /// A guard update is available.
    pub closed spec fn spec_update_available(self) -> bool {
        self.dcg_update_available
    }

    /// Nothing pending, no update known.
    pub fn new() -> (res: WelcomeState)
        ensures
            !res.spec_nux_pending(),
            !res.spec_render_pending(),
            !res.spec_update_available(),
    {
        WelcomeState { dcg_nux_pending: false, dcg_nux_render_pending: false, dcg_update_available: false }
    }

    /// The guard tip becomes due.
    pub fn mark_dcg_nux_pending(&mut self)
        ensures
            final(self).spec_nux_pending(),
            final(self).spec_render_pending() == old(self).spec_render_pending(),
            final(self).spec_update_available() == old(self).spec_update_available(),
    {
        self.dcg_nux_pending = true;
    }

    /// Records whether a guard update is available.
    pub fn set_dcg_update_available(&mut self, available: bool)
        ensures
            final(self).spec_update_available() == available,
            final(self).spec_nux_pending() == old(self).spec_nux_pending(),
            final(self).spec_render_pending() == old(self).spec_render_pending(),
    {
        self.dcg_update_available = available;
    }

    /// Whether a guard update is available.
    pub fn dcg_update_available(&self) -> (res: bool)
        ensures
            res == self.spec_update_available(),
    {
        self.dcg_update_available
    }

    /// Hands out the guard tip once: when it is due, its wrapped lines,
    /// and its rendering is then to be noted.
    pub fn take_dcg_nux_help_lines(&mut self) -> (res: Option<Vec<String>>)
        ensures
            !final(self).spec_nux_pending(),
            old(self).spec_nux_pending() ==> (res matches Some(lines)
                && line_texts(lines@) == tip_lines(dcg_nux_tip())) && final(self).spec_render_pending(),
            !old(self).spec_nux_pending() ==> res.is_none()
                && final(self).spec_render_pending() == old(self).spec_render_pending(),
            final(self).spec_update_available() == old(self).spec_update_available(),
    {
        let was_pending = self.dcg_nux_pending;
        self.dcg_nux_pending = false;
        if was_pending {
            self.dcg_nux_render_pending = true;
            Some(wrapped_tip("Tip: Enable Destructive Command Guard in /codexplusplus to send risky commands to Guardian for review even in full --yolo mode."))
        } else {
            None
        }
    }

    /// Whether the guard tip's rendering is to be noted; noting it once.
    pub fn take_dcg_nux_render_pending(&mut self) -> (res: bool)
        ensures
            res == old(self).spec_render_pending(),
            !final(self).spec_render_pending(),
            final(self).spec_nux_pending() == old(self).spec_nux_pending(),
            final(self).spec_update_available() == old(self).spec_update_available(),
    {
        let was = self.dcg_nux_render_pending;
        self.dcg_nux_render_pending = false;
        was
    }
}

/// The warning that the installed release lags upstream, with the
/// directory where the accounts stay.
pub open spec fn lag_warning_text(lag: u64, accounts_dir: Seq<char>) -> Seq<char> {
    "Codex++ is "@ + decimal(lag as nat)
        + " releases behind Codex. Run `codex update upstream` to switch to upstream Codex. Your accounts stay saved in "@
        + accounts_dir + " and will be ready if you switch back later."@
}

/// The release-lag warning: only when the release status reports a lag
/// and its warning key belongs to the upstream lag.
pub fn lag_warning(stable_minor_lag: Option<u64>, warning_state_key: Option<&str>, accounts_dir: &str) -> (res: Option<HistoryCell>)
    ensures
        match (stable_minor_lag, warning_state_key) {
            (Some(lag), Some(key)) => if has_prefix(key@, "upstream-lag/"@) {
                res matches Some(HistoryCell::Warning { message }) && message@ == lag_warning_text(lag, accounts_dir@)
            } else {
                res.is_none()
            },
            _ => res.is_none(),
        },
{
    let lag = match stable_minor_lag {
        Some(l) => l,
        None => { return None; },
    };
    let key = match warning_state_key {
        Some(k) => k,
        None => { return None; },
    };
    if !starts_with(key, "upstream-lag/") {
        return None;
    }
    let mut message = String::from_str("Codex++ is ");
    let digits = decimal_string(lag);
    message.append(digits.as_str());
    message.append(
        " releases behind Codex. Run `codex update upstream` to switch to upstream Codex. Your accounts stay saved in ",
    );
    message.append(accounts_dir);
    message.append(" and will be ready if you switch back later.");
    Some(HistoryCell::Warning { message })
}

/// The retry details of a capacity warning: the text after the capacity
/// prefix, when it announces the next retry.
pub fn status_details(message: &str) -> (res: Option<&str>)
    ensures
        ({
            let prefix = "The selected model is at capacity. "@;
            if has_prefix(message@, prefix)
                && has_prefix(message@.subrange(prefix.len() as int, message@.len() as int), "Retrying in "@) {
                res matches Some(d) && d@ == message@.subrange(prefix.len() as int, message@.len() as int)
            } else {
                res.is_none()
            }
        }),
{
    match strip_prefix(message, "The selected model is at capacity. ") {
        Some(details) => if starts_with(details, "Retrying in ") { Some(details) } else { None },
        None => None,
    }
}

/// The note shown when the account identity may be out of date.
pub fn may_be_stale_note() -> (res: &'static str)
    ensures
        res@ == "Account identity may be stale after automatic failover."@,
{
    "Account identity may be stale after automatic failover."
}

/// Whether the account shown may no longer be the one in use: a usage
/// limit that the client retries means it switched accounts by itself.
pub struct AccountIdentityFreshness {
    may_be_stale: bool,
}

/// Staleness after observing one live error: a retried usage-limit error
/// makes the identity possibly stale, and it stays so.
pub open spec fn observed_staleness(stale: bool, will_retry: bool, usage_limit_exceeded: bool) -> bool {
    stale || (will_retry && usage_limit_exceeded)
}

/// Staleness after observing `errors` (each: will it be retried, is it a
/// usage-limit error) in order, starting from `start`.
pub open spec fn staleness_after(start: bool, errors: Seq<(bool, bool)>) -> bool
    decreases errors.len(),
{
    if errors.len() == 0 {
        start
    } else {
        observed_staleness(staleness_after(start, errors.drop_last()), errors.last().0, errors.last().1)
    }
}

/// Over any sequence of observed live errors, the identity may be stale
/// exactly when it was at the start or some error was a retried
/// usage-limit error; once stale it stays stale. From a fresh identity that
/// is: stale exactly when such an error was seen.
pub proof fn lemma_staleness_is_sticky_or(start: bool, errors: Seq<(bool, bool)>)
    ensures
        staleness_after(start, errors) == (start || exists|i: int| 0 <= i < errors.len() && (#[trigger] errors[i]).0 && errors[i].1),
        start ==> staleness_after(start, errors),
    decreases errors.len(),
{
    if errors.len() > 0 {
        let rest = errors.drop_last();
        lemma_staleness_is_sticky_or(start, rest);
        assert forall|i: int| 0 <= i < rest.len() implies #[trigger] rest[i] == errors[i] by {}
        if exists|i: int| 0 <= i < errors.len() && (#[trigger] errors[i]).0 && errors[i].1 {
            let i = choose|i: int| 0 <= i < errors.len() && (#[trigger] errors[i]).0 && errors[i].1;
            if i < errors.len() - 1 {
                assert(rest[i] == errors[i]);
            }
        }
    }
}

impl AccountIdentityFreshness {
    /// The identity may be out of date.
    pub closed spec fn spec_may_be_stale(self) -> bool {
        self.may_be_stale
    }

    /// Fresh.
    pub fn new() -> (res: AccountIdentityFreshness)
        ensures
            !res.spec_may_be_stale(),
    {
        AccountIdentityFreshness { may_be_stale: false }
    }

    /// Observes a live error: a retried usage-limit error makes the
    /// identity possibly stale, for the rest of the session.
    pub fn observe_live_error(&mut self, will_retry: bool, usage_limit_exceeded: bool)
        ensures
            final(self).spec_may_be_stale() == observed_staleness(old(self).spec_may_be_stale(), will_retry, usage_limit_exceeded),
    {
        if will_retry && usage_limit_exceeded {
            self.may_be_stale = true;
        }
    }

    /// Whether the identity may be out of date.
    pub fn may_be_stale(&self) -> (res: bool)
        ensures
            res == self.spec_may_be_stale(),
    {
        self.may_be_stale
    }
}

} // verus!
