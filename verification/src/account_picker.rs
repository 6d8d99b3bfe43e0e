//! The startup account picker: its rows, its recommendation and the
//! decisions of its event loop.

use vstd::prelude::*;
use crate::selection::SelectionItem;
use crate::selection::SelectionViewParams;
use crate::text::decimal;
use crate::text::decimal_string;
use crate::text::right_aligned;
use crate::text::right_aligned_decimal;

verus! {

/// Seconds before a timed picker selects its default account by itself.
pub const STARTUP_AUTO_PICK_AFTER_SECS: u64 = 15;

/// One account row offered by the startup picker.
#[derive(Clone, Debug, PartialEq, Eq)]
pub struct AccountPickerCandidate {
    pub id: String,
    pub email: String,
    pub primary_window_label: String,
    pub five_hour_reset: Option<String>,
    pub five_hour_usage_left_percent: Option<u8>,
    pub five_hour_exhausted: bool,
    pub weekly_reset: Option<String>,
    pub weekly_usage_left_percent: Option<u8>,
    pub weekly_exhausted: bool,
    pub blocked_until: Option<String>,
    pub blocked: bool,
    pub in_use: bool,
    pub is_current: bool,
    pub is_default: bool,
}

/// Whether the picker counts down to its default or waits for the user.
#[derive(Clone, Copy, Debug, PartialEq, Eq, Structural)]
pub enum StartupAccountPickerMode {
    Timed,
    Manual,
}

/// How the picker ended with an account.
#[derive(Clone, Debug, PartialEq, Eq)]
pub enum StartupAccountPickerSelection {
    Automatic(String),
    User(String),
}

/// The smaller of the usage percentages that the candidate reports.
pub open spec fn usage_left(c: AccountPickerCandidate) -> Option<u8> {
    match (c.five_hour_usage_left_percent, c.weekly_usage_left_percent) {
        (Some(a), Some(b)) => Some(if a <= b { a } else { b }),
        (Some(a), None) => Some(a),
        (None, Some(b)) => Some(b),
        (None, None) => None,
    }
}

/// The candidate can be used right away.
pub open spec fn has_capacity(c: AccountPickerCandidate) -> bool {
    !c.blocked && !c.five_hour_exhausted && !c.weekly_exhausted
}

/// The recommendation order as one number: the lexicographic key
/// (usable, not in use, usage known, not the current account, usage left)
/// with each flag weighted above everything after it.
pub open spec fn recommendation_score(c: AccountPickerCandidate) -> int {
    (if has_capacity(c) { 2048int } else { 0 })
        + (if !c.in_use { 1024int } else { 0 })
        + (if usage_left(c).is_some() { 512int } else { 0 })
        + (if !c.is_current { 256int } else { 0 })
        + (match usage_left(c) { Some(p) => p as int, None => 0 })
}

/// `r` is the best candidate by score, the first one among equals.
pub open spec fn is_recommended(cands: Seq<AccountPickerCandidate>, r: int) -> bool {
    &&& 0 <= r < cands.len()
    &&& forall|j: int| 0 <= j < cands.len() ==> recommendation_score(cands[j]) <= recommendation_score(cands[r])
    &&& forall|j: int| 0 <= j < r ==> recommendation_score(cands[j]) < recommendation_score(cands[r])
}

/// The index of the first candidate marked as the default, or 0.
pub open spec fn spec_default_index(cands: Seq<AccountPickerCandidate>) -> int {
    if exists|i: int| 0 <= i < cands.len() && #[trigger] cands[i].is_default {
        choose|i: int| 0 <= i < cands.len() && cands[i].is_default && (forall|j: int|
            0 <= j < i ==> !#[trigger] cands[j].is_default)
    } else {
        0
    }
}

fn candidate_usage_left(c: &AccountPickerCandidate) -> (res: Option<u8>)
    ensures
        res == usage_left(*c),
{
    match (c.five_hour_usage_left_percent, c.weekly_usage_left_percent) {
        (Some(a), Some(b)) => Some(if a <= b { a } else { b }),
        (Some(a), None) => Some(a),
        (None, Some(b)) => Some(b),
        (None, None) => None,
    }
}

fn candidate_score(c: &AccountPickerCandidate) -> (res: u32)
    ensures
        res as int == recommendation_score(*c),
{
    let usage = candidate_usage_left(c);
    let mut score: u32 = 0;
    if !c.blocked && !c.five_hour_exhausted && !c.weekly_exhausted {
        score = score + 2048;
    }
    if !c.in_use {
        score = score + 1024;
    }
    if usage.is_some() {
        score = score + 512;
    }
    if !c.is_current {
        score = score + 256;
    }
    match usage {
        Some(p) => score + p as u32,
        None => score,
    }
}

/// The account the picker recommends: usable accounts first, then accounts
/// no other session uses, then accounts with known usage, then accounts
/// other than the current one, then the most usage left; the earliest row
/// wins a tie. 0 when there are no candidates.
pub fn recommended_candidate_index(candidates: &Vec<AccountPickerCandidate>) -> (res: usize)
    ensures
        candidates@.len() == 0 ==> res == 0,
        candidates@.len() > 0 ==> is_recommended(candidates@, res as int),
{
    if candidates.len() == 0 {
        return 0;
    }
    let mut best: usize = 0;
    let mut best_score = candidate_score(&candidates[0]);
    let mut i: usize = 1;
    while i < candidates.len()
        invariant
            1 <= i <= candidates@.len(),
            best < i,
            best_score as int == recommendation_score(candidates@[best as int]),
            forall|j: int| 0 <= j < i ==> recommendation_score(candidates@[j]) <= best_score,
            forall|j: int| 0 <= j < best ==> recommendation_score(candidates@[j]) < best_score,
        decreases candidates@.len() - i,
    {
        let s = candidate_score(&candidates[i]);
        if s > best_score {
            best = i;
            best_score = s;
        }
        i = i + 1;
    }
    best
}

/// The candidates at the given indices, in that order.
pub open spec fn picked(cands: Seq<AccountPickerCandidate>, idx: Seq<usize>) -> Seq<AccountPickerCandidate> {
    idx.map_values(|i: usize| cands[i as int])
}

/// The position in `idx` of the candidate recommended among the indexed
/// ones, by the same order as `recommended_candidate_index`.
pub fn recommended_among(candidates: &Vec<AccountPickerCandidate>, idx: &Vec<usize>) -> (res: usize)
    requires
        idx@.len() > 0,
        forall|k: int| 0 <= k < idx@.len() ==> (#[trigger] idx@[k]) < candidates@.len(),
    ensures
        is_recommended(picked(candidates@, idx@), res as int),
{
    let ghost sub = picked(candidates@, idx@);
    let mut best: usize = 0;
    let mut best_score = candidate_score(&candidates[idx[0]]);
    let mut i: usize = 1;
    while i < idx.len()
        invariant
            1 <= i <= idx@.len(),
            sub == picked(candidates@, idx@),
            forall|k: int| 0 <= k < idx@.len() ==> (#[trigger] idx@[k]) < candidates@.len(),
            best < i,
            best_score as int == recommendation_score(sub[best as int]),
            forall|j: int| 0 <= j < i ==> recommendation_score(sub[j]) <= best_score,
            forall|j: int| 0 <= j < best ==> recommendation_score(sub[j]) < best_score,
        decreases idx@.len() - i,
    {
        let s = candidate_score(&candidates[idx[i]]);
        if s > best_score {
            best = i;
            best_score = s;
        }
        i = i + 1;
    }
    best
}

/// The index of the first candidate marked as the default, or 0 when none is.
pub fn default_candidate_index(candidates: &Vec<AccountPickerCandidate>) -> (res: usize)
    ensures
        res as int == spec_default_index(candidates@),
        (exists|i: int| 0 <= i < candidates@.len() && #[trigger] candidates@[i].is_default) ==> (
        res < candidates@.len() && candidates@[res as int].is_default && forall|j: int|
            0 <= j < res ==> !#[trigger] candidates@[j].is_default),
{
    let mut i: usize = 0;
    while i < candidates.len()
        invariant
            i <= candidates@.len(),
            forall|j: int| 0 <= j < i ==> !#[trigger] candidates@[j].is_default,
        decreases candidates@.len() - i,
    {
        if candidates[i].is_default {
            assert(candidates@[i as int].is_default);
            return i;
        }
        i = i + 1;
    }
    assert(!exists|k: int| 0 <= k < candidates@.len() && #[trigger] candidates@[k].is_default);
    0
}

/// The candidate marked as the default, else the first; `None` only when there are none.
pub fn default_candidate(candidates: &Vec<AccountPickerCandidate>) -> (res: Option<&AccountPickerCandidate>)
    ensures
        candidates@.len() == 0 <==> res.is_none(),
        res matches Some(c) ==> *c == candidates@[spec_default_index(candidates@)],
{
    let idx = default_candidate_index(candidates);
    if candidates.len() == 0 {
        None
    } else {
        Some(&candidates[idx])
    }
}

} // verus!

verus! {

/// `percent` right-aligned in three columns with a `%`, followed by the
/// reset time in parentheses when it is known.
pub open spec fn usage_window_text(percent: u8, reset: Option<Seq<char>>) -> Seq<char> {
    let base = right_aligned(decimal(percent as nat), 3) + "%"@;
    match reset {
        Some(r) => base + " ("@ + r + ")"@,
        None => base,
    }
}

/// The usage part of a row: the short window, the weekly window, or, when
/// neither reports usage, the weekly reset (or `unknown`) with the usage left
/// as `unknown`.
pub open spec fn usage_text(c: AccountPickerCandidate) -> Seq<char> {
    let five = match c.five_hour_usage_left_percent {
        Some(p) => Some(c.primary_window_label@ + " "@ + usage_window_text(
            p,
            match c.five_hour_reset { Some(r) => Some(r@), None => None },
        )),
        None => None,
    };
    let weekly = match c.weekly_usage_left_percent {
        Some(p) => Some("Weekly "@ + usage_window_text(
            p,
            match c.weekly_reset { Some(r) => Some(r@), None => None },
        )),
        None => None,
    };
    match (five, weekly) {
        (Some(a), Some(b)) => a + "    "@ + b,
        (Some(a), None) => a,
        (None, Some(b)) => b,
        (None, None) => "Weekly Reset: "@ + match c.weekly_reset { Some(r) => r@, None => "unknown"@ }
            + "    Usage left: unknown"@,
    }
}

/// The description shown under an account row.
pub open spec fn row_description_text(c: AccountPickerCandidate) -> Seq<char> {
    usage_text(c) + match c.blocked_until {
        Some(r) => "    Unavailable until "@ + r@,
        None => Seq::empty(),
    } + if c.in_use { "    In use"@ } else { Seq::empty() }
}

/// The percentage left in one usage window, with its reset time when known.
pub fn usage_window(percent: u8, reset: Option<&str>) -> (res: String)
    ensures
        res@ == usage_window_text(
            percent,
            match reset { Some(r) => Some(r@), None => None },
        ),
{
    let mut out = right_aligned_decimal(percent as u64, 3);
    out.append("%");
    match reset {
        Some(r) => {
            out.append(" (");
            out.append(r);
            out.append(")");
        },
        None => {},
    }
    out
}

/// The description of a picker row: usage, unavailability and whether
/// another session uses the account.
pub fn row_description(candidate: &AccountPickerCandidate) -> (res: String)
    ensures
        res@ == row_description_text(*candidate),
{
    let five = match candidate.five_hour_usage_left_percent {
        Some(p) => {
            let mut s = candidate.primary_window_label.clone();
            s.append(" ");
            let reset = match &candidate.five_hour_reset {
                Some(r) => Some(r.as_str()),
                None => None,
            };
            let w = usage_window(p, reset);
            s.append(w.as_str());
            Some(s)
        },
        None => None,
    };
    let weekly = match candidate.weekly_usage_left_percent {
        Some(p) => {
            let mut s = String::from_str("Weekly ");
            let reset = match &candidate.weekly_reset {
                Some(r) => Some(r.as_str()),
                None => None,
            };
            let w = usage_window(p, reset);
            s.append(w.as_str());
            Some(s)
        },
        None => None,
    };
    let mut out = match (five, weekly) {
        (Some(a), Some(b)) => {
            let mut a = a;
            a.append("    ");
            a.append(b.as_str());
            a
        },
        (Some(a), None) => a,
        (None, Some(b)) => b,
        (None, None) => {
            let mut s = String::from_str("Weekly Reset: ");
            match &candidate.weekly_reset {
                Some(r) => s.append(r.as_str()),
                None => s.append("unknown"),
            }
            s.append("    Usage left: unknown");
            s
        },
    };
    match &candidate.blocked_until {
        Some(r) => {
            out.append("    Unavailable until ");
            out.append(r.as_str());
        },
        None => {},
    }
    if candidate.in_use {
        out.append("    In use");
    }
    proof {
        assert(out@ =~= row_description_text(*candidate));
    }
    out
}

} // verus!

verus! {

/// The row of the picker for one candidate.
pub fn selection_item(candidate: &AccountPickerCandidate) -> (res: SelectionItem)
    ensures
        res.name@ == candidate.email@,
        res.description matches Some(d) && d@ == row_description_text(*candidate),
        res.is_default == candidate.is_default,
        res.dismiss_on_select,
        !res.is_current,
        !res.is_disabled,
        res.toggle.is_none(),
        res.search_value matches Some(v) && v@ == candidate.email@,
{
    let mut item = SelectionItem::named(candidate.email.clone());
    item.description = Some(row_description(candidate));
    item.is_default = candidate.is_default;
    item.dismiss_on_select = true;
    item.search_value = Some(candidate.email.clone());
    item
}

/// The countdown shown under a timed picker.
pub open spec fn countdown_text(seconds: u64) -> Seq<char> {
    "Auto-selects in "@ + decimal(seconds as nat) + "s"@
}

/// The picker view: one row per candidate, `selected_idx` highlighted (kept
/// within the rows), and the countdown when one runs.
pub fn selection_params(
    candidates: &Vec<AccountPickerCandidate>,
    selected_idx: usize,
    seconds_remaining: Option<u64>,
) -> (res: SelectionViewParams)
    ensures
        res.title matches Some(t) && t@ == "Choose account"@,
        res.subtitle.is_none(),
        match seconds_remaining {
            Some(s) => res.footer_note matches Some(n) && n@ == countdown_text(s),
            None => res.footer_note.is_none(),
        },
        res.items@.len() == candidates@.len(),
        forall|i: int| 0 <= i < candidates@.len() ==> {
            &&& (#[trigger] res.items@[i]).name@ == candidates@[i].email@
            &&& res.items@[i].description matches Some(d) && d@ == row_description_text(candidates@[i])
            &&& res.items@[i].is_default == candidates@[i].is_default
        },
        res.initial_selected_idx == Some(
            if candidates@.len() == 0 { 0 }
            else if selected_idx < candidates@.len() { selected_idx }
            else { (candidates@.len() - 1) as usize },
        ),
        !res.is_searchable,
        res.view_id.is_none(),
        res.allow_cancel,
{
    let mut items: Vec<SelectionItem> = Vec::new();
    let mut i: usize = 0;
    while i < candidates.len()
        invariant
            i <= candidates@.len(),
            items@.len() == i,
            forall|k: int| 0 <= k < i ==> {
                &&& (#[trigger] items@[k]).name@ == candidates@[k].email@
                &&& items@[k].description matches Some(d) && d@ == row_description_text(candidates@[k])
                &&& items@[k].is_default == candidates@[k].is_default
            },
        decreases candidates@.len() - i,
    {
        items.push(selection_item(&candidates[i]));
        i = i + 1;
    }
    let last = if candidates.len() == 0 { 0 } else { candidates.len() - 1 };
    let initial = if selected_idx < last { selected_idx } else { last };
    let mut params = SelectionViewParams::titled(String::from_str("Choose account"), items);
    params.footer_note = match seconds_remaining {
        Some(s) => {
            let mut note = String::from_str("Auto-selects in ");
            let digits = decimal_string(s);
            note.append(digits.as_str());
            note.append("s");
            Some(note)
        },
        None => None,
    };
    params.initial_selected_idx = Some(initial);
    params
}

} // verus!

verus! {

/// What the picker's event source delivered, after the list view has
/// handled any key press.
#[derive(Clone, Debug, PartialEq, Eq)]
pub enum PickerEvent {
    /// A key was released.
    KeyRelease,
    /// Ctrl+C or Ctrl+D was pressed.
    Interrupt,
    /// Another key was pressed. `chosen` is `Some` when the view completed,
    /// holding the row it reported as chosen; `highlighted` is the row it
    /// highlights now.
    Key { chosen: Option<Option<usize>>, highlighted: Option<usize> },
    /// Text was pasted.
    Paste { highlighted: Option<usize> },
    /// The terminal asked for a redraw or was resized.
    Redraw,
    /// The event source ended.
    StreamEnded,
    /// The countdown ran out.
    Deadline,
    /// One second of the countdown passed.
    Tick { remaining_secs: u64, highlighted: Option<usize> },
}

/// What the picker does next.
#[derive(Clone, Debug, PartialEq, Eq)]
pub enum PickerStep {
    /// The picker ends with this outcome (`None`: the user left).
    Finish(Option<StartupAccountPickerSelection>),
    /// Rebuild the view with this row highlighted and this countdown, and draw it.
    Show { selected_idx: usize, seconds_remaining: Option<u64> },
    /// Draw the current view again.
    Draw,
    /// Nothing to do.
    Ignore,
}

/// The state of a running picker.
#[derive(Clone, Copy, Debug, PartialEq, Eq, Structural)]
pub struct PickerState {
    pub auto_pick: bool,
    pub default_idx: usize,
}

/// The automatic selection of the candidate at `idx`.
pub open spec fn automatic_choice(cands: Seq<AccountPickerCandidate>, idx: int) -> StartupAccountPickerSelection {
    StartupAccountPickerSelection::Automatic(cands[idx].id)
}

/// How a picker starts: either it finishes at once (a timed picker with at
/// most one account takes the default), or it shows its first view.
pub fn picker_start(candidates: &Vec<AccountPickerCandidate>, mode: StartupAccountPickerMode) -> (res: (PickerStep, PickerState))
    ensures
        candidates@.len() <= 1 && mode == StartupAccountPickerMode::Timed ==> res.0 == PickerStep::Finish(
            if candidates@.len() == 0 { None } else { Some(automatic_choice(candidates@, spec_default_index(candidates@))) },
        ),
        !(candidates@.len() <= 1 && mode == StartupAccountPickerMode::Timed) ==> {
            &&& res.1.default_idx as int == spec_default_index(candidates@)
            &&& res.1.auto_pick == (mode == StartupAccountPickerMode::Timed)
            &&& res.0 == PickerStep::Show {
                selected_idx: res.1.default_idx,
                seconds_remaining: if mode == StartupAccountPickerMode::Timed { Some(STARTUP_AUTO_PICK_AFTER_SECS) } else { None },
            }
        },
{
    let default_idx = default_candidate_index(candidates);
    let timed = match mode {
        StartupAccountPickerMode::Timed => true,
        StartupAccountPickerMode::Manual => false,
    };
    let state = PickerState { auto_pick: timed, default_idx };
    if candidates.len() <= 1 && timed {
        let outcome = match default_candidate(candidates) {
            Some(c) => Some(StartupAccountPickerSelection::Automatic(c.id.clone())),
            None => None,
        };
        return (PickerStep::Finish(outcome), state);
    }
    let seconds = if timed { Some(STARTUP_AUTO_PICK_AFTER_SECS) } else { None };
    (PickerStep::Show { selected_idx: default_idx, seconds_remaining: seconds }, state)
}

/// The user's choice of row `idx`, if that row exists.
pub open spec fn user_choice(cands: Seq<AccountPickerCandidate>, idx: Option<usize>) -> Option<StartupAccountPickerSelection> {
    match idx {
        Some(i) => if i < cands.len() { Some(StartupAccountPickerSelection::User(cands[i as int].id)) } else { None },
        None => None,
    }
}

/// The row to highlight: the one the view reports, else the default.
pub open spec fn highlighted_or_default(h: Option<usize>, default_idx: usize) -> usize {
    match h {
        Some(x) => x,
        None => default_idx,
    }
}

/// One step of a running picker, as a transition from state and event to
/// the next step and state. Input of any kind stops the countdown; the
/// countdown running out, or the event source ending during it, selects the
/// default automatically; a completed view ends with the user's choice.
pub open spec fn picker_transition(
    state: PickerState,
    cands: Seq<AccountPickerCandidate>,
    event: PickerEvent,
) -> (PickerStep, PickerState) {
    let stopped = PickerState { auto_pick: false, default_idx: state.default_idx };
    let automatic = automatic_choice(cands, state.default_idx as int);
    match event {
        PickerEvent::KeyRelease => (PickerStep::Ignore, state),
        PickerEvent::Interrupt => (PickerStep::Finish(None), state),
        PickerEvent::Key { chosen: Some(c), highlighted: _ } => (PickerStep::Finish(user_choice(cands, c)), state),
        PickerEvent::Key { chosen: None, highlighted: h } => if state.auto_pick {
            (PickerStep::Show { selected_idx: highlighted_or_default(h, state.default_idx), seconds_remaining: None }, stopped)
        } else {
            (PickerStep::Draw, state)
        },
        PickerEvent::Paste { highlighted: h } => if state.auto_pick {
            (PickerStep::Show { selected_idx: highlighted_or_default(h, state.default_idx), seconds_remaining: None }, stopped)
        } else {
            (PickerStep::Ignore, state)
        },
        PickerEvent::Redraw => (PickerStep::Draw, state),
        PickerEvent::StreamEnded => (PickerStep::Finish(if state.auto_pick { Some(automatic) } else { None }), state),
        PickerEvent::Deadline => if state.auto_pick {
            (PickerStep::Finish(Some(automatic)), state)
        } else {
            (PickerStep::Ignore, state)
        },
        PickerEvent::Tick { remaining_secs: r, highlighted: h } => if state.auto_pick {
            (PickerStep::Show { selected_idx: highlighted_or_default(h, state.default_idx), seconds_remaining: Some(r) }, state)
        } else {
            (PickerStep::Ignore, state)
        },
    }
}

/// One step of a running picker; see `picker_transition`.
pub fn picker_step(
    state: &mut PickerState,
    candidates: &Vec<AccountPickerCandidate>,
    event: PickerEvent,
) -> (res: PickerStep)
    requires
        old(state).auto_pick ==> old(state).default_idx < candidates@.len(),
    ensures
        (res, *final(state)) == picker_transition(*old(state), candidates@, event),
{
    let default_idx = state.default_idx;
    match event {
        PickerEvent::KeyRelease => PickerStep::Ignore,
        PickerEvent::Interrupt => PickerStep::Finish(None),
        PickerEvent::Key { chosen: Some(c), highlighted: _ } => {
            let outcome = match c {
                Some(i) => if i < candidates.len() {
                    Some(StartupAccountPickerSelection::User(candidates[i].id.clone()))
                } else {
                    None
                },
                None => None,
            };
            PickerStep::Finish(outcome)
        },
        PickerEvent::Key { chosen: None, highlighted } => {
            if state.auto_pick {
                state.auto_pick = false;
                let selected = match highlighted { Some(x) => x, None => default_idx };
                PickerStep::Show { selected_idx: selected, seconds_remaining: None }
            } else {
                PickerStep::Draw
            }
        },
        PickerEvent::Paste { highlighted } => {
            if state.auto_pick {
                state.auto_pick = false;
                let selected = match highlighted { Some(x) => x, None => default_idx };
                PickerStep::Show { selected_idx: selected, seconds_remaining: None }
            } else {
                PickerStep::Ignore
            }
        },
        PickerEvent::Redraw => PickerStep::Draw,
        PickerEvent::StreamEnded => {
            if state.auto_pick {
                PickerStep::Finish(Some(StartupAccountPickerSelection::Automatic(candidates[default_idx].id.clone())))
            } else {
                PickerStep::Finish(None)
            }
        },
        PickerEvent::Deadline => {
            if state.auto_pick {
                PickerStep::Finish(Some(StartupAccountPickerSelection::Automatic(candidates[default_idx].id.clone())))
            } else {
                PickerStep::Ignore
            }
        },
        PickerEvent::Tick { remaining_secs, highlighted } => {
            if state.auto_pick {
                let selected = match highlighted { Some(x) => x, None => default_idx };
                PickerStep::Show { selected_idx: selected, seconds_remaining: Some(remaining_secs) }
            } else {
                PickerStep::Ignore
            }
        },
    }
}

/// Once a key press or paste reached the picker, the countdown no longer
/// selects anything: a later deadline or end of input picks no account
/// by itself.
pub proof fn lemma_input_cancels_auto_selection(
    state: PickerState,
    cands: Seq<AccountPickerCandidate>,
    input: PickerEvent,
    later: PickerEvent,
)
    requires
        input is Paste || input matches PickerEvent::Key { chosen: None, .. },
        later is Deadline || later is StreamEnded,
    ensures
        ({
            let after = picker_transition(state, cands, input).1;
            let step = picker_transition(after, cands, later).0;
            step == PickerStep::Ignore || step == PickerStep::Finish(None)
        }),
{
}

} // verus!
