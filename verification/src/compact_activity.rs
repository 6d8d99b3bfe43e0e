//! Compact tool activity: which tool entries the main conversation shows in
//! full, shortened or not at all, and the one-line status of running tools.

use vstd::prelude::*;
use crate::text::trim;
use crate::text::trimmed;
use crate::user_message_inbox::joined;

verus! {

/// Who started a command.
#[derive(Clone, Copy, Debug, PartialEq, Eq, Structural)]
pub enum CommandSource {
    Agent,
    UserShell,
    UnifiedExecStartup,
    UnifiedExecInteraction,
}

/// One command of a command entry, with its exit code once it finished.
#[derive(Clone, Copy, Debug, PartialEq, Eq, Structural)]
pub struct ExecCall {
    pub source: CommandSource,
    pub exit_code: Option<i32>,
}

/// A tool entry of the conversation, as far as compaction looks at it.
#[derive(Clone, Debug, PartialEq, Eq)]
pub enum ActivityKind {
    Exec { active: bool, exploring: bool, calls: Vec<ExecCall> },
    McpToolCall { active: bool, success: Option<bool> },
    WebSearch { active: bool, completed: bool },
    Patch,
    Other,
}

/// A call the user started or one that talks to a running session.
pub open spec fn is_interactive(call: ExecCall) -> bool {
    call.source == CommandSource::UserShell || call.source == CommandSource::UnifiedExecInteraction
}

/// A call the agent started that exited with 0.
pub open spec fn is_quiet_success(call: ExecCall) -> bool {
    (call.source == CommandSource::Agent || call.source == CommandSource::UnifiedExecStartup)
        && call.exit_code == Some(0i32)
}

/// A finished entry whose success belongs in the transcript only: agent
/// commands that all exited with 0, a successful tool call, a completed web
/// search.
pub open spec fn spec_success_is_transcript_only(kind: ActivityKind) -> bool {
    match kind {
        ActivityKind::Exec { active, calls, .. } => !active && forall|i: int| 0 <= i < calls@.len() ==> is_quiet_success(#[trigger] calls@[i]),
        ActivityKind::McpToolCall { success, .. } => success == Some(true),
        ActivityKind::WebSearch { completed, .. } => completed,
        _ => false,
    }
}

fn all_quiet_successes(calls: &Vec<ExecCall>) -> (res: bool)
    ensures
        res == forall|i: int| 0 <= i < calls@.len() ==> is_quiet_success(#[trigger] calls@[i]),
{
    let mut i: usize = 0;
    while i < calls.len()
        invariant
            i <= calls@.len(),
            forall|k: int| 0 <= k < i ==> is_quiet_success(#[trigger] calls@[k]),
        decreases calls@.len() - i,
    {
        let c = calls[i];
        let agent = match c.source {
            CommandSource::Agent | CommandSource::UnifiedExecStartup => true,
            _ => false,
        };
        let zero = match c.exit_code {
            Some(code) => code == 0,
            None => false,
        };
        if !(agent && zero) {
            assert(!is_quiet_success(calls@[i as int]));
            return false;
        }
        i = i + 1;
    }
    true
}

fn any_interactive(calls: &Vec<ExecCall>) -> (res: bool)
    ensures
        res == exists|i: int| 0 <= i < calls@.len() && is_interactive(#[trigger] calls@[i]),
{
    let mut i: usize = 0;
    while i < calls.len()
        invariant
            i <= calls@.len(),
            forall|k: int| 0 <= k < i ==> !is_interactive(#[trigger] calls@[k]),
        decreases calls@.len() - i,
    {
        let source = calls[i].source;
        if source == CommandSource::UserShell || source == CommandSource::UnifiedExecInteraction {
            assert(is_interactive(calls@[i as int]));
            return true;
        }
        i = i + 1;
    }
    false
}

/// Whether a finished entry's success belongs in the transcript only.
pub fn compact_success_is_transcript_only(kind: &ActivityKind) -> (res: bool)
    ensures
        res == spec_success_is_transcript_only(*kind),
{
    match kind {
        ActivityKind::Exec { active, calls, .. } => !*active && all_quiet_successes(calls),
        ActivityKind::McpToolCall { success, .. } => *success == Some(true),
        ActivityKind::WebSearch { completed, .. } => *completed,
        _ => false,
    }
}

/// A tool that is still running and whose status may stand in for it:
/// commands other than interactive ones, tool calls and web searches.
pub open spec fn spec_is_running_tool(kind: ActivityKind) -> bool {
    match kind {
        ActivityKind::Exec { active, calls, .. } => active && !exists|i: int| 0 <= i < calls@.len() && is_interactive(#[trigger] calls@[i]),
        ActivityKind::McpToolCall { active, .. } => active,
        ActivityKind::WebSearch { active, .. } => active,
        _ => false,
    }
}

/// Whether an entry is a running tool whose status may stand in for it.
pub fn is_running_tool(kind: &ActivityKind) -> (res: bool)
    ensures
        res == spec_is_running_tool(*kind),
{
    match kind {
        ActivityKind::Exec { active, calls, .. } => *active && !any_interactive(calls),
        ActivityKind::McpToolCall { active, .. } => *active,
        ActivityKind::WebSearch { active, .. } => *active,
        _ => false,
    }
}

/// The index of the first line that has spans.
pub open spec fn first_nonempty_line(lines: Seq<Vec<String>>) -> Option<int> {
    if exists|i: int| 0 <= i < lines.len() && (#[trigger] lines[i])@.len() > 0 {
        Some(choose|i: int| 0 <= i < lines.len() && (#[trigger] lines[i])@.len() > 0
            && forall|j: int| 0 <= j < i ==> (#[trigger] lines[j])@.len() == 0)
    } else {
        None
    }
}

/// The status a rendered entry gives: its first non-empty line without a
/// leading bullet and space, trimmed; `None` when that leaves nothing.
pub open spec fn spec_transient_status(lines: Seq<Vec<String>>) -> Option<Seq<char>> {
    match first_nonempty_line(lines) {
        None => None,
        Some(i) => {
            let spans = lines[i]@;
            let skip: int = if spans.len() > 1 && spans[1]@ == " "@ { 2 } else { 0 };
            let text = trimmed(joined(spans.subrange(skip, spans.len() as int)));
            if text.len() > 0 { Some(text) } else { None }
        },
    }
}

/// The status line a rendered entry gives; `lines` holds the text of each
/// span of each rendered line.
pub fn transient_status(lines: &Vec<Vec<String>>) -> (res: Option<String>)
    ensures
        match res {
            Some(s) => spec_transient_status(lines@) == Some(s@),
            None => spec_transient_status(lines@).is_none(),
        },
{
    let mut i: usize = 0;
    while i < lines.len() && lines[i].len() == 0
        invariant
            i <= lines@.len(),
            forall|j: int| 0 <= j < i ==> (#[trigger] lines@[j])@.len() == 0,
        decreases lines@.len() - i,
    {
        i = i + 1;
    }
    if i == lines.len() {
        assert(!exists|k: int| 0 <= k < lines@.len() && (#[trigger] lines@[k])@.len() > 0);
        return None;
    }
    assert(lines@[i as int]@.len() > 0);
    proof {
        let f = first_nonempty_line(lines@);
        assert(f.is_some());
        let c = f->0;
        if c < i {
            assert(lines@[c]@.len() == 0);
        } else if c > i {
            assert(lines@[i as int]@.len() == 0);
        }
        assert(c == i);
    }
    let spans = &lines[i];
    let skip: usize = if spans.len() > 1 && crate::text::str_eq(spans[1].as_str(), " ") { 2 } else { 0 };
    let mut text = String::new();
    let mut k: usize = skip;
    while k < spans.len()
        invariant
            skip <= k <= spans@.len(),
            skip == 0 || skip == 2,
            skip == 2 ==> spans@.len() > 1,
            text@ == joined(spans@.subrange(skip as int, k as int)),
        decreases spans@.len() - k,
    {
        text.append(spans[k].as_str());
        proof {
            assert(spans@.subrange(skip as int, k + 1).drop_last() =~= spans@.subrange(skip as int, k as int));
        }
        k = k + 1;
    }
    let t = trim(text.as_str());
    if t.unicode_len() == 0 {
        None
    } else {
        Some(t.to_string())
    }
}

/// How much of a compacted entry the main conversation shows.
#[derive(Clone, Copy, Debug, PartialEq, Eq, Structural)]
pub enum CompactMainPresentation {
    Hidden,
    FirstLine,
}

/// How compact mode presents a finished entry in the main conversation:
/// a patch by its first line, a quiet success not at all, anything else in
/// full (`None`). Without compact mode every entry is shown in full.
pub open spec fn spec_compact_presentation(enabled: bool, kind: ActivityKind) -> Option<CompactMainPresentation> {
    if !enabled {
        None
    } else if kind is Patch {
        Some(CompactMainPresentation::FirstLine)
    } else if spec_success_is_transcript_only(kind) {
        Some(CompactMainPresentation::Hidden)
    } else {
        None
    }
}

/// How compact mode presents a finished entry in the main conversation.
pub fn compact_presentation(enabled: bool, kind: &ActivityKind) -> (res: Option<CompactMainPresentation>)
    ensures
        res == spec_compact_presentation(enabled, *kind),
{
    if !enabled {
        return None;
    }
    match kind {
        ActivityKind::Patch => Some(CompactMainPresentation::FirstLine),
        _ => if compact_success_is_transcript_only(kind) { Some(CompactMainPresentation::Hidden) } else { None },
    }
}

/// The main-conversation lines of a compacted entry: none, or the first.
pub fn compact_main_lines<T>(main: CompactMainPresentation, lines: Vec<T>) -> (res: Vec<T>)
    ensures
        main == CompactMainPresentation::Hidden ==> res@.len() == 0,
        main == CompactMainPresentation::FirstLine ==> res@ == lines@.take(if lines@.len() > 0 { 1int } else { 0int }),
{
    let mut lines = lines;
    match main {
        CompactMainPresentation::Hidden => Vec::new(),
        CompactMainPresentation::FirstLine => {
            lines.truncate(1);
            lines
        },
    }
}

/// The lines of a history entry: as the conversation shows it, raw, and
/// in the transcript (Ctrl+T).
#[derive(Clone, Debug, PartialEq, Eq)]
pub struct EntryLines {
    pub display: Vec<String>,
    pub raw: Vec<String>,
    pub transcript: Vec<String>,
}

/// What the main conversation shows of compacted lines: nothing, or the
/// first line.
pub open spec fn shown_main(main: CompactMainPresentation, lines: Seq<String>) -> Seq<String> {
    match main {
        CompactMainPresentation::Hidden => Seq::empty(),
        CompactMainPresentation::FirstLine => lines.take(if lines.len() > 0 { 1int } else { 0int }),
    }
}

/// A finished tool entry that compact mode shortens or hides in the main
/// conversation; its raw lines and its transcript stay the entry's own.
pub struct CompactActivityHistoryCell {
    inner: EntryLines,
    main: CompactMainPresentation,
}

impl CompactActivityHistoryCell {
    /// The lines of the entry it wraps.
    pub closed spec fn spec_inner_display(self) -> Seq<String> {
        self.inner.display@
    }

    /// The raw lines of the entry it wraps.
    pub closed spec fn spec_inner_raw(self) -> Seq<String> {
        self.inner.raw@
    }

    /// The transcript of the entry it wraps.
    pub closed spec fn spec_inner_transcript(self) -> Seq<String> {
        self.inner.transcript@
    }

    /// How much the main conversation shows.
    pub closed spec fn spec_main(self) -> CompactMainPresentation {
        self.main
    }

    /// Wraps an entry, shown in the main conversation as `main` says.
    pub fn new(inner: EntryLines, main: CompactMainPresentation) -> (res: CompactActivityHistoryCell)
        ensures
            res.spec_inner_display() == inner.display@,
            res.spec_inner_raw() == inner.raw@,
            res.spec_inner_transcript() == inner.transcript@,
            res.spec_main() == main,
    {
        CompactActivityHistoryCell { inner, main }
    }

    /// The main-conversation lines: none, or the entry's first line.
    pub fn display_lines(&self) -> (res: Vec<String>)
        ensures
            res@ == shown_main(self.spec_main(), self.spec_inner_display()),
    {
        let lines = copy_lines(&self.inner.display);
        let res = compact_main_lines(self.main, lines);
        proof {
            if self.main == CompactMainPresentation::Hidden {
                assert(res@ =~= Seq::<String>::empty());
            }
        }
        res
    }

    /// The raw lines: the entry's own.
    pub fn raw_lines(&self) -> (res: Vec<String>)
        ensures
            res@ == self.spec_inner_raw(),
    {
        copy_lines(&self.inner.raw)
    }

    /// The transcript lines: the entry's own, complete.
    pub fn transcript_lines(&self) -> (res: Vec<String>)
        ensures
            res@ == self.spec_inner_transcript(),
    {
        copy_lines(&self.inner.transcript)
    }
}

/// A command entry as compact mode shows it: what the conversation shows
/// follows `spec_compact_display_lines` (its full lines, nothing, or
/// `compact`, the running or failed-exploration form drawn for it); its raw
/// lines and its transcript, with the output of every finished call, stay
/// as they were.
pub fn compact_exec_lines(
    active: bool,
    exploring: bool,
    calls: &Vec<ExecCall>,
    cell: EntryLines,
    compact: Vec<String>,
) -> (res: EntryLines)
    ensures
        res.raw@ == cell.raw@,
        res.transcript@ == cell.transcript@,
        res.display@ == match spec_compact_display_lines(active, exploring, calls@) {
            CompactExecRendering::Full => cell.display@,
            CompactExecRendering::Hidden => Seq::<String>::empty(),
            _ => compact@,
        },
{
    let rendering = compact_display_lines(active, exploring, calls);
    match rendering {
        CompactExecRendering::Full => cell,
        CompactExecRendering::Hidden => EntryLines { display: Vec::new(), raw: cell.raw, transcript: cell.transcript },
        _ => EntryLines { display: compact, raw: cell.raw, transcript: cell.transcript },
    }
}

/// A finished command entry whose agent calls all exited with 0 shows
/// nothing in the main conversation (its transcript is kept, as
/// `compact_exec_lines` says), whatever its exploring state.
pub proof fn lemma_quiet_success_moves_to_transcript(exploring: bool, calls: Seq<ExecCall>)
    requires
        forall|i: int| 0 <= i < calls.len() ==> is_quiet_success(#[trigger] calls[i]),
    ensures
        spec_compact_display_lines(false, exploring, calls) == CompactExecRendering::Hidden,
{
    assert forall|i: int| 0 <= i < calls.len() implies !is_interactive(#[trigger] calls[i]) by {
        assert(is_quiet_success(calls[i]));
    }
    assert forall|i: int| 0 <= i < calls.len() implies (#[trigger] calls[i]).exit_code == Some(0i32) by {
        assert(is_quiet_success(calls[i]));
    }
}

/// How compact mode renders a command entry.
#[derive(Clone, Copy, Debug, PartialEq, Eq, Structural)]
pub enum CompactExecRendering {
    /// As without compact mode.
    Full,
    /// The running exploration.
    Exploring,
    /// The running command without its output.
    CommandWithoutOutput,
    /// Nothing: every call succeeded.
    Hidden,
    /// The exploration marked failed, then the error output of the first
    /// failed call, when there is one.
    ExplorationFailed { failed_call: Option<usize> },
}

/// The call finished with a non-zero exit code.
pub open spec fn has_failed(call: ExecCall) -> bool {
    call.exit_code matches Some(c) && c != 0
}

/// The first call that finished with a non-zero exit code.
pub open spec fn first_failed_call(calls: Seq<ExecCall>) -> Option<usize> {
    if exists|i: int| 0 <= i < calls.len() && has_failed(#[trigger] calls[i]) {
        Some((choose|i: int| 0 <= i < calls.len() && has_failed(#[trigger] calls[i])
            && forall|j: int| 0 <= j < i ==> !(has_failed(#[trigger] calls[j]))) as usize)
    } else {
        None
    }
}

/// How compact mode renders a command entry: interactive calls in full; a
/// running entry as exploration or as its commands without output; a
/// finished entry whose calls all exited with 0 not at all; other failures
/// in full, except an exploration, which is shown failed with the error
/// output of its first failed call.
pub open spec fn spec_compact_display_lines(active: bool, exploring: bool, calls: Seq<ExecCall>) -> CompactExecRendering {
    if exists|i: int| 0 <= i < calls.len() && is_interactive(#[trigger] calls[i]) {
        CompactExecRendering::Full
    } else if active {
        if exploring { CompactExecRendering::Exploring } else { CompactExecRendering::CommandWithoutOutput }
    } else if forall|i: int| 0 <= i < calls.len() ==> (#[trigger] calls[i]).exit_code == Some(0i32) {
        CompactExecRendering::Hidden
    } else if !exploring {
        CompactExecRendering::Full
    } else {
        CompactExecRendering::ExplorationFailed { failed_call: first_failed_call(calls) }
    }
}

/// How compact mode renders a command entry; see `spec_compact_display_lines`.
pub fn compact_display_lines(active: bool, exploring: bool, calls: &Vec<ExecCall>) -> (res: CompactExecRendering)
    ensures
        res == spec_compact_display_lines(active, exploring, calls@),
{
    let n: usize = calls.len();
    let mut i: usize = 0;
    let mut all_zero = true;
    let mut failed: Option<usize> = None;
    while i < n
        invariant
            n == calls@.len(),
            i <= calls@.len(),
            forall|k: int| 0 <= k < i ==> !is_interactive(#[trigger] calls@[k]),
            all_zero == forall|k: int| 0 <= k < i ==> (#[trigger] calls@[k]).exit_code == Some(0i32),
            match failed {
                Some(f) => f < i && has_failed(calls@[f as int])
                    && forall|j: int| 0 <= j < f ==> !(has_failed(#[trigger] calls@[j])),
                None => forall|j: int| 0 <= j < i ==> !(has_failed(#[trigger] calls@[j])),
            },
        decreases calls@.len() - i,
    {
        let c = calls[i];
        if c.source == CommandSource::UserShell || c.source == CommandSource::UnifiedExecInteraction {
            assert(is_interactive(calls@[i as int]));
            return CompactExecRendering::Full;
        }
        let zero = match c.exit_code {
            Some(code) => code == 0,
            None => false,
        };
        if !zero {
            all_zero = false;
        }
        if failed.is_none() {
            match c.exit_code {
                Some(code) => if code != 0 { failed = Some(i); },
                None => {},
            }
        }
        i = i + 1;
    }
    if active {
        return if exploring { CompactExecRendering::Exploring } else { CompactExecRendering::CommandWithoutOutput };
    }
    if all_zero {
        return CompactExecRendering::Hidden;
    }
    if !exploring {
        return CompactExecRendering::Full;
    }
    proof {
        let f = first_failed_call(calls@);
        match failed {
            Some(x) => {
                assert(has_failed(calls@[x as int]));
                let c = choose|i: int| 0 <= i < calls@.len() && has_failed(#[trigger] calls@[i])
                    && forall|j: int| 0 <= j < i ==> !(has_failed(#[trigger] calls@[j]));
                if c < x { assert(!has_failed(calls@[c])); }
                if c > x { assert(!has_failed(calls@[x as int])); }
                assert(f == Some(x));
            },
            None => {
                assert(f.is_none());
            },
        }
    }
    CompactExecRendering::ExplorationFailed { failed_call: failed }
}

/// How the history is being rendered.
#[derive(Clone, Copy, Debug, PartialEq, Eq, Structural)]
pub enum HistoryRenderMode {
    CompactToolActivity,
    Rich,
    Raw,
}

/// An entry that compact mode leaves out of the main conversation; its
/// raw lines and transcript stay the entry's own.
pub struct CompactHiddenHistoryCell {
    inner: EntryLines,
}

fn copy_lines(lines: &Vec<String>) -> (res: Vec<String>)
    ensures
        res@ == lines@,
{
    let mut out: Vec<String> = Vec::new();
    let mut i: usize = 0;
    while i < lines.len()
        invariant
            i <= lines@.len(),
            out@ == lines@.take(i as int),
        decreases lines@.len() - i,
    {
        out.push(lines[i].clone());
        proof {
            assert(out@ =~= lines@.take(i + 1));
        }
        i = i + 1;
    }
    assert(lines@.take(lines@.len() as int) =~= lines@);
    out
}

impl CompactHiddenHistoryCell {
    /// The lines rendered normally.
    pub closed spec fn spec_display(self) -> Seq<String> {
        self.inner.display@
    }

    /// The raw lines.
    pub closed spec fn spec_raw(self) -> Seq<String> {
        self.inner.raw@
    }

    /// The transcript lines.
    pub closed spec fn spec_transcript(self) -> Seq<String> {
        self.inner.transcript@
    }

    /// Wraps an entry; its lines, raw lines and transcript are kept.
    pub fn new(inner: EntryLines) -> (res: CompactHiddenHistoryCell)
        ensures
            res.spec_display() == inner.display@,
            res.spec_raw() == inner.raw@,
            res.spec_transcript() == inner.transcript@,
    {
        CompactHiddenHistoryCell { inner }
    }

    /// The transcript lines, whatever the render mode: the entry's own.
    pub fn transcript_lines(&self) -> (res: Vec<String>)
        ensures
            res@ == self.spec_transcript(),
    {
        copy_lines(&self.inner.transcript)
    }

    /// The raw lines: the entry's own.
    pub fn raw_lines(&self) -> (res: Vec<String>)
        ensures
            res@ == self.spec_raw(),
    {
        copy_lines(&self.inner.raw)
    }

    /// The lines for a render mode: none in compact mode, the entry's
    /// own lines otherwise.
    pub fn display_lines_for_mode(&self, mode: HistoryRenderMode) -> (res: Vec<String>)
        ensures
            res@ == match mode {
                HistoryRenderMode::CompactToolActivity => Seq::<String>::empty(),
                HistoryRenderMode::Rich => self.spec_display(),
                HistoryRenderMode::Raw => self.spec_raw(),
            },
    {
        match mode {
            HistoryRenderMode::CompactToolActivity => Vec::new(),
            HistoryRenderMode::Rich => copy_lines(&self.inner.display),
            HistoryRenderMode::Raw => copy_lines(&self.inner.raw),
        }
    }
}

} // verus!
