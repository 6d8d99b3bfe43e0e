//! Durable messages that the agent leaves for the user: recognising them,
//! keeping a bounded inbox per thread, and tracking which are unread.

use vstd::prelude::*;
use std::collections::VecDeque;
use crate::text::has_prefix;
use crate::text::starts_with;
use crate::text::str_eq;
use crate::text::strip_prefix;
use crate::text::trim;
use crate::text::trimmed;
use crate::text::decimal;
use crate::text::decimal_string;
use crate::text::push_spaces;
use crate::text::spaces;
use crate::wrapping::line_texts;
use crate::wrapping::push_wrapped;
use crate::wrapping::shown_text;
use crate::wrapping::split_lines;
use crate::wrapping::text_lines;

verus! {

/// Most messages an inbox keeps.
pub const MAX_MESSAGES: usize = 50;
/// Most messages tracked per thread for unread state.
pub const MAX_TRACKED_MESSAGES_PER_THREAD: usize = 50;
/// Most threads tracked for unread state.
pub const MAX_TRACKED_THREADS: usize = 256;

/// The prefix of the item id of a durable user message.
pub open spec fn item_id_prefix() -> Seq<char> {
    "user-message:"@
}

/// The line that opens a durable user message's text.
pub open spec fn envelope_prefix() -> Seq<char> {
    "[Message for you]"@
}

/// The phase of an agent message.
#[derive(Clone, Copy, Debug, PartialEq, Eq, Structural)]
pub enum MessagePhase {
    Commentary,
    FinalAnswer,
}

/// An agent message as the conversation reports it: its id, its text
/// parts and its phase.
#[derive(Clone, Debug, PartialEq, Eq)]
pub struct AgentMessageItem {
    pub id: String,
    pub content: Vec<String>,
    pub phase: Option<MessagePhase>,
}

/// A recognised durable message for the user.
#[derive(Clone, Debug, PartialEq, Eq)]
pub struct UserMessage {
    pub id: String,
    pub body: String,
}

/// The text parts of a message, joined.
pub open spec fn joined(parts: Seq<String>) -> Seq<char>
    decreases parts.len(),
{
    if parts.len() == 0 {
        Seq::empty()
    } else {
        joined(parts.drop_last()) + parts.last()@
    }
}

/// The body of a durable user message: a commentary item whose id has the
/// user-message prefix and whose text starts with the envelope line; the
/// rest of the text, trimmed, must not be empty.
pub open spec fn spec_recognized_body(id: Seq<char>, text: Seq<char>, phase: Option<MessagePhase>) -> Option<Seq<char>> {
    if phase == Some(MessagePhase::Commentary) && has_prefix(id, item_id_prefix()) && has_prefix(text, envelope_prefix()) {
        let body = trimmed(text.subrange(envelope_prefix().len() as int, text.len() as int));
        if body.len() > 0 { Some(body) } else { None }
    } else {
        None
    }
}

fn join_parts(parts: &Vec<String>) -> (res: String)
    ensures
        res@ == joined(parts@),
{
    let mut out = String::new();
    let mut i: usize = 0;
    while i < parts.len()
        invariant
            i <= parts@.len(),
            out@ == joined(parts@.take(i as int)),
        decreases parts@.len() - i,
    {
        out.append(parts[i].as_str());
        proof {
            assert(parts@.take(i + 1).drop_last() =~= parts@.take(i as int));
        }
        i = i + 1;
    }
    assert(parts@.take(parts@.len() as int) =~= parts@);
    out
}

/// The durable user message that a message with this id, text and phase
/// carries, if any.
pub fn recognize_user_message_text(id: &str, text: &str, phase: Option<MessagePhase>) -> (res: Option<UserMessage>)
    ensures
        match res {
            Some(m) => m.id@ == id@ && spec_recognized_body(id@, text@, phase) == Some(m.body@),
            None => spec_recognized_body(id@, text@, phase).is_none(),
        },
{
    proof {
        reveal_strlit("[Message for you]");
        reveal_strlit("user-message:");
    }
    if phase != Some(MessagePhase::Commentary) || !starts_with(id, "user-message:") {
        return None;
    }
    let rest = match strip_prefix(text, "[Message for you]") {
        Some(rest) => rest,
        None => { return None; },
    };
    let body = trim(rest);
    if body.unicode_len() == 0 {
        return None;
    }
    Some(UserMessage { id: String::from_str(id), body: String::from_str(body) })
}

/// The durable user message that an agent message carries, if any.
pub fn recognize(item: &AgentMessageItem) -> (res: Option<UserMessage>)
    ensures
        match res {
            Some(m) => m.id@ == item.id@ && spec_recognized_body(item.id@, joined(item.content@), item.phase) == Some(m.body@),
            None => spec_recognized_body(item.id@, joined(item.content@), item.phase).is_none(),
        },
{
    let text = join_parts(&item.content);
    recognize_user_message_text(item.id.as_str(), text.as_str(), item.phase)
}

/// The id and body of a message, as plain text.
pub open spec fn message_view(m: UserMessage) -> (Seq<char>, Seq<char>) {
    (m.id@, m.body@)
}

/// The durable messages of one thread, newest first.
pub struct UserMessageInboxState {
    messages: VecDeque<UserMessage>,
    overflowed: bool,
}

/// The transcript entry for a newly recorded message.
#[derive(Clone, Debug, PartialEq, Eq)]
pub struct UserMessageHistoryCell {
    pub body: String,
}

/// The inbox as shown by `/inbox`.
#[derive(Clone, Debug, PartialEq, Eq)]
pub struct InboxHistoryCell {
    pub enabled: bool,
    pub messages: Vec<UserMessage>,
    pub overflowed: bool,
}

impl UserMessageInboxState {
    /// The stored messages, newest first.
    pub closed spec fn spec_messages(self) -> Seq<UserMessage> {
        self.messages@
    }

    /// Whether older messages were dropped to keep the inbox bounded.
    pub closed spec fn spec_overflowed(self) -> bool {
        self.overflowed
    }

    /// At most `MAX_MESSAGES` messages, no id twice.
    pub open spec fn wf(self) -> bool {
        &&& self.spec_messages().len() <= MAX_MESSAGES
        &&& forall|i: int, j: int| 0 <= i < j < self.spec_messages().len() ==> self.spec_messages()[i].id@ != self.spec_messages()[j].id@
    }

    /// Whether a message with this id is stored.
    pub open spec fn holds_id(self, id: Seq<char>) -> bool {
        exists|i: int| 0 <= i < self.spec_messages().len() && #[trigger] self.spec_messages()[i].id@ == id
    }

    /// An empty inbox.
    pub fn new() -> (res: UserMessageInboxState)
        ensures
            res.wf(),
            res.spec_messages().len() == 0,
            !res.spec_overflowed(),
    {
        UserMessageInboxState { messages: VecDeque::new(), overflowed: false }
    }

    /// Records a message. A message whose id is already stored is ignored
    /// and gives no transcript entry; otherwise it becomes the newest, the
    /// oldest message is dropped when the inbox exceeds its bound, and its
    /// transcript entry is returned.
    pub fn record(&mut self, message: UserMessage) -> (res: Option<UserMessageHistoryCell>)
        requires
            old(self).wf(),
        ensures
            final(self).wf(),
            old(self).holds_id(message.id@) ==> res.is_none() && final(self).spec_messages() == old(self).spec_messages()
                && final(self).spec_overflowed() == old(self).spec_overflowed(),
            !old(self).holds_id(message.id@) ==> {
                let grown = seq![message] + old(self).spec_messages();
                &&& res == Some(UserMessageHistoryCell { body: message.body })
                &&& grown.len() <= MAX_MESSAGES ==> final(self).spec_messages() == grown
                    && final(self).spec_overflowed() == old(self).spec_overflowed()
                &&& grown.len() > MAX_MESSAGES ==> final(self).spec_messages() == grown.take(MAX_MESSAGES as int)
                    && final(self).spec_overflowed()
            },
    {
        let n = self.messages.len();
        let mut i: usize = 0;
        while i < n
            invariant
                n == self.messages@.len(),
                *self == *old(self),
                old(self).wf(),
                i <= n,
                forall|j: int| 0 <= j < i ==> self.messages@[j].id@ != message.id@,
            decreases n - i,
        {
            if str_eq(self.messages[i].id.as_str(), message.id.as_str()) {
                proof {
                    assert(self.spec_messages()[i as int].id@ == message.id@);
                }
                return None;
            }
            i = i + 1;
        }
        proof {
            assert(!old(self).holds_id(message.id@));
        }
        let cell = UserMessageHistoryCell { body: message.body.clone() };
        let ghost grown = seq![message] + self.messages@;
        self.messages.push_front(message);
        if self.messages.len() > MAX_MESSAGES {
            self.messages.pop_back();
            self.overflowed = true;
            assert(self.messages@ =~= grown.take(MAX_MESSAGES as int));
        }
        proof {
            assert forall|a: int, b: int| 0 <= a < b < self.spec_messages().len() implies self.spec_messages()[a].id@ != self.spec_messages()[b].id@ by {
                if a == 0 {
                    assert(self.spec_messages()[b] == old(self).spec_messages()[b - 1]);
                } else {
                    assert(self.spec_messages()[a] == old(self).spec_messages()[a - 1]);
                    assert(self.spec_messages()[b] == old(self).spec_messages()[b - 1]);
                }
            }
        }
        Some(cell)
    }

    /// The inbox view: whether the inbox is enabled, the messages newest
    /// first, and whether older ones were dropped.
    pub fn history_cell(&self, enabled: bool) -> (res: InboxHistoryCell)
        ensures
            res.enabled == enabled,
            res.messages@.len() == self.spec_messages().len(),
            forall|i: int| 0 <= i < res.messages@.len() ==> message_view(#[trigger] res.messages@[i]) == message_view(self.spec_messages()[i]),
            res.overflowed == self.spec_overflowed(),
    {
        let mut messages: Vec<UserMessage> = Vec::new();
        let mut i: usize = 0;
        while i < self.messages.len()
            invariant
                i <= self.messages@.len(),
                messages@.len() == i,
                forall|k: int| 0 <= k < i ==> message_view(#[trigger] messages@[k]) == message_view(self.messages@[k]),
            decreases self.messages@.len() - i,
        {
            let m = &self.messages[i];
            messages.push(UserMessage { id: m.id.clone(), body: m.body.clone() });
            i = i + 1;
        }
        InboxHistoryCell { enabled, messages, overflowed: self.overflowed }
    }
}

/// The heading of a message's transcript entry.
pub open spec fn message_heading() -> Seq<char> {
    "Message for you"@
}

impl UserMessageHistoryCell {
    /// The lines shown at `width` columns: the heading, then the body
    /// wrapped line by line, every line indented by two spaces.
    pub open spec fn spec_display_lines(self, width: u16) -> Seq<Seq<char>> {
        seq![message_heading()] + shown_text(self.body@, width as usize, "  "@, "  "@)
    }

    /// The lines shown at `width` columns (the heading is bold).
    pub fn display_lines(&self, width: u16) -> (res: Vec<String>)
        ensures
            line_texts(res@) == self.spec_display_lines(width),
    {
        let mut lines: Vec<String> = Vec::new();
        lines.push(String::from_str("Message for you"));
        proof {
            assert(line_texts(lines@) =~= seq![message_heading()]);
        }
        push_wrapped(&mut lines, self.body.as_str(), width as usize, "  ", "  ");
        lines
    }

    /// The lines kept in the raw transcript: the heading, then the lines
    /// of the body as they are.
    pub fn raw_lines(&self) -> (res: Vec<String>)
        ensures
            line_texts(res@) == seq![message_heading()] + text_lines(self.body@),
    {
        let mut lines: Vec<String> = Vec::new();
        lines.push(String::from_str("Message for you"));
        let body = split_lines(self.body.as_str());
        let mut k: usize = 0;
        while k < body.len()
            invariant
                k <= body@.len(),
                line_texts(lines@) == seq![message_heading()] + line_texts(body@).take(k as int),
            decreases body@.len() - k,
        {
            let ghost before = line_texts(lines@);
            lines.push(body[k].clone());
            proof {
                assert(line_texts(body@).take(k + 1) =~= line_texts(body@).take(k as int).push(body@[k as int]@));
                assert(line_texts(lines@) =~= before.push(body@[k as int]@));
            }
            k = k + 1;
        }
        proof {
            assert(line_texts(body@).take(body@.len() as int) =~= line_texts(body@));
        }
        lines
    }
}

/// The heading of the inbox.
pub open spec fn inbox_heading() -> Seq<char> {
    "Messages for you"@
}

/// What an enabled, empty inbox shows.
pub open spec fn no_messages_line() -> Seq<char> {
    "No messages for you in this thread."@
}

/// The hint shown while the inbox is disabled.
pub open spec fn enable_hint() -> Seq<char> {
    "Enable Agent inbox messages in /codexplusplus, then restart Codex."@
}

/// The note shown once older messages were dropped.
pub open spec fn overflow_notice() -> Seq<char> {
    "Showing the 50 newest messages. Older messages remain in the transcript."@
}

/// The number before the `k`-th message (counting from zero): `k + 1`,
/// a dot and a space.
pub open spec fn message_number(k: int) -> Seq<char> {
    decimal((k + 1) as nat) + ". "@
}

/// The messages as the inbox shows them: each body wrapped line by line,
/// its first line after its number and the others indented to match.
pub open spec fn shown_messages(messages: Seq<UserMessage>, width: u16) -> Seq<Seq<char>>
    decreases messages.len(),
{
    if messages.len() == 0 {
        Seq::empty()
    } else {
        let number = message_number(messages.len() - 1);
        shown_messages(messages.drop_last(), width)
            + shown_text(messages.last().body@, width as usize, number, spaces(number.len()))
    }
}

impl InboxHistoryCell {
    /// The lines shown at `width` columns. An empty inbox shows one line:
    /// that there are no messages, or, while disabled, how to enable it.
    /// Otherwise the heading, the numbered messages, the note that older
    /// messages were dropped if they were, and the hint while disabled.
    pub open spec fn spec_display_lines(self, width: u16) -> Seq<Seq<char>> {
        if self.messages@.len() == 0 {
            seq![if self.enabled { no_messages_line() } else { enable_hint() }]
        } else {
            seq![inbox_heading()] + shown_messages(self.messages@, width)
                + (if self.overflowed { seq![overflow_notice()] } else { Seq::empty() })
                + (if self.enabled { Seq::empty() } else { seq![enable_hint()] })
        }
    }

    /// The lines shown at `width` columns (the heading is bold).
    pub fn display_lines(&self, width: u16) -> (res: Vec<String>)
        ensures
            line_texts(res@) == self.spec_display_lines(width),
    {
        let mut lines: Vec<String> = Vec::new();
        if self.messages.len() == 0 {
            if self.enabled {
                lines.push(String::from_str("No messages for you in this thread."));
            } else {
                lines.push(String::from_str("Enable Agent inbox messages in /codexplusplus, then restart Codex."));
            }
            proof {
                assert(line_texts(lines@) =~= self.spec_display_lines(width));
            }
            return lines;
        }
        lines.push(String::from_str("Messages for you"));
        let mut k: usize = 0;
        proof {
            assert(self.messages@.take(0) =~= Seq::<UserMessage>::empty());
            assert(line_texts(lines@) =~= seq![inbox_heading()] + shown_messages(self.messages@.take(0), width));
        }
        while k < self.messages.len()
            invariant
                k <= self.messages@.len(),
                line_texts(lines@) == seq![inbox_heading()] + shown_messages(self.messages@.take(k as int), width),
            decreases self.messages@.len() - k,
        {
            let mut number = decimal_string((k + 1) as u64);
            number.append(". ");
            let mut indent = String::new();
            push_spaces(&mut indent, number.as_str().unicode_len());
            proof {
                assert(number@ =~= message_number(k as int));
                assert(indent@ =~= spaces(message_number(k as int).len()));
            }
            let ghost before = line_texts(lines@);
            push_wrapped(&mut lines, self.messages[k].body.as_str(), width as usize, number.as_str(), indent.as_str());
            proof {
                let t = self.messages@.take(k + 1);
                assert(t.drop_last() =~= self.messages@.take(k as int));
                assert(t.last() == self.messages@[k as int]);
                assert(line_texts(lines@) =~= seq![inbox_heading()] + shown_messages(t, width));
            }
            k = k + 1;
        }
        proof {
            assert(self.messages@.take(self.messages@.len() as int) =~= self.messages@);
        }
        let ghost body = line_texts(lines@);
        if self.overflowed {
            lines.push(String::from_str("Showing the 50 newest messages. Older messages remain in the transcript."));
        }
        let ghost with_note = line_texts(lines@);
        proof {
            assert(with_note =~= body + (if self.overflowed { seq![overflow_notice()] } else { Seq::empty() }));
        }
        if !self.enabled {
            lines.push(String::from_str("Enable Agent inbox messages in /codexplusplus, then restart Codex."));
        }
        proof {
            assert(line_texts(lines@) =~= with_note + (if self.enabled { Seq::empty() } else { seq![enable_hint()] }));
        }
        lines
    }

    /// The lines kept in the raw transcript: those shown at the widest
    /// width.
    pub fn raw_lines(&self) -> (res: Vec<String>)
        ensures
            line_texts(res@) == self.spec_display_lines(u16::MAX),
    {
        self.display_lines(u16::MAX)
    }
}

} // verus!

verus! {

/// The identity of a conversation thread.
#[derive(Clone, Copy, Debug, PartialEq, Eq, Structural)]
pub struct ThreadId {
    pub value: u128,
}

/// One tracked message of a thread and whether it is unread.
pub struct TrackedUserMessage {
    id: String,
    unread: bool,
}

/// The tracked messages of one thread, newest first, as plain values.
pub type TrackedMessages = Seq<(Seq<char>, bool)>;

/// The plain view of a thread's tracked messages.
pub open spec fn tracked_view(msgs: Seq<TrackedUserMessage>) -> TrackedMessages {
    msgs.map_values(|m: TrackedUserMessage| (m.id_view(), m.unread_view()))
}

impl TrackedUserMessage {
    /// The message id.
    pub closed spec fn id_view(self) -> Seq<char> {
        self.id@
    }

    /// Whether the message is unread.
    pub closed spec fn unread_view(self) -> bool {
        self.unread
    }
}

/// Which durable messages of which threads are unread, for the threads
/// touched most recently (oldest first).
pub struct UserMessageUnreadState {
    threads: Vec<(ThreadId, VecDeque<TrackedUserMessage>)>,
}

/// The index of thread `t` in the tracked threads.
pub open spec fn thread_index(threads: Seq<(ThreadId, TrackedMessages)>, t: ThreadId) -> Option<int> {
    if exists|k: int| 0 <= k < threads.len() && #[trigger] threads[k].0 == t {
        Some(choose|k: int| 0 <= k < threads.len() && #[trigger] threads[k].0 == t)
    } else {
        None
    }
}

/// The first `n` elements of `s`, or all of them when there are fewer.
pub open spec fn truncated<A>(s: Seq<A>, n: int) -> Seq<A> {
    if s.len() > n { s.take(n) } else { s }
}

/// Whether the messages hold one with id `id`.
pub open spec fn holds_message(msgs: TrackedMessages, id: Seq<char>) -> bool {
    exists|i: int| 0 <= i < msgs.len() && #[trigger] msgs[i].0 == id
}

/// The tracked threads after a message `id` arrives in thread `t`: a
/// message already tracked changes nothing; otherwise the thread becomes
/// the most recent one with the message first (unread unless the thread is
/// on screen), keeping its newest `MAX_TRACKED_MESSAGES_PER_THREAD`
/// messages, and the least recent thread is forgotten beyond
/// `MAX_TRACKED_THREADS` threads.
pub open spec fn spec_record(
    threads: Seq<(ThreadId, TrackedMessages)>,
    t: ThreadId,
    id: Seq<char>,
    is_current: bool,
) -> Seq<(ThreadId, TrackedMessages)> {
    match thread_index(threads, t) {
        Some(k) => if holds_message(threads[k].1, id) {
            threads
        } else {
            let moved = threads.remove(k).push((t, truncated(seq![(id, !is_current)] + threads[k].1, MAX_TRACKED_MESSAGES_PER_THREAD as int)));
            moved
        },
        None => {
            let grown = threads.push((t, seq![(id, !is_current)]));
            if grown.len() > MAX_TRACKED_THREADS { grown.drop_first() } else { grown }
        },
    }
}

/// Whether thread `t` has an unread tracked message.
pub open spec fn spec_has_unread(threads: Seq<(ThreadId, TrackedMessages)>, t: ThreadId) -> bool {
    exists|k: int, i: int| 0 <= k < threads.len() && threads[k].0 == t && 0 <= i < threads[k].1.len() && #[trigger] threads[k].1[i].1
}

impl UserMessageUnreadState {
    /// The tracked threads as plain values, least recently touched first.
    pub closed spec fn spec_threads(self) -> Seq<(ThreadId, TrackedMessages)> {
        self.threads@.map_values(|e: (ThreadId, VecDeque<TrackedUserMessage>)| (e.0, tracked_view(e.1@)))
    }

    /// Bounded, and no thread tracked twice.
    pub open spec fn wf(self) -> bool {
        &&& self.spec_threads().len() <= MAX_TRACKED_THREADS
        &&& forall|i: int, j: int| 0 <= i < j < self.spec_threads().len() ==> self.spec_threads()[i].0 != self.spec_threads()[j].0
        &&& forall|i: int| 0 <= i < self.spec_threads().len() ==> (#[trigger] self.spec_threads()[i]).1.len() <= MAX_TRACKED_MESSAGES_PER_THREAD
    }

    /// Nothing tracked.
    pub fn new() -> (res: UserMessageUnreadState)
        ensures
            res.wf(),
            res.spec_threads().len() == 0,
    {
        let res = UserMessageUnreadState { threads: Vec::new() };
        assert(res.spec_threads() =~= Seq::<(ThreadId, TrackedMessages)>::empty());
        res
    }

    fn find_thread(&self, thread_id: ThreadId) -> (res: Option<usize>)
        requires
            self.wf(),
        ensures
            match res {
                Some(k) => thread_index(self.spec_threads(), thread_id) == Some(k as int) && k < self.threads@.len(),
                None => thread_index(self.spec_threads(), thread_id).is_none(),
            },
    {
        let mut k: usize = 0;
        while k < self.threads.len()
            invariant
                self.wf(),
                k <= self.threads@.len(),
                forall|j: int| 0 <= j < k ==> self.spec_threads()[j].0 != thread_id,
            decreases self.threads@.len() - k,
        {
            if self.threads[k].0 == thread_id {
                proof {
                    assert(self.spec_threads()[k as int].0 == thread_id);
                    let c = choose|c: int| 0 <= c < self.spec_threads().len() && #[trigger] self.spec_threads()[c].0 == thread_id;
                    if c != k {
                        if c < k {
                        } else {
                            assert(self.spec_threads()[k as int].0 != self.spec_threads()[c].0);
                        }
                    }
                }
                return Some(k);
            }
            k = k + 1;
        }
        None
    }

    /// Whether thread `thread_id` has an unread durable message.
    pub fn has_unread(&self, thread_id: ThreadId) -> (res: bool)
        requires
            self.wf(),
        ensures
            res == spec_has_unread(self.spec_threads(), thread_id),
    {
        match self.find_thread(thread_id) {
            Some(k) => {
                let msgs = &self.threads[k].1;
                let ghost view = self.spec_threads()[k as int].1;
                assert(view == tracked_view(msgs@));
                let mut i: usize = 0;
                while i < msgs.len()
                    invariant
                        self.wf(),
                        view == tracked_view(msgs@),
                        thread_index(self.spec_threads(), thread_id) == Some(k as int),
                        self.spec_threads()[k as int].0 == thread_id,
                        view == self.spec_threads()[k as int].1,
                        i <= msgs@.len(),
                        forall|j: int| 0 <= j < i ==> !view[j].1,
                    decreases msgs@.len() - i,
                {
                    if msgs[i].unread {
                        assert(view.len() == msgs@.len());
                        assert(view[i as int].1);
                        assert(self.spec_threads()[k as int].1[i as int].1);
                        return true;
                    }
                    i = i + 1;
                }
                proof {
                    assert forall|a: int, b: int| 0 <= a < self.spec_threads().len() && self.spec_threads()[a].0 == thread_id
                        && 0 <= b < self.spec_threads()[a].1.len() implies !#[trigger] self.spec_threads()[a].1[b].1 by {
                        if a != k {
                            if a < k {
                                assert(self.spec_threads()[a].0 != self.spec_threads()[k as int].0);
                            } else {
                                assert(self.spec_threads()[k as int].0 != self.spec_threads()[a].0);
                            }
                        }
                    }
                }
                false
            },
            None => {
                assert forall|a: int, b: int| 0 <= a < self.spec_threads().len() && self.spec_threads()[a].0 == thread_id
                    && 0 <= b < self.spec_threads()[a].1.len() implies !#[trigger] self.spec_threads()[a].1[b].1 by {
                    assert(exists|c: int| 0 <= c < self.spec_threads().len() && #[trigger] self.spec_threads()[c].0 == thread_id);
                }
                false
            },
        }
    }

    /// Marks every tracked message of thread `thread_id` as read.
    pub fn mark_read(&mut self, thread_id: ThreadId)
        requires
            old(self).wf(),
        ensures
            final(self).wf(),
            final(self).spec_threads().len() == old(self).spec_threads().len(),
            forall|i: int| 0 <= i < final(self).spec_threads().len() ==> (#[trigger] final(self).spec_threads()[i]).0 == old(self).spec_threads()[i].0,
            forall|i: int| 0 <= i < final(self).spec_threads().len() && old(self).spec_threads()[i].0 != thread_id ==> #[trigger] final(self).spec_threads()[i] == old(self).spec_threads()[i],
            !spec_has_unread(final(self).spec_threads(), thread_id),
    {
        let k = match self.find_thread(thread_id) {
            Some(k) => k,
            None => { return; },
        };
        let ghost before = self.spec_threads();
        let (tid, msgs) = self.threads.remove(k);
        let mut cleared: VecDeque<TrackedUserMessage> = VecDeque::new();
        let mut i: usize = 0;
        while i < msgs.len()
            invariant
                i <= msgs@.len(),
                cleared@.len() == i,
                forall|j: int| 0 <= j < i ==> (#[trigger] cleared@[j]).id_view() == msgs@[j].id_view() && !cleared@[j].unread_view(),
            decreases msgs@.len() - i,
        {
            cleared.push_back(TrackedUserMessage { id: msgs[i].id.clone(), unread: false });
            i = i + 1;
        }
        proof {
            assert forall|j: int| 0 <= j < cleared@.len() implies (#[trigger] tracked_view(cleared@)[j]) == (tracked_view(msgs@)[j].0, false) by {}
        }
        self.threads.insert(k, (tid, cleared));
        proof {
            assert forall|j: int| 0 <= j < self.spec_threads().len() && j != k implies #[trigger] self.spec_threads()[j] == before[j] by {}
            assert(self.spec_threads()[k as int].0 == before[k as int].0);
            assert(self.spec_threads()[k as int].1.len() == before[k as int].1.len());
            let t = self.spec_threads();
            assert(thread_index(t, thread_id) == Some(k as int)) by {
                let c = choose|c: int| 0 <= c < t.len() && #[trigger] t[c].0 == thread_id;
                assert(t[k as int].0 == thread_id);
                if c != k {
                    assert(before[c].0 == before[k as int].0);
                }
            }
        }
    }

    /// Forgets thread `thread_id`.
    pub fn remove(&mut self, thread_id: ThreadId)
        requires
            old(self).wf(),
        ensures
            final(self).wf(),
            match thread_index(old(self).spec_threads(), thread_id) {
                Some(k) => final(self).spec_threads() == old(self).spec_threads().remove(k),
                None => final(self).spec_threads() == old(self).spec_threads(),
            },
            !spec_has_unread(final(self).spec_threads(), thread_id),
    {
        let ghost before = self.spec_threads();
        match self.find_thread(thread_id) {
            Some(k) => {
                self.threads.remove(k);
                proof {
                    assert(self.spec_threads() =~= before.remove(k as int));
                    let t = self.spec_threads();
                    if exists|c: int| 0 <= c < t.len() && #[trigger] t[c].0 == thread_id {
                        let c = choose|c: int| 0 <= c < t.len() && #[trigger] t[c].0 == thread_id;
                        if c < k {
                            assert(before[c].0 == before[k as int].0);
                        } else {
                            assert(before[c + 1].0 == before[k as int].0);
                        }
                    }
                }
            },
            None => {},
        }
    }

    /// Records that durable message `item_id` arrived in thread
    /// `thread_id`; it is unread unless that thread is on screen. See
    /// `spec_record`.
    pub fn record(&mut self, thread_id: ThreadId, item_id: &str, is_current: bool)
        requires
            old(self).wf(),
        ensures
            final(self).wf(),
            final(self).spec_threads() == spec_record(old(self).spec_threads(), thread_id, item_id@, is_current),
    {
        let ghost before = self.spec_threads();
        let entry = TrackedUserMessage { id: String::from_str(item_id), unread: !is_current };
        assert(entry.id_view() == item_id@ && entry.unread_view() == !is_current);
        match self.find_thread(thread_id) {
            Some(k) => {
                let ghost existing = before[k as int].1;
                {
                    let msgs = &self.threads[k].1;
                    let mut i: usize = 0;
                    while i < msgs.len()
                        invariant
                            old(self).wf(),
                            *self == *old(self),
                            before == old(self).spec_threads(),
                            thread_index(before, thread_id) == Some(k as int),
                            k < before.len(),
                            existing == before[k as int].1,
                            existing == tracked_view(msgs@),
                            i <= msgs@.len(),
                            forall|j: int| 0 <= j < i ==> existing[j].0 != item_id@,
                        decreases msgs@.len() - i,
                    {
                        if str_eq(msgs[i].id.as_str(), item_id) {
                            assert(existing[i as int].0 == item_id@);
                            assert(holds_message(existing, item_id@));
                            return;
                        }
                        i = i + 1;
                    }
                }
                let ghost raw = self.threads@[k as int].1@;
                assert(existing == tracked_view(raw));
                let (tid, mut msgs) = self.threads.remove(k);
                let ghost old_msgs = msgs@;
                assert(old_msgs == raw);
                msgs.push_front(entry);
                msgs.truncate(MAX_TRACKED_MESSAGES_PER_THREAD);
                let ghost grown = seq![entry] + old_msgs;
                proof {
                    assert(tracked_view(grown) =~= seq![(item_id@, !is_current)] + existing);
                    if grown.len() > MAX_TRACKED_MESSAGES_PER_THREAD {
                        assert(msgs@ == grown.subrange(0, MAX_TRACKED_MESSAGES_PER_THREAD as int));
                    } else {
                        assert(msgs@ == grown);
                    }
                    assert(tracked_view(msgs@) =~= truncated(seq![(item_id@, !is_current)] + existing, MAX_TRACKED_MESSAGES_PER_THREAD as int));
                }
                self.threads.push((tid, msgs));
                proof {
                    let expected = before.remove(k as int).push((thread_id, truncated(seq![(item_id@, !is_current)] + existing, MAX_TRACKED_MESSAGES_PER_THREAD as int)));
                    assert(self.spec_threads() =~= expected);
                    assert forall|a: int, b: int| 0 <= a < b < self.spec_threads().len() implies self.spec_threads()[a].0 != self.spec_threads()[b].0 by {
                        let t = self.spec_threads();
                        let ra = if a < k { a } else { a + 1 };
                        if b == t.len() - 1 {
                            assert(t[a].0 == before[ra].0);
                            assert(before[ra].0 != before[k as int].0);
                        } else {
                            let rb = if b < k { b } else { b + 1 };
                            assert(t[a].0 == before[ra].0);
                            assert(t[b].0 == before[rb].0);
                        }
                    }
                }
            },
            None => {
                let mut msgs: VecDeque<TrackedUserMessage> = VecDeque::new();
                msgs.push_back(entry);
                assert(tracked_view(msgs@) =~= seq![(item_id@, !is_current)]);
                self.threads.push((thread_id, msgs));
                let ghost grown = self.spec_threads();
                assert(grown =~= before.push((thread_id, seq![(item_id@, !is_current)])));
                if self.threads.len() > MAX_TRACKED_THREADS {
                    self.threads.remove(0);
                    assert(self.spec_threads() =~= grown.drop_first());
                }
                proof {
                    assert forall|a: int, b: int| 0 <= a < b < self.spec_threads().len() implies self.spec_threads()[a].0 != self.spec_threads()[b].0 by {
                        let t = self.spec_threads();
                        let off: int = if grown.len() > MAX_TRACKED_THREADS { 1 } else { 0 };
                        assert(t[a] == grown[a + off]);
                        assert(t[b] == grown[b + off]);
                        if b + off == grown.len() - 1 {
                            assert(!(exists|c: int| 0 <= c < before.len() && #[trigger] before[c].0 == thread_id));
                            assert(grown[a + off] == before[a + off]);
                        }
                    }
                    assert forall|i: int| 0 <= i < self.spec_threads().len() implies (#[trigger] self.spec_threads()[i]).1.len() <= MAX_TRACKED_MESSAGES_PER_THREAD by {
                        let off: int = if grown.len() > MAX_TRACKED_THREADS { 1 } else { 0 };
                        assert(self.spec_threads()[i] == grown[i + off]);
                    }
                }
            },
        }
    }

    /// Forgets every thread.
    pub fn clear(&mut self)
        ensures
            final(self).wf(),
            final(self).spec_threads().len() == 0,
    {
        self.threads.clear();
        assert(self.spec_threads() =~= Seq::<(ThreadId, TrackedMessages)>::empty());
    }
}


/// No thread occurs twice.
pub open spec fn unique_threads(threads: Seq<(ThreadId, TrackedMessages)>) -> bool {
    forall|i: int, j: int| 0 <= i < j < threads.len() ==> threads[i].0 != threads[j].0
}

proof fn lemma_thread_index_unique(threads: Seq<(ThreadId, TrackedMessages)>, t: ThreadId, k: int)
    requires
        unique_threads(threads),
        0 <= k < threads.len(),
        threads[k].0 == t,
    ensures
        thread_index(threads, t) == Some(k),
{
    let c = choose|c: int| 0 <= c < threads.len() && #[trigger] threads[c].0 == t;
    if c < k {
        assert(threads[c].0 != threads[k].0);
    } else if c > k {
        assert(threads[k].0 != threads[c].0);
    }
}

/// A new durable message in a thread that is not on screen leaves that
/// thread with an unread message.
pub proof fn lemma_new_message_is_unread(threads: Seq<(ThreadId, TrackedMessages)>, t: ThreadId, id: Seq<char>)
    requires
        unique_threads(threads),
        match thread_index(threads, t) {
            Some(k) => !holds_message(threads[k].1, id),
            None => true,
        },
    ensures
        spec_has_unread(spec_record(threads, t, id, false), t),
{
    let after = spec_record(threads, t, id, false);
    let last = after.len() - 1;
    match thread_index(threads, t) {
        Some(k) => {
            let msgs = truncated(seq![(id, true)] + threads[k].1, MAX_TRACKED_MESSAGES_PER_THREAD as int);
            assert(after[last] == (t, msgs));
            assert(msgs[0] == (id, true));
            assert(after[last].1[0].1);
        },
        None => {
            assert(after[last] == (t, seq![(id, true)]));
            assert(after[last].1[0].1);
        },
    }
}

/// Recording the same message of the same thread twice is recording it once.
pub proof fn lemma_record_is_idempotent(
    threads: Seq<(ThreadId, TrackedMessages)>,
    t: ThreadId,
    id: Seq<char>,
    first_current: bool,
    second_current: bool,
)
    requires
        unique_threads(threads),
    ensures
        spec_record(spec_record(threads, t, id, first_current), t, id, second_current) == spec_record(threads, t, id, first_current),
{
    let after = spec_record(threads, t, id, first_current);
    match thread_index(threads, t) {
        Some(k) => {
            if holds_message(threads[k].1, id) {
            } else {
                let msgs = truncated(seq![(id, !first_current)] + threads[k].1, MAX_TRACKED_MESSAGES_PER_THREAD as int);
                let last = after.len() - 1;
                assert(after[last] == (t, msgs));
                assert forall|a: int, b: int| 0 <= a < b < after.len() implies after[a].0 != after[b].0 by {
                    let ra = if a < k { a } else { a + 1 };
                    if b == last {
                        assert(after[a].0 == threads[ra].0);
                        if ra < k { assert(threads[ra].0 != threads[k].0); } else { assert(threads[k].0 != threads[ra].0); }
                    } else {
                        let rb = if b < k { b } else { b + 1 };
                        assert(after[a].0 == threads[ra].0);
                        assert(after[b].0 == threads[rb].0);
                    }
                }
                lemma_thread_index_unique(after, t, last);
                assert(msgs[0].0 == id);
                assert(holds_message(after[last].1, id));
            }
        },
        None => {
            let grown = threads.push((t, seq![(id, !first_current)]));
            let last = after.len() - 1;
            assert(after[last] == (t, seq![(id, !first_current)]));
            assert forall|a: int, b: int| 0 <= a < b < after.len() implies after[a].0 != after[b].0 by {
                let off: int = if grown.len() > MAX_TRACKED_THREADS { 1 } else { 0 };
                assert(after[a] == grown[a + off]);
                assert(after[b] == grown[b + off]);
                if b == last {
                    assert(grown[a + off] == threads[a + off]);
                    if threads[a + off].0 == t {
                        assert(exists|c: int| 0 <= c < threads.len() && #[trigger] threads[c].0 == t);
                    }
                }
            }
            lemma_thread_index_unique(after, t, last);
            assert(after[last].1[0].0 == id);
            assert(holds_message(after[last].1, id));
        },
    }
}

} // verus!
