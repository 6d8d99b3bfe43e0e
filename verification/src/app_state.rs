//! The application's Codex++ state across threads: unread durable
//! messages per thread, and when to look for quota after a usage reset.

use vstd::prelude::*;
use crate::chat_widget::ChatWidget;
use crate::usage_reset_resume::spec_usage_reset_turn;
use crate::user_message_inbox::AgentMessageItem;
use crate::user_message_inbox::ThreadId;
use crate::user_message_inbox::UserMessageUnreadState;
use crate::user_message_inbox::joined;
use crate::user_message_inbox::recognize;
use crate::user_message_inbox::spec_has_unread;
use crate::user_message_inbox::spec_recognized_body;
use crate::user_message_inbox::spec_record;

verus! {

/// The application state that Codex++ keeps.
pub struct App {
    pub user_message_unread: UserMessageUnreadState,
    /// The thread on screen.
    pub current_displayed_thread_id: Option<ThreadId>,
}

impl App {
    /// The unread state is well formed.
    pub open spec fn wf(self) -> bool {
        self.user_message_unread.wf()
    }

    /// No unread messages, no thread on screen.
    pub fn new() -> (res: App)
        ensures
            res.wf(),
            res.user_message_unread.spec_threads().len() == 0,
            res.current_displayed_thread_id.is_none(),
    {
        App { user_message_unread: UserMessageUnreadState::new(), current_displayed_thread_id: None }
    }

    /// A completed agent message of a thread: a durable message for the
    /// user is recorded, unread unless its thread is on screen; other
    /// items change nothing.
    pub fn record_live_user_message(&mut self, thread_id: ThreadId, item: &AgentMessageItem)
        requires
            old(self).wf(),
        ensures
            final(self).wf(),
            final(self).current_displayed_thread_id == old(self).current_displayed_thread_id,
            spec_recognized_body(item.id@, joined(item.content@), item.phase).is_some() ==> final(self).user_message_unread.spec_threads()
                == spec_record(old(self).user_message_unread.spec_threads(), thread_id, item.id@,
                    old(self).current_displayed_thread_id == Some(thread_id)),
            spec_recognized_body(item.id@, joined(item.content@), item.phase).is_none() ==> final(self).user_message_unread.spec_threads()
                == old(self).user_message_unread.spec_threads(),
    {
        if recognize(item).is_some() {
            let is_current = self.current_displayed_thread_id == Some(thread_id);
            self.user_message_unread.record(thread_id, item.id.as_str(), is_current);
        }
    }

    /// The user saw a thread: its messages are read.
    pub fn mark_user_messages_read(&mut self, thread_id: ThreadId)
        requires
            old(self).wf(),
        ensures
            final(self).wf(),
            !spec_has_unread(final(self).user_message_unread.spec_threads(), thread_id),
            final(self).user_message_unread.spec_threads().len() == old(self).user_message_unread.spec_threads().len(),
            forall|i: int| 0 <= i < final(self).user_message_unread.spec_threads().len()
                && old(self).user_message_unread.spec_threads()[i].0 != thread_id
                ==> #[trigger] final(self).user_message_unread.spec_threads()[i] == old(self).user_message_unread.spec_threads()[i],
            final(self).current_displayed_thread_id == old(self).current_displayed_thread_id,
    {
        self.user_message_unread.mark_read(thread_id);
    }

    /// Whether a thread has unread messages.
    pub fn has_unread_user_message(&self, thread_id: ThreadId) -> (res: bool)
        requires
            self.wf(),
        ensures
            res == spec_has_unread(self.user_message_unread.spec_threads(), thread_id),
    {
        self.user_message_unread.has_unread(thread_id)
    }

    /// A thread went away: its state is forgotten.
    pub fn remove_user_message_thread_state(&mut self, thread_id: ThreadId)
        requires
            old(self).wf(),
        ensures
            final(self).wf(),
            !spec_has_unread(final(self).user_message_unread.spec_threads(), thread_id),
            final(self).current_displayed_thread_id == old(self).current_displayed_thread_id,
    {
        self.user_message_unread.remove(thread_id);
    }

    /// Forgets every thread's messages.
    pub fn clear_user_message_unread_state(&mut self)
        requires
            old(self).wf(),
        ensures
            final(self).wf(),
            final(self).user_message_unread.spec_threads().len() == 0,
            final(self).current_displayed_thread_id == old(self).current_displayed_thread_id,
    {
        self.user_message_unread.clear();
    }
}

/// After a usage reset completed at `completed_at`, the turn whose quota
/// to look up: only with a thread on screen and a turn waiting for it.
pub fn refresh_after_usage_reset(thread_id: Option<ThreadId>, widget: &ChatWidget, completed_at: i64) -> (res: Option<(ThreadId, String)>)
    ensures
        match res {
            Some((t, turn)) => thread_id == Some(t) && spec_usage_reset_turn(widget.usage_reset, completed_at) == Some(turn@),
            None => thread_id.is_none() || spec_usage_reset_turn(widget.usage_reset, completed_at).is_none(),
        },
{
    let t = match thread_id {
        Some(t) => t,
        None => { return None; },
    };
    match widget.usage_reset_turn(completed_at) {
        Some(turn) => Some((t, turn)),
        None => None,
    }
}

} // verus!
