use vstd::prelude::*;
use crate::conversation::Conversation;
use crate::selection::{next_selection, prev_selection, step_next, step_prev, valid_selection};

verus! {

/// Where a stored conversation can be found.
#[derive(Debug, Default, PartialEq, Eq)]
pub struct ConversationMeta {
    pub path: String,
}

impl ConversationMeta {
    pub fn new(path: String) -> (r: ConversationMeta)
        ensures
            r.path == path,
    {
        ConversationMeta { path }
    }
}

impl Clone for ConversationMeta {
    fn clone(&self) -> (r: ConversationMeta)
        ensures
            r == *self,
    {
        ConversationMeta { path: self.path.clone() }
    }
}

/// The stored conversation could not be read.
#[derive(Clone, Copy, Debug, PartialEq, Eq, Structural)]
pub enum LoadFailure {
    Unreadable,
}

/// The known conversations, a cursor over them, and the one in use.
#[derive(Debug, Default)]
pub struct ConversationManager {
    pub conversations: Vec<ConversationMeta>,
    pub selected_conversation: Option<usize>,
    pub active_conversation: Conversation,
}

impl ConversationManager {
    /// The cursor is absent or names one of the conversations.
    pub open spec fn wf(&self) -> bool {
        valid_selection(self.selected_conversation, self.conversations@.len())
    }

    pub fn new(conversations: Vec<ConversationMeta>) -> (r: ConversationManager)
        ensures
            r.conversations@ == conversations@,
            r.selected_conversation.is_none(),
            r.active_conversation.messages@.len() == 0,
            r.active_conversation.selected_message.is_none(),
            r.wf(),
    {
        ConversationManager {
            conversations,
            selected_conversation: None,
            active_conversation: Conversation::new(Vec::new()),
        }
    }

    /// Appends a conversation; the cursor does not move.
    pub fn add_conversation(&mut self, meta: ConversationMeta)
        ensures
            final(self).conversations@ == old(self).conversations@.push(meta),
            final(self).selected_conversation == old(self).selected_conversation,
            final(self).active_conversation == old(self).active_conversation,
            old(self).wf() ==> final(self).wf(),
    {
        self.conversations.push(meta);
    }

    /// The paths of the known conversations, in order.
    pub fn list_conversations(&self) -> (r: Vec<String>)
        ensures
            r@.len() == self.conversations@.len(),
            forall|i: int| 0 <= i < r@.len() ==> r@[i] == self.conversations@[i].path,
    {
        let mut r: Vec<String> = Vec::new();
        let mut k: usize = 0;
        while k < self.conversations.len()
            invariant
                k <= self.conversations@.len(),
                r@.len() == k,
                forall|i: int| 0 <= i < k ==> r@[i] == self.conversations@[i].path,
            decreases self.conversations@.len() - k,
        {
            r.push(self.conversations[k].path.clone());
            k = k + 1;
        }
        r
    }

    /// Moves the cursor to the next conversation, staying on the last one.
    pub fn select_next_conversation(&mut self)
        ensures
            final(self).conversations == old(self).conversations,
            final(self).active_conversation == old(self).active_conversation,
            final(self).selected_conversation == next_selection(
                old(self).selected_conversation,
                old(self).conversations@.len(),
            ),
            old(self).wf() ==> final(self).wf(),
    {
        self.selected_conversation = step_next(self.selected_conversation, self.conversations.len());
    }

    /// Moves the cursor to the previous conversation, staying on the first one.
    pub fn select_prev_conversation(&mut self)
        ensures
            final(self).conversations == old(self).conversations,
            final(self).active_conversation == old(self).active_conversation,
            final(self).selected_conversation == prev_selection(
                old(self).selected_conversation,
                old(self).conversations@.len(),
            ),
            old(self).wf() ==> final(self).wf(),
    {
        self.selected_conversation = step_prev(self.selected_conversation, self.conversations.len());
    }

    /// The conversation under the cursor, if the cursor names one.
    pub fn selected_meta(&self) -> (r: Option<&ConversationMeta>)
        ensures
            match self.selected_conversation {
                Some(i) if i < self.conversations@.len() => r == Some(&self.conversations@[i as int]),
                _ => r.is_none(),
            },
    {
        match self.selected_conversation {
            Some(i) => if i < self.conversations.len() { Some(&self.conversations[i]) } else { None },
            None => None,
        }
    }

    /// Makes the conversation read for the selected entry the active one. A
    /// failed read is handed back and leaves the manager as it was.
    pub fn activate_selected_conversation(
        &mut self,
        loaded: Result<Conversation, LoadFailure>,
    ) -> (r: Result<(), LoadFailure>)
        ensures
            final(self).conversations == old(self).conversations,
            final(self).selected_conversation == old(self).selected_conversation,
            match loaded {
                Ok(c) => r.is_ok() && final(self).active_conversation == c,
                Err(e) => r == Err::<(), LoadFailure>(e) && final(self).active_conversation
                    == old(self).active_conversation,
            },
    {
        match loaded {
            Ok(c) => {
                self.active_conversation = c;
                Ok(())
            },
            Err(e) => Err(e),
        }
    }
}

} // verus!
