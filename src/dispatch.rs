use vstd::prelude::*;
use crate::action::Action;
use crate::conversation::{selection_after_delete, Conversation};
use crate::focus::{state_for, state_for_mode, Mode, ViewerState};
use crate::manager::{ConversationManager, ConversationMeta};
use crate::selection::{next_selection, prev_selection};
use crate::send::{plan_send, plans_send, SendPlan};

verus! {

/// The conversation view: the conversation in use and its focus state.
#[derive(Debug, Default)]
pub struct Viewer {
    pub conversation: Conversation,
    pub state: ViewerState,
}

impl Viewer {
    pub fn new(focused: bool) -> (r: Viewer)
        ensures
            r.state == (if focused { ViewerState::Focused } else { ViewerState::Unfocused }),
            r.conversation.messages@.len() == 0,
            r.conversation.selected_message.is_none(),
    {
        let state = if focused { ViewerState::Focused } else { ViewerState::Unfocused };
        Viewer { conversation: Conversation::new(Vec::new()), state }
    }

    /// Applies one action. A send leaves the conversation as it is and hands
    /// back the plan of the task that carries it out; its history is a copy
    /// taken now, so later changes cannot reach the task.
    pub fn update(&mut self, action: Action) -> (r: Option<SendPlan>)
        requires
            old(self).conversation.messages@.len() < usize::MAX,
        ensures
            old(self).conversation.wf() ==> final(self).conversation.wf(),
            match action {
                Action::SendMessage(m) => {
                    &&& *final(self) == *old(self)
                    &&& r.is_some()
                    &&& plans_send(r.unwrap(), m, old(self).conversation.messages@)
                },
                _ => r.is_none(),
            },
            match action {
                Action::SwitchMode(mode) => final(self).state == state_for_mode(mode),
                _ => final(self).state == old(self).state,
            },
            match action {
                Action::ReceiveMessage(m) => {
                    &&& final(self).conversation.messages@
                        == old(self).conversation.messages@.push(m)
                    &&& final(self).conversation.selected_message == Some(
                        old(self).conversation.messages@.len() as usize,
                    )
                },
                Action::StreamMessage(m) => if old(self).conversation.messages@.len() > 0 {
                    &&& final(self).conversation.messages@
                        == old(self).conversation.messages@.drop_last().push(m)
                    &&& final(self).conversation.selected_message == Some(
                        (old(self).conversation.messages@.len() - 1) as usize,
                    )
                } else {
                    final(self).conversation == old(self).conversation
                },
                Action::SelectNextMessage => {
                    &&& final(self).conversation.messages == old(self).conversation.messages
                    &&& final(self).conversation.selected_message == next_selection(
                        old(self).conversation.selected_message,
                        old(self).conversation.messages@.len(),
                    )
                },
                Action::SelectPreviousMessage => {
                    &&& final(self).conversation.messages == old(self).conversation.messages
                    &&& final(self).conversation.selected_message == prev_selection(
                        old(self).conversation.selected_message,
                        old(self).conversation.messages@.len(),
                    )
                },
                Action::DeleteSelectedMessage => match old(self).conversation.selected_message {
                    Some(i) if i < old(self).conversation.messages@.len() => {
                        &&& final(self).conversation.messages@
                            == old(self).conversation.messages@.remove(i as int)
                        &&& final(self).conversation.selected_message == selection_after_delete(
                            i,
                            final(self).conversation.messages@.len(),
                        )
                    },
                    _ => final(self).conversation == old(self).conversation,
                },
                _ => final(self).conversation == old(self).conversation,
            },
    {
        match action {
            Action::ReceiveMessage(message) => {
                self.conversation.add_message(message);
                None
            },
            Action::StreamMessage(message) => {
                self.conversation.replace_last_message(message);
                None
            },
            Action::SwitchMode(mode) => {
                self.state = state_for(mode);
                match self.state {
                    ViewerState::Focused => self.conversation.unfocus(),
                    ViewerState::Active => self.conversation.focus(),
                    ViewerState::Unfocused => {
                        if mode == Mode::ModelSelector {
                            self.conversation.unfocus();
                        }
                    },
                }
                None
            },
            Action::SelectNextMessage => {
                self.conversation.select_next_message();
                None
            },
            Action::SelectPreviousMessage => {
                self.conversation.select_prev_message();
                None
            },
            Action::DeleteSelectedMessage => {
                self.conversation.delete_selected_message();
                None
            },
            Action::SendMessage(message) => Some(plan_send(message, &self.conversation.messages)),
            _ => None,
        }
    }
}

/// The list of stored conversations.
#[derive(Debug, Default)]
pub struct ConversationSelector {
    pub manager: ConversationManager,
}

impl ConversationSelector {
    pub fn new(conversations: Vec<ConversationMeta>) -> (r: ConversationSelector)
        ensures
            r.manager.conversations@ == conversations@,
            r.manager.selected_conversation.is_none(),
            r.manager.active_conversation.messages@.len() == 0,
    {
        ConversationSelector { manager: ConversationManager::new(conversations) }
    }

    /// Applies one action. A load request hands back the entry to read, when
    /// the cursor names one; the caller reads it and passes the outcome to
    /// `ConversationManager::activate_selected_conversation`.
    pub fn update(&mut self, action: Action) -> (r: Option<ConversationMeta>)
        ensures
            old(self).manager.wf() ==> final(self).manager.wf(),
            final(self).manager.active_conversation == old(self).manager.active_conversation,
            match action {
                Action::SelectNextConversation => {
                    &&& final(self).manager.conversations == old(self).manager.conversations
                    &&& final(self).manager.selected_conversation == next_selection(
                        old(self).manager.selected_conversation,
                        old(self).manager.conversations@.len(),
                    )
                    &&& r.is_none()
                },
                Action::SelectPreviousConversation => {
                    &&& final(self).manager.conversations == old(self).manager.conversations
                    &&& final(self).manager.selected_conversation == prev_selection(
                        old(self).manager.selected_conversation,
                        old(self).manager.conversations@.len(),
                    )
                    &&& r.is_none()
                },
                Action::AddConversationToManager(meta) => {
                    &&& final(self).manager.conversations@
                        == old(self).manager.conversations@.push(meta)
                    &&& final(self).manager.selected_conversation
                        == old(self).manager.selected_conversation
                    &&& r.is_none()
                },
                Action::LoadSelectedConversation => {
                    &&& *final(self) == *old(self)
                    &&& match old(self).manager.selected_conversation {
                        Some(i) if i < old(self).manager.conversations@.len() => r == Some(
                            old(self).manager.conversations@[i as int],
                        ),
                        _ => r.is_none(),
                    }
                },
                _ => *final(self) == *old(self) && r.is_none(),
            },
    {
        match action {
            Action::SelectPreviousConversation => {
                self.manager.select_prev_conversation();
                None
            },
            Action::SelectNextConversation => {
                self.manager.select_next_conversation();
                None
            },
            Action::LoadSelectedConversation => match self.manager.selected_meta() {
                Some(meta) => Some(meta.clone()),
                None => None,
            },
            Action::AddConversationToManager(meta) => {
                self.manager.add_conversation(meta);
                None
            },
            _ => None,
        }
    }
}

} // verus!
