use vstd::prelude::*;
use crate::message::Message;
use crate::selection::{
    last_selection, next_selection, prev_selection, step_next, step_prev, valid_selection,
};

verus! {

/// Why no message could be handed out.
#[derive(Clone, Copy, Debug, PartialEq, Eq, Structural)]
pub enum SelectionError {
    /// No message is selected, or the selection no longer names a message.
    NotFound,
}

/// An ordered list of messages and a cursor over them.
#[derive(Debug, Default)]
pub struct Conversation {
    pub messages: Vec<Message>,
    pub selected_message: Option<usize>,
}

/// The cursor after the message at `i` was removed from a list that now holds
/// `len` messages: the previous message, or the first, or none when empty.
pub open spec fn selection_after_delete(i: usize, len: nat) -> Option<usize> {
    if len == 0 {
        None
    } else if i > 0 {
        Some((i - 1) as usize)
    } else {
        Some(0usize)
    }
}

impl Conversation {
    /// The cursor is absent or names one of the messages.
    pub open spec fn wf(&self) -> bool {
        valid_selection(self.selected_message, self.messages@.len())
    }

    pub fn new(messages: Vec<Message>) -> (r: Conversation)
        ensures
            r.messages@ == messages@,
            r.selected_message.is_none(),
            r.wf(),
    {
        Conversation { messages, selected_message: None }
    }

    /// Appends a message and selects it.
    pub fn add_message(&mut self, message: Message)
        requires
            old(self).messages@.len() < usize::MAX,
        ensures
            final(self).messages@ == old(self).messages@.push(message),
            final(self).selected_message == Some(old(self).messages@.len() as usize),
            final(self).selected_message == Some((final(self).messages@.len() - 1) as usize),
            final(self).wf(),
    {
        self.messages.push(message);
        self.select_last_message();
    }

    /// Removes the selected message and moves the cursor to the one before it.
    /// Without a selection that names a message, nothing changes.
    pub fn delete_selected_message(&mut self)
        ensures
            match old(self).selected_message {
                Some(i) if i < old(self).messages@.len() => {
                    &&& final(self).messages@ == old(self).messages@.remove(i as int)
                    &&& final(self).selected_message == selection_after_delete(
                        i,
                        final(self).messages@.len(),
                    )
                },
                _ => *final(self) == *old(self),
            },
            old(self).messages@.len() == 1 && old(self).wf() && old(self).selected_message.is_some()
                ==> final(self).messages@.len() == 0 && final(self).selected_message.is_none(),
            old(self).wf() ==> final(self).wf(),
    {
        if let Some(selected_id) = self.selected_message {
            if selected_id < self.messages.len() {
                self.messages.remove(selected_id);
                if self.messages.len() == 0 {
                    self.selected_message = None;
                } else {
                    self.selected_message = step_prev(self.selected_message, self.messages.len());
                }
            }
        }
    }

    /// Selects the last message, or nothing when there are no messages.
    pub fn select_last_message(&mut self)
        ensures
            final(self).messages == old(self).messages,
            final(self).selected_message == last_selection(old(self).messages@.len()),
            final(self).wf(),
    {
        let len = self.messages.len();
        self.selected_message = if len > 0 { Some(len - 1) } else { None };
    }

    /// Replaces the last message by a newer version of it and selects it.
    /// On an empty conversation nothing changes.
    pub fn replace_last_message(&mut self, message: Message)
        ensures
            old(self).messages@.len() == 0 ==> *final(self) == *old(self),
            old(self).messages@.len() > 0 ==> {
                &&& final(self).messages@ == old(self).messages@.drop_last().push(message)
                &&& final(self).selected_message == Some(
                    (old(self).messages@.len() - 1) as usize,
                )
            },
            final(self).messages@.len() == old(self).messages@.len(),
            old(self).wf() ==> final(self).wf(),
    {
        if self.messages.len() > 0 {
            self.messages.pop();
            self.messages.push(message);
            self.select_last_message();
        }
    }

    /// Hook for losing focus; the selection is kept.
    pub fn unfocus(&mut self)
        ensures
            *final(self) == *old(self),
    {
    }

    /// Hook for gaining focus; the selection is kept.
    pub fn focus(&mut self)
        ensures
            *final(self) == *old(self),
    {
    }

    /// A copy of the selected message.
    pub fn get_selected_message(&self) -> (r: Result<Message, SelectionError>)
        ensures
            match self.selected_message {
                Some(i) if i < self.messages@.len() => r == Ok::<Message, SelectionError>(
                    self.messages@[i as int],
                ),
                _ => r == Err::<Message, SelectionError>(SelectionError::NotFound),
            },
    {
        if let Some(currently_selected) = self.selected_message {
            if currently_selected < self.messages.len() {
                return Ok(self.messages[currently_selected].clone());
            }
        }
        Err(SelectionError::NotFound)
    }

    /// Moves the cursor to the next message, staying on the last one.
    pub fn select_next_message(&mut self)
        ensures
            final(self).messages == old(self).messages,
            final(self).selected_message == next_selection(
                old(self).selected_message,
                old(self).messages@.len(),
            ),
            old(self).wf() ==> final(self).wf(),
    {
        self.selected_message = step_next(self.selected_message, self.messages.len());
    }

    /// Moves the cursor to the previous message, staying on the first one.
    pub fn select_prev_message(&mut self)
        ensures
            final(self).messages == old(self).messages,
            final(self).selected_message == prev_selection(
                old(self).selected_message,
                old(self).messages@.len(),
            ),
            old(self).wf() ==> final(self).wf(),
    {
        self.selected_message = step_prev(self.selected_message, self.messages.len());
    }
}

} // verus!
