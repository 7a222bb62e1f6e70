use vstd::prelude::*;
use crate::focus::Mode;
use crate::manager::ConversationMeta;
use crate::message::Message;

verus! {

/// A request for a change of state, applied by the dispatcher in arrival order.
#[derive(Debug, PartialEq, Eq)]
pub enum Action {
    ReceiveMessage(Message),
    StreamMessage(Message),
    SendMessage(Message),
    SelectNextMessage,
    SelectPreviousMessage,
    DeleteSelectedMessage,
    SwitchMode(Mode),
    SelectNextConversation,
    SelectPreviousConversation,
    LoadSelectedConversation,
    AddConversationToManager(ConversationMeta),
}

} // verus!
