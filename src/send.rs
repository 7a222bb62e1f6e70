use vstd::prelude::*;
use crate::action::Action;
use crate::message::{Message, ModelRef, Role, Status};
use crate::stream::StreamSession;

verus! {

/// What the completion provider is asked: a model and the full history.
#[derive(Debug)]
pub struct CompletionRequest {
    pub model: ModelRef,
    pub messages: Vec<Message>,
}

/// Everything a send hands to the task that carries it out: the actions to
/// emit at once, and, when a model is attached, the request to make and the
/// session that turns its stream into further actions.
#[derive(Debug)]
pub struct SendPlan {
    pub announce: Vec<Action>,
    pub request: Option<(CompletionRequest, StreamSession)>,
}

/// The empty assistant message that stands for an answer about to stream in.
pub open spec fn is_placeholder(a: Action, model: ModelRef) -> bool {
    match a {
        Action::ReceiveMessage(m) => {
            &&& m.role == Role::Assistant
            &&& m.content@.len() == 0
            &&& m.status == Some(Status::Starting)
            &&& m.model == Some(model)
        },
        _ => false,
    }
}

/// `r` is the plan for sending `message` after `history`.
pub open spec fn plans_send(r: SendPlan, message: Message, history: Seq<Message>) -> bool {
    &&& r.announce@.len() >= 1
    &&& r.announce@[0] == Action::ReceiveMessage(message)
    &&& match message.model {
        Some(m) => {
            &&& r.announce@.len() == 2
            &&& is_placeholder(r.announce@[1], m)
            &&& r.request.is_some()
            &&& r.request.unwrap().0.model == m
            &&& r.request.unwrap().0.messages@ == history.push(message)
            &&& r.request.unwrap().1.model == m
            &&& r.request.unwrap().1.content@.len() == 0
            &&& !r.request.unwrap().1.finished
        },
        None => r.announce@.len() == 1 && r.request.is_none(),
    }
}

/// A copy of each message, in order.
pub fn copy_messages(messages: &Vec<Message>) -> (r: Vec<Message>)
    ensures
        r@ == messages@,
{
    let mut r: Vec<Message> = Vec::new();
    let mut k: usize = 0;
    while k < messages.len()
        invariant
            k <= messages@.len(),
            r@ == messages@.subrange(0, k as int),
        decreases messages@.len() - k,
    {
        r.push(messages[k].clone());
        k = k + 1;
        assert(r@ =~= messages@.subrange(0, k as int));
    }
    assert(r@ =~= messages@);
    r
}

/// Plans the sending of `message` in a conversation whose messages were
/// `history` when the send was asked for. The user's message is announced
/// first; with a model attached, an empty assistant message follows and the
/// provider is asked with the history and the message; without one, nothing
/// more happens.
pub fn plan_send(message: Message, history: &Vec<Message>) -> (r: SendPlan)
    requires
        history@.len() < usize::MAX,
    ensures
        plans_send(r, message, history@),
{
    let mut announce: Vec<Action> = Vec::new();
    match &message.model {
        Some(model) => {
            let model: ModelRef = model.clone();
            let mut messages = copy_messages(history);
            let placeholder = Message {
                role: Role::Assistant,
                content: String::new(),
                status: Some(Status::Starting),
                model: Some(model.clone()),
            };
            messages.push(message.clone());
            announce.push(Action::ReceiveMessage(message));
            announce.push(Action::ReceiveMessage(placeholder));
            let session = StreamSession::new(model.clone());
            SendPlan { announce, request: Some((CompletionRequest { model, messages }, session)) }
        },
        None => {
            announce.push(Action::ReceiveMessage(message));
            SendPlan { announce, request: None }
        },
    }
}

} // verus!
