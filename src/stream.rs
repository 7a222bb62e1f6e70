use vstd::prelude::*;
use crate::action::Action;
use crate::message::{Message, ModelRef, Role, Status};

verus! {

/// One event of a completion stream.
#[derive(Debug, PartialEq, Eq)]
pub enum StreamEvent {
    /// More text of the answer.
    Text(String),
    /// The answer is complete.
    Done,
    /// The transport or the provider failed.
    Failure,
    /// The answer is no longer wanted.
    Cancel,
}

/// The event kind that ends a stream.
pub open spec fn done_kind() -> Seq<char> {
    "done"@
}

/// Reads a provider event from its kind and its payload.
pub fn classify_event(kind: &String, data: String) -> (r: StreamEvent)
    ensures
        kind@ == done_kind() ==> r == StreamEvent::Done,
        kind@ != done_kind() ==> r == StreamEvent::Text(data),
{
    let done: String = "done".to_owned();
    proof {
        reveal_strlit("done");
    }
    if *kind == done {
        StreamEvent::Done
    } else {
        StreamEvent::Text(data)
    }
}

/// `a` is the update of a streamed answer: an assistant message by `model`
/// with the given content and status.
pub open spec fn is_stream_update(
    a: Action,
    content: Seq<char>,
    model: ModelRef,
    status: Option<Status>,
) -> bool {
    match a {
        Action::StreamMessage(m) => {
            &&& m.role == Role::Assistant
            &&& m.content@ == content
            &&& m.status == status
            &&& m.model == Some(model)
        },
        _ => false,
    }
}

/// The receiving side of one completion request: the text gathered so far,
/// owned by this session alone.
#[derive(Debug)]
pub struct StreamSession {
    pub model: ModelRef,
    pub content: String,
    pub finished: bool,
}

impl StreamSession {
    pub fn new(model: ModelRef) -> (r: StreamSession)
        ensures
            r.model == model,
            r.content@.len() == 0,
            !r.finished,
    {
        StreamSession { model, content: String::new(), finished: false }
    }

    /// Takes one event of the stream and gives the action to emit, if any.
    /// Text extends the answer and emits it whole; the end of the stream
    /// emits nothing; a failure or a cancellation emits the partial answer
    /// marked failed or canceled. Once finished, the session emits nothing
    /// more.
    pub fn on_event(&mut self, event: StreamEvent) -> (r: Option<Action>)
        ensures
            final(self).model == old(self).model,
            old(self).content@.is_prefix_of(final(self).content@),
            old(self).finished ==> r.is_none() && *final(self) == *old(self),
            !old(self).finished ==> match event {
                StreamEvent::Text(t) => {
                    &&& final(self).content@ == old(self).content@ + t@
                    &&& !final(self).finished
                    &&& r.is_some()
                    &&& is_stream_update(r.unwrap(), final(self).content@, old(self).model, None)
                },
                StreamEvent::Done => {
                    &&& final(self).content == old(self).content
                    &&& final(self).finished
                    &&& r.is_none()
                },
                StreamEvent::Failure => {
                    &&& final(self).content == old(self).content
                    &&& final(self).finished
                    &&& r.is_some()
                    &&& is_stream_update(
                        r.unwrap(),
                        final(self).content@,
                        old(self).model,
                        Some(Status::Failed),
                    )
                },
                StreamEvent::Cancel => {
                    &&& final(self).content == old(self).content
                    &&& final(self).finished
                    &&& r.is_some()
                    &&& is_stream_update(
                        r.unwrap(),
                        final(self).content@,
                        old(self).model,
                        Some(Status::Canceled),
                    )
                },
            },
    {
        if self.finished {
            assert(old(self).content@.is_prefix_of(self.content@));
            return None;
        }
        match event {
            StreamEvent::Text(t) => {
                self.content.append(t.as_str());
                assert(old(self).content@.is_prefix_of(self.content@)) by {
                    assert(self.content@.subrange(0, old(self).content@.len() as int)
                        =~= old(self).content@);
                }
                Some(Action::StreamMessage(self.update(None)))
            },
            StreamEvent::Done => {
                self.finished = true;
                assert(old(self).content@.is_prefix_of(self.content@));
                None
            },
            StreamEvent::Failure => {
                self.finished = true;
                assert(old(self).content@.is_prefix_of(self.content@));
                Some(Action::StreamMessage(self.update(Some(Status::Failed))))
            },
            StreamEvent::Cancel => {
                self.finished = true;
                assert(old(self).content@.is_prefix_of(self.content@));
                Some(Action::StreamMessage(self.update(Some(Status::Canceled))))
            },
        }
    }

    /// The answer as it stands, as an assistant message.
    fn update(&self, status: Option<Status>) -> (r: Message)
        ensures
            r.role == Role::Assistant,
            r.content@ == self.content@,
            r.status == status,
            r.model == Some(self.model),
    {
        Message {
            role: Role::Assistant,
            content: self.content.clone(),
            status,
            model: Some(self.model.clone()),
        }
    }
}

} // verus!
