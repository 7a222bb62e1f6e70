use vstd::prelude::*;

verus! {

/// Who wrote a message.
#[derive(Clone, Copy, Debug, PartialEq, Eq, Structural)]
pub enum Role {
    System,
    User,
    Assistant,
}

/// Lifecycle marker of an assistant message produced by a streaming request.
#[derive(Clone, Copy, Debug, PartialEq, Eq, Structural)]
pub enum Status {
    Starting,
    Processing,
    Succeeded,
    Failed,
    Canceled,
}

/// The generative model that answered a message, as owner and name.
#[derive(Debug, PartialEq, Eq)]
pub struct ModelRef {
    pub owner: String,
    pub name: String,
}

impl ModelRef {
    pub fn new(owner: String, name: String) -> (r: ModelRef)
        ensures
            r.owner@ == owner@,
            r.name@ == name@,
    {
        ModelRef { owner, name }
    }

    /// The owner and the name of the model.
    pub fn get_model_details(&self) -> (r: (String, String))
        ensures
            r.0@ == self.owner@,
            r.1@ == self.name@,
    {
        (self.owner.clone(), self.name.clone())
    }
}

impl Clone for ModelRef {
    fn clone(&self) -> (r: ModelRef)
        ensures
            r == *self,
    {
        ModelRef { owner: self.owner.clone(), name: self.name.clone() }
    }
}

/// One turn of a conversation.
#[derive(Debug, PartialEq, Eq)]
pub struct Message {
    pub role: Role,
    pub content: String,
    pub status: Option<Status>,
    pub model: Option<ModelRef>,
}

impl Message {
    pub fn new(role: Role, content: String) -> (r: Message)
        ensures
            r.role == role,
            r.content == content,
            r.status.is_none(),
            r.model.is_none(),
    {
        Message { role, content, status: None, model: None }
    }
}

impl Clone for Message {
    fn clone(&self) -> (r: Message)
        ensures
            r == *self,
    {
        let model = match &self.model {
            Some(m) => Some(m.clone()),
            None => None,
        };
        Message { role: self.role, content: self.content.clone(), status: self.status, model }
    }
}

} // verus!
