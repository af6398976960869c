use crate::models::ai::chatgpt::{messages, Message, MessageView};
use vstd::prelude::*;

verus! {

/// The messages with which a conversation is opened.
#[derive(Debug)]
pub struct Thread {
    pub messages: Vec<Message>,
}

/// The request to open a conversation with an assistant and run it.
#[derive(Debug)]
pub struct ThreadRunRequest {
    pub thread: Thread,
    pub assistant_id: String,
}

/// A `ThreadRunRequest` as plain values.
pub struct ThreadRunRequestView {
    pub messages: Seq<MessageView>,
    pub assistant_id: Seq<char>,
}

impl View for ThreadRunRequest {
    type V = ThreadRunRequestView;

    open spec fn view(&self) -> ThreadRunRequestView {
        ThreadRunRequestView {
            messages: messages(self.thread.messages@),
            assistant_id: self.assistant_id@,
        }
    }
}

/// What the gateway tells of a run that it started.
#[derive(Debug)]
pub struct ThreadRunResponse {
    pub id: String,
    pub status: String,
    pub thread_id: String,
    pub assistant_id: String,
    pub object: String,
    pub created_at: u64,
    pub expires_at: u64,
    pub cancelled_at: Option<u64>,
    pub failed_at: Option<u64>,
}

/// What the gateway tells of a message that was posted.
#[derive(Debug)]
pub struct ThreadMessageResponse {
    id: String,
    content: String,
}

impl ThreadMessageResponse {
    /// The record of a posted message.
    pub fn new(id: String, content: String) -> (response: ThreadMessageResponse)
        ensures
            response.id_text() == id@,
            response.content_text() == content@,
    {
        ThreadMessageResponse { id, content }
    }

    /// The identifier of the message.
    pub closed spec fn id_text(&self) -> Seq<char> {
        self.id@
    }

    /// The text of the message.
    pub closed spec fn content_text(&self) -> Seq<char> {
        self.content@
    }

    /// The identifier of the message.
    pub fn id(&self) -> (id: &String)
        ensures
            id@ == self.id_text(),
    {
        &self.id
    }

    /// The text of the message.
    pub fn content(&self) -> (content: &String)
        ensures
            content@ == self.content_text(),
    {
        &self.content
    }
}

} // verus!
