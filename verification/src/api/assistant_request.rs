use crate::api::gpt_request::{GatewayConfig, GatewayConfigView};
use crate::models::ai::assistant::{Thread, ThreadRunRequest, ThreadRunRequestView};
use crate::models::ai::chatgpt::{messages, Message};
use vstd::prelude::*;
use vstd::string::*;

verus! {

impl GatewayConfigView {
    /// The address to which new assistants are posted.
    pub open spec fn assistants_address(self) -> Seq<char> {
        self.endpoint + "/openai/assistants?api-version="@ + self.api_version
    }

    /// The address to which new conversations are posted to be run.
    pub open spec fn thread_runs_address(self) -> Seq<char> {
        self.endpoint + "/openai/threads/runs?api-version="@ + self.api_version
    }

    /// The address to which messages of the conversation `thread` are
    /// posted.
    pub open spec fn thread_messages_address(self, thread: Seq<char>) -> Seq<char> {
        self.endpoint + "/openai/threads/"@ + thread + "/messages?api-version="@
            + self.api_version
    }
}

/// The address to which a new assistant is posted.
pub fn create_assistant(config: &GatewayConfig) -> (url: String)
    ensures
        url@ == config@.assistants_address(),
{
    let mut url = config.endpoint.clone();
    url.append("/openai/assistants?api-version=");
    url.append(config.api_version.as_str());
    url
}

/// The address to which a new conversation is posted, and the request
/// that opens the conversation with `message` for the assistant given.
pub fn create_and_run_thread(config: &GatewayConfig, message: Message, assistant_id: &str) -> (posted:
    (String, ThreadRunRequest))
    ensures
        posted.0@ == config@.thread_runs_address(),
        posted.1@ == (ThreadRunRequestView {
            messages: seq![message@],
            assistant_id: assistant_id@,
        }),
{
    let mut url = config.endpoint.clone();
    url.append("/openai/threads/runs?api-version=");
    url.append(config.api_version.as_str());
    let mut opening: Vec<Message> = Vec::new();
    opening.push(message);
    assert(messages(opening@) =~= seq![message@]);
    (
        url,
        ThreadRunRequest {
            thread: Thread { messages: opening },
            assistant_id: String::from_str(assistant_id),
        },
    )
}

/// The address to which a message of the conversation `thread_id` is
/// posted.
pub fn create_thread_message(config: &GatewayConfig, thread_id: &str) -> (url: String)
    ensures
        url@ == config@.thread_messages_address(thread_id@),
{
    let mut url = config.endpoint.clone();
    url.append("/openai/threads/");
    url.append(thread_id);
    url.append("/messages?api-version=");
    url.append(config.api_version.as_str());
    url
}

} // verus!
