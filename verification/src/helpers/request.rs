use crate::helpers::text::{debug_quote, debug_text};
use crate::models::ai::chatgpt::{Message, MessageView};
use vstd::prelude::*;
use vstd::string::*;

verus! {

/// The body of a prompt, made of three texts that are already quoted.
pub open spec fn framed_content(
    objective: Seq<char>,
    context: Seq<char>,
    query: Seq<char>,
) -> Seq<char> {
    "\n  YOUR INSTRUCTIONS: "@ + objective + "\n  CONTEXT: "@ + context + "\n  QUERY: "@ + query
        + "\n  "@
}

/// The prompt that puts `query` to the gateway under `objective`, in
/// `context`. Each of the three is quoted as `Debug` quotes a string, so
/// that none can break out of its line.
pub open spec fn prepared(
    objective: Seq<char>,
    context: Seq<char>,
    query: Seq<char>,
) -> MessageView {
    MessageView {
        role: "system"@,
        content: framed_content(debug_text(objective), debug_text(context), debug_text(query)),
    }
}

/// Makes a system prompt of three texts that are already quoted.
pub fn frame_message(objective: &str, context: &str, query: &str) -> (message: Message)
    ensures
        message@ == (MessageView {
            role: "system"@,
            content: framed_content(objective@, context@, query@),
        }),
{
    let mut content = String::from_str("\n  YOUR INSTRUCTIONS: ");
    content.append(objective);
    content.append("\n  CONTEXT: ");
    content.append(context);
    content.append("\n  QUERY: ");
    content.append(query);
    content.append("\n  ");
    Message { role: String::from_str("system"), content }
}

/// Makes the system prompt that puts `query` to the gateway under
/// `objective`, in `context`.
pub fn prepare_message(objective: &str, context: &str, query: &str) -> (message: Message)
    ensures
        message@ == prepared(objective@, context@, query@),
{
    let objective_quoted = debug_quote(objective);
    let context_quoted = debug_quote(context);
    let query_quoted = debug_quote(query);
    frame_message(objective_quoted.as_str(), context_quoted.as_str(), query_quoted.as_str())
}

/// One request to the gateway and how often it was sent again.
#[derive(Debug)]
pub struct GatewayCall {
    message: Message,
    retried: bool,
}

/// A `GatewayCall` as plain values.
pub struct GatewayCallView {
    pub message: MessageView,
    pub retried: bool,
}

impl View for GatewayCall {
    type V = GatewayCallView;

    closed spec fn view(&self) -> GatewayCallView {
        GatewayCallView { message: self.message@, retried: self.retried }
    }
}

/// What to do with an answer of the gateway.
#[derive(Debug, PartialEq, Eq)]
pub enum Delivery {
    /// The request failed for the first time: send this message once more.
    Resend(Message),
    /// The gateway replied.
    Reply(String),
    /// The request failed twice: the failure goes to the agent.
    GiveUp(String),
}

/// A `Delivery` as plain values.
pub enum DeliveryView {
    Resend(MessageView),
    Reply(Seq<char>),
    GiveUp(Seq<char>),
}

impl View for Delivery {
    type V = DeliveryView;

    open spec fn view(&self) -> DeliveryView {
        match self {
            Delivery::Resend(message) => DeliveryView::Resend(message@),
            Delivery::Reply(text) => DeliveryView::Reply(text@),
            Delivery::GiveUp(reason) => DeliveryView::GiveUp(reason@),
        }
    }
}

/// An answer of the gateway as plain values.
pub open spec fn answer_text(answer: Result<String, String>) -> Result<Seq<char>, Seq<char>> {
    match answer {
        Ok(text) => Ok(text@),
        Err(reason) => Err(reason@),
    }
}

impl GatewayCallView {
    /// The call and the delivery after `answer` came in: a reply is
    /// delivered; a first failure has the same message sent once more; a
    /// second failure is final.
    pub open spec fn settled(self, answer: Result<Seq<char>, Seq<char>>) -> (
        GatewayCallView,
        DeliveryView,
    ) {
        match answer {
            Ok(text) => (self, DeliveryView::Reply(text)),
            Err(reason) => if self.retried {
                (self, DeliveryView::GiveUp(reason))
            } else {
                (GatewayCallView { retried: true, ..self }, DeliveryView::Resend(self.message))
            },
        }
    }
}

/// Begins a request to the gateway. The caller sends `msg` and hands each
/// answer to `settle`.
pub fn ai_request(msg: Message) -> (call: GatewayCall)
    ensures
        call@ == (GatewayCallView { message: msg@, retried: false }),
{
    GatewayCall { message: msg, retried: false }
}

impl GatewayCall {
    /// The message of this request.
    pub fn message(&self) -> (message: &Message)
        ensures
            message@ == self@.message,
    {
        &self.message
    }

    /// Whether the message was already sent a second time.
    pub fn retried(&self) -> (retried: bool)
        ensures
            retried == self@.retried,
    {
        self.retried
    }

    /// Takes an answer of the gateway and says what follows from it.
    pub fn settle(&mut self, answer: Result<String, String>) -> (delivery: Delivery)
        ensures
            (final(self)@, delivery@) == old(self)@.settled(answer_text(answer)),
    {
        match answer {
            Ok(text) => Delivery::Reply(text),
            Err(reason) => {
                if self.retried {
                    Delivery::GiveUp(reason)
                } else {
                    self.retried = true;
                    Delivery::Resend(self.message.clone())
                }
            },
        }
    }
}

/// A request is sent twice at most: whatever the first answer was, a failure
/// that follows a failure is final, and a reply is always delivered.
pub proof fn lemma_gateway_retries_once(
    call: GatewayCallView,
    first: Seq<char>,
    second: Seq<char>,
)
    ensures
        call.settled(Err(first)).0.settled(Err(second)).1 == DeliveryView::GiveUp(second),
        call.settled(Err(first)).0.settled(Ok(second)).1 == DeliveryView::Reply(second),
        !call.retried ==> call.settled(Err(first)).1 == DeliveryView::Resend(call.message),
{
}

} // verus!
