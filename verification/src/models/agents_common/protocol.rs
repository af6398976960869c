use crate::helpers::command_line::CLIPrint;
use crate::models::ai::chatgpt::{Message, MessageView};
use crate::models::general::route::{routes, Route, RouteView};
use crate::models::general::support_case::SupportCaseView;
use vstd::prelude::*;

verus! {

/// Why a whole run stops. None of these is retried and none is passed over.
#[derive(Debug, Clone, Copy, PartialEq, Eq, Structural)]
pub enum FatalError {
    /// The generated code failed to build more often than is allowed.
    TooManyBugs,
    /// The person at the terminal did not approve running generated code.
    UnsafeCodeDeclined,
    /// The running service could not be reached at all.
    ProbeTransport,
    /// The list of routes that the gateway wrote cannot be read.
    MalformedSchema,
    /// The list of actions that the gateway wrote cannot be read.
    MalformedActions,
    /// No agent is registered for the intent of the query.
    UnmappedIntent,
    /// The driver answered with something that the pending action cannot
    /// bring.
    UnexpectedEvent,
}

/// What the outside world hands to an agent: the call to begin, or what
/// came of the action that the agent asked for last.
#[derive(Debug, PartialEq, Eq)]
pub enum Event {
    /// The agent is asked to run.
    Begin,
    /// The action was carried out and brings nothing back.
    Done,
    /// The action brought a text: a reply, the contents of a file, an
    /// identifier, a typed line.
    Text(String),
    /// The action failed, for the reason given.
    Failed(String),
    /// The answer to the question whether generated code may run.
    Confirmed(bool),
    /// The build ended, with what it wrote to its error stream.
    Built { success: bool, diagnostics: String },
    /// The service answered a probe with this HTTP status.
    Status(u16),
    /// The route schema was read.
    Routes(Vec<Route>),
}

/// An `Event` as plain values.
pub enum EventView {
    Begin,
    Done,
    Text(Seq<char>),
    Failed(Seq<char>),
    Confirmed(bool),
    Built { success: bool, diagnostics: Seq<char> },
    Status(u16),
    Routes(Seq<RouteView>),
}

impl View for Event {
    type V = EventView;

    open spec fn view(&self) -> EventView {
        match self {
            Event::Begin => EventView::Begin,
            Event::Done => EventView::Done,
            Event::Text(text) => EventView::Text(text@),
            Event::Failed(reason) => EventView::Failed(reason@),
            Event::Confirmed(yes) => EventView::Confirmed(*yes),
            Event::Built { success, diagnostics } => EventView::Built {
                success: *success,
                diagnostics: diagnostics@,
            },
            Event::Status(code) => EventView::Status(*code),
            Event::Routes(found) => EventView::Routes(routes(found@)),
        }
    }
}

/// What an agent asks the outside world to do next. Each action but the
/// last three is answered by one `Event`.
#[derive(Debug, PartialEq, Eq)]
pub enum Action {
    /// Send the message to the gateway; answered by `Text` or `Failed`.
    AskGateway(Message),
    /// Open a persistent assistant; answered by `Text` with its identifier,
    /// or by `Failed`.
    CreateAssistant { name: String, instructions: String },
    /// Open a conversation with the assistant; answered by `Text` with the
    /// identifier of the thread, or by `Failed`.
    OpenThread { assistant_id: String, message: Message },
    /// Post the message to the conversation; answered by `Text` or `Failed`.
    PostMessage { assistant_id: String, thread_id: String, message: Message },
    /// Read the code template; answered by `Text`.
    ReadTemplate,
    /// Read the source that was generated last; answered by `Text`.
    ReadSource,
    /// Replace the generated source by this text; answered by `Done`.
    SaveSource(String),
    /// Replace the route schema by this text; answered by `Done`.
    SaveSchema(String),
    /// Read the routes out of this schema; answered by `Routes`, or by
    /// `Failed` where the text is no list of routes.
    DecodeRoutes(String),
    /// Ask whether generated code may run; answered by `Confirmed`.
    Confirm,
    /// Build the generated project; answered by `Built`.
    Build,
    /// Start the built service in the background; answered by `Done`.
    Launch,
    /// Wait for the service to come up; answered by `Done`.
    WarmUp { seconds: u64 },
    /// Get this address once; answered by `Status`, or by `Failed` where no
    /// answer came.
    Probe { url: String, timeout_seconds: u64 },
    /// Stop the service that was launched; answered by `Done`.
    Terminate,
    /// Ask the customer for the next turn; answered by `Text`.
    AskUser(String),
    /// The agent has done what it can: control goes back to the caller.
    Complete,
    /// The session is over.
    EndSession,
    /// The whole run stops here.
    Halt(FatalError),
}

/// An `Action` as plain values.
pub enum ActionView {
    AskGateway(MessageView),
    CreateAssistant { name: Seq<char>, instructions: Seq<char> },
    OpenThread { assistant_id: Seq<char>, message: MessageView },
    PostMessage { assistant_id: Seq<char>, thread_id: Seq<char>, message: MessageView },
    ReadTemplate,
    ReadSource,
    SaveSource(Seq<char>),
    SaveSchema(Seq<char>),
    DecodeRoutes(Seq<char>),
    Confirm,
    Build,
    Launch,
    WarmUp { seconds: u64 },
    Probe { url: Seq<char>, timeout_seconds: u64 },
    Terminate,
    AskUser(Seq<char>),
    Complete,
    EndSession,
    Halt(FatalError),
}

impl View for Action {
    type V = ActionView;

    open spec fn view(&self) -> ActionView {
        match self {
            Action::AskGateway(message) => ActionView::AskGateway(message@),
            Action::CreateAssistant { name, instructions } => ActionView::CreateAssistant {
                name: name@,
                instructions: instructions@,
            },
            Action::OpenThread { assistant_id, message } => ActionView::OpenThread {
                assistant_id: assistant_id@,
                message: message@,
            },
            Action::PostMessage { assistant_id, thread_id, message } => ActionView::PostMessage {
                assistant_id: assistant_id@,
                thread_id: thread_id@,
                message: message@,
            },
            Action::ReadTemplate => ActionView::ReadTemplate,
            Action::ReadSource => ActionView::ReadSource,
            Action::SaveSource(code) => ActionView::SaveSource(code@),
            Action::SaveSchema(schema) => ActionView::SaveSchema(schema@),
            Action::DecodeRoutes(schema) => ActionView::DecodeRoutes(schema@),
            Action::Confirm => ActionView::Confirm,
            Action::Build => ActionView::Build,
            Action::Launch => ActionView::Launch,
            Action::WarmUp { seconds } => ActionView::WarmUp { seconds: *seconds },
            Action::Probe { url, timeout_seconds } => ActionView::Probe {
                url: url@,
                timeout_seconds: *timeout_seconds,
            },
            Action::Terminate => ActionView::Terminate,
            Action::AskUser(question) => ActionView::AskUser(question@),
            Action::Complete => ActionView::Complete,
            Action::EndSession => ActionView::EndSession,
            Action::Halt(reason) => ActionView::Halt(*reason),
        }
    }
}

impl ActionView {
    /// Whether the action ends the run of the agent that gave it: no event
    /// answers it.
    pub open spec fn is_final(self) -> bool {
        self is Complete || self is EndSession || self is Halt
    }
}

/// A status line that an agent wants shown before its action is carried out.
#[derive(Debug, PartialEq, Eq)]
pub struct Notice {
    pub level: CLIPrint,
    pub role: String,
    pub message: String,
}

/// A `Notice` as plain values.
pub struct NoticeView {
    pub level: CLIPrint,
    pub role: Seq<char>,
    pub message: Seq<char>,
}

impl View for Notice {
    type V = NoticeView;

    open spec fn view(&self) -> NoticeView {
        NoticeView { level: self.level, role: self.role@, message: self.message@ }
    }
}

/// The views of a list of notices, in order.
pub open spec fn notices(items: Seq<Notice>) -> Seq<NoticeView> {
    Seq::new(items.len(), |i: int| items[i]@)
}

/// What an agent hands back from one call: the lines to show, then the
/// action to carry out.
#[derive(Debug, PartialEq, Eq)]
pub struct Step {
    pub notices: Vec<Notice>,
    pub action: Action,
}

/// A `Step` as plain values.
pub struct StepView {
    pub notices: Seq<NoticeView>,
    pub action: ActionView,
}

impl View for Step {
    type V = StepView;

    open spec fn view(&self) -> StepView {
        StepView { notices: notices(self.notices@), action: self.action@ }
    }
}

impl StepView {
    /// A step that shows nothing.
    pub open spec fn silent(action: ActionView) -> StepView {
        StepView { notices: Seq::empty(), action }
    }

    /// A step that shows one line.
    pub open spec fn saying(notice: NoticeView, action: ActionView) -> StepView {
        StepView { notices: seq![notice], action }
    }
}

/// What one call of an agent comes to: the agent and the case after it, and
/// the step that the agent hands back.
pub struct Turn<A> {
    pub agent: A,
    pub case: SupportCaseView,
    pub step: StepView,
}

/// One entry in the record of a run: what came in, and when.
pub struct Arrival {
    pub event: EventView,
    pub now: i64,
}

impl Action {
    /// Whether the action ends the run of the agent that gave it.
    pub fn is_final(&self) -> (last: bool)
        ensures
            last == self@.is_final(),
    {
        match self {
            Action::Complete => true,
            Action::EndSession => true,
            Action::Halt(_) => true,
            _ => false,
        }
    }
}

impl Step {
    /// A step that shows nothing.
    pub fn silent(action: Action) -> (step: Step)
        ensures
            step@ == StepView::silent(action@),
    {
        let step = Step { notices: Vec::new(), action };
        assert(step@.notices =~= Seq::empty());
        step
    }

    /// A step that shows one line.
    pub fn saying(notice: Notice, action: Action) -> (step: Step)
        ensures
            step@ == StepView::saying(notice@, action@),
    {
        let mut lines: Vec<Notice> = Vec::new();
        lines.push(notice);
        let step = Step { notices: lines, action };
        assert(step@.notices =~= seq![notice@]);
        step
    }

    /// A step that shows the lines given.
    pub fn showing(lines: Vec<Notice>, action: Action) -> (step: Step)
        ensures
            step@ == (StepView { notices: notices(lines@), action: action@ }),
    {
        Step { notices: lines, action }
    }
}

/// Puts the lines of `second` behind those of `first`.
pub fn join_notices(first: Vec<Notice>, second: Vec<Notice>) -> (all: Vec<Notice>)
    ensures
        notices(all@) == notices(first@) + notices(second@),
{
    let mut all = first;
    let mut rest = second;
    all.append(&mut rest);
    assert(notices(all@) =~= notices(first@) + notices(second@));
    all
}

/// Adds a line to the lines to show.
pub fn add_notice(lines: &mut Vec<Notice>, notice: Notice)
    ensures
        notices(final(lines)@) == notices(old(lines)@).push(notice@),
{
    lines.push(notice);
    assert(notices(final(lines)@) =~= notices(old(lines)@).push(notice@));
}

} // verus!
