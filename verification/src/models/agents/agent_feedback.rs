use crate::helpers::command_line::CLIPrint;
use crate::helpers::request::{prepare_message, prepared};
use crate::helpers::text::optional_text;
use crate::models::agents::agent_texts::{FEEDBACK_OBJECTIVE, FEEDBACK_ROLE};
use crate::models::agents_common::common_agent::{AgentState, CommonAgent, CommonAgentView};
use crate::models::agents_common::lines::{error_line, line, say, say_error, with_optional};
use crate::models::agents_common::protocol::{
    add_notice, notices, Action, ActionView, Event, EventView, FatalError, Notice, NoticeView,
    Step, StepView, Turn,
};
use crate::models::ai::chatgpt::{Message, MessageView};
use crate::models::general::support_case::{
    clock_millis, history_text, SupportCase, SupportCaseView,
};
use vstd::prelude::*;
use vstd::string::*;

verus! {

/// What the feedback agent is waiting for.
#[derive(Debug, Clone, Copy, PartialEq, Eq, Structural)]
pub enum FeedbackPending {
    /// Nothing: the agent can be asked to run.
    Nothing,
    /// The identifier of the assistant that is being opened.
    Assistant,
    /// The identifier of the conversation that is being opened.
    Thread,
    /// The reply to the message that was posted.
    Reply,
}

/// The agent that listens to feedback and complaints. It talks to the
/// gateway in one persistent conversation, which it opens on its first run.
#[derive(Debug)]
pub struct AgentFeedback {
    common: CommonAgent,
    pending: FeedbackPending,
}

/// An `AgentFeedback` as plain values.
pub struct FeedbackView {
    pub common: CommonAgentView,
    pub pending: FeedbackPending,
}

impl View for AgentFeedback {
    type V = FeedbackView;

    closed spec fn view(&self) -> FeedbackView {
        FeedbackView { common: self.common@, pending: self.pending }
    }
}

/// What is posted to the conversation: the query, and the trace of the
/// case so far.
pub open spec fn feedback_body(case: SupportCaseView) -> Seq<char> {
    case.customer_query + " CHAT HISTORY: "@ + history_text(case.trace)
}

/// The line that shows the response of the case, where it has one.
pub open spec fn heard_line(role: Seq<char>, response: Option<Seq<char>>) -> Option<NoticeView> {
    match response {
        Some(text) => Some(line(CLIPrint::Info, role, text)),
        None => None,
    }
}

impl FeedbackView {
    /// The feedback agent before its first call.
    pub open spec fn fresh() -> FeedbackView {
        FeedbackView {
            common: CommonAgentView::fresh(FEEDBACK_ROLE@, FEEDBACK_OBJECTIVE@),
            pending: FeedbackPending::Nothing,
        }
    }

    /// The agent in the state `state`, waiting for `pending`.
    pub open spec fn moved(self, state: AgentState, pending: FeedbackPending) -> FeedbackView {
        FeedbackView { common: self.common.moved_to(state), pending }
    }

    /// An event that the pending action cannot bring: nothing changes and
    /// the run stops.
    pub open spec fn refuse(self, case: SupportCaseView) -> Turn<FeedbackView> {
        Turn {
            agent: self,
            case,
            step: StepView::silent(ActionView::Halt(FatalError::UnexpectedEvent)),
        }
    }

    /// A failure of the gateway: it becomes the response of the case and
    /// is reported, and the agent waits again.
    pub open spec fn fail(self, case: SupportCaseView, reason: Seq<char>, now: i64) -> Turn<
        FeedbackView,
    > {
        Turn {
            agent: self.moved(AgentState::Waiting, FeedbackPending::Nothing),
            case: (SupportCaseView { support_response: Some(reason), ..case }).touched(now),
            step: StepView {
                notices: seq![
                    error_line(self.common.role, Some(reason)),
                    line(CLIPrint::Info, self.common.role, reason),
                ],
                action: ActionView::Complete,
            },
        }
    }

    /// The conversation with the assistant `assistant` is opened with the
    /// query of the case.
    pub open spec fn open_thread(self, case: SupportCaseView, assistant: Seq<char>) -> Turn<
        FeedbackView,
    > {
        Turn {
            agent: FeedbackView { pending: FeedbackPending::Thread, ..self },
            case,
            step: StepView::silent(
                ActionView::OpenThread {
                    assistant_id: assistant,
                    message: MessageView { role: "user"@, content: case.customer_query },
                },
            ),
        }
    }

    /// The query is posted to the conversation `thread` with the assistant
    /// `assistant`, or, where the agent is not waiting, the response that the
    /// case has is shown.
    pub open spec fn post(
        self,
        case: SupportCaseView,
        assistant: Seq<char>,
        thread: Seq<char>,
        now: i64,
    ) -> Turn<FeedbackView> {
        if self.common.state == AgentState::Waiting {
            let message = prepared(self.common.objective, case.support_context, feedback_body(case));
            Turn {
                agent: self.moved(AgentState::Working, FeedbackPending::Reply),
                case: case.traced_at(message, now),
                step: StepView::saying(
                    line(CLIPrint::Info, self.common.role, "Handling Feedback and Complaints"@),
                    ActionView::PostMessage { assistant_id: assistant, thread_id: thread, message },
                ),
            }
        } else {
            let failure = if self.common.state == AgentState::Error {
                seq![error_line(self.common.role, case.support_response)]
            } else {
                Seq::empty()
            };
            Turn {
                agent: self.moved(AgentState::Waiting, FeedbackPending::Nothing),
                case,
                step: StepView {
                    notices: with_optional(
                        failure,
                        heard_line(self.common.role, case.support_response),
                    ),
                    action: ActionView::Complete,
                },
            }
        }
    }

    /// What the agent does when it is asked to run: it opens what is
    /// missing of its session, then posts the query.
    pub open spec fn begin(self, case: SupportCaseView, now: i64) -> Turn<FeedbackView> {
        match self.common.assistant_id {
            None => Turn {
                agent: FeedbackView { pending: FeedbackPending::Assistant, ..self },
                case,
                step: StepView::saying(
                    line(CLIPrint::Info, self.common.role, "Initializing assistant..."@),
                    ActionView::CreateAssistant {
                        name: self.common.role,
                        instructions: self.common.objective,
                    },
                ),
            },
            Some(assistant) => match self.common.thread_id {
                None => self.open_thread(case, assistant),
                Some(thread) => self.post(case, assistant, thread, now),
            },
        }
    }

    /// The agent, the case and the step after `event` came in at the time
    /// `now`.
    pub open spec fn next(self, case: SupportCaseView, event: EventView, now: i64) -> Turn<
        FeedbackView,
    > {
        match self.pending {
            FeedbackPending::Nothing => match event {
                EventView::Begin => self.begin(case, now),
                _ => self.refuse(case),
            },
            FeedbackPending::Assistant => match event {
                EventView::Text(id) => (FeedbackView {
                    common: CommonAgentView { assistant_id: Some(id), ..self.common },
                    ..self
                }).open_thread(case, id),
                EventView::Failed(reason) => self.fail(case, reason, now),
                _ => self.refuse(case),
            },
            FeedbackPending::Thread => match event {
                EventView::Text(id) => match self.common.assistant_id {
                    Some(assistant) => (FeedbackView {
                        common: CommonAgentView { thread_id: Some(id), ..self.common },
                        ..self
                    }).post(case, assistant, id, now),
                    None => self.refuse(case),
                },
                EventView::Failed(reason) => self.fail(case, reason, now),
                _ => self.refuse(case),
            },
            FeedbackPending::Reply => match event {
                EventView::Text(reply) => Turn {
                    agent: self.moved(AgentState::Waiting, FeedbackPending::Nothing),
                    case: (SupportCaseView { support_response: Some(reply), ..case }).touched(now),
                    step: StepView::saying(
                        line(CLIPrint::Info, self.common.role, reply),
                        ActionView::Complete,
                    ),
                },
                EventView::Failed(reason) => self.fail(case, reason, now),
                _ => self.refuse(case),
            },
        }
    }
}

/// Whatever comes in, the case stays the same case: its trace only grows,
/// and its time of update does not go back nor fall before its time of
/// creation.
pub proof fn lemma_feedback_continues_case(
    agent: FeedbackView,
    case: SupportCaseView,
    event: EventView,
    now: i64,
)
    ensures
        agent.next(case, event, now).case.continues(case),
        case.well_formed() ==> agent.next(case, event, now).case.well_formed(),
{
}

impl AgentFeedback {
    /// The feedback agent before its first call.
    pub fn new() -> (agent: AgentFeedback)
        ensures
            agent@ == FeedbackView::fresh(),
    {
        let common = CommonAgent {
            role: String::from_str(FEEDBACK_ROLE),
            objective: String::from_str(FEEDBACK_OBJECTIVE),
            state: AgentState::Waiting,
            memory: Vec::new(),
            assistant_id: None,
            thread_id: None,
        };
        assert(common@.memory =~= Seq::empty());
        AgentFeedback { common, pending: FeedbackPending::Nothing }
    }

    /// What the agent has in common with every agent.
    pub fn get_common_from_agent(&self) -> (common: &CommonAgent)
        ensures
            common@ == self@.common,
    {
        &self.common
    }

    /// Notes the assistant under which the agent talks to the gateway.
    pub fn set_assistant_id(&mut self, id: String)
        ensures
            final(self)@ == (FeedbackView {
                common: CommonAgentView { assistant_id: Some(id@), ..old(self)@.common },
                ..old(self)@
            }),
    {
        self.common.assistant_id = Some(id);
    }

    fn fail(&mut self, case: &mut SupportCase, reason: String, now: i64) -> (step: Step)
        ensures
            (Turn { agent: final(self)@, case: final(case)@, step: step@ }) == old(self)@.fail(
                old(case)@,
                reason@,
                now,
            ),
    {
        let mut lines: Vec<Notice> = Vec::new();
        assert(notices(lines@) =~= Seq::empty());
        let shown = say(CLIPrint::Info, &self.common.role, reason.as_str());
        case.support_response = Some(reason);
        case.touch(now);
        let failure = say_error(&self.common.role, &case.support_response);
        add_notice(&mut lines, failure);
        add_notice(&mut lines, shown);
        assert(notices(lines@) =~= seq![failure@, shown@]);
        self.common.state = AgentState::Waiting;
        self.pending = FeedbackPending::Nothing;
        Step::showing(lines, Action::Complete)
    }

    fn open_thread(&mut self, case: &SupportCase, assistant: String) -> (step: Step)
        ensures
            (Turn { agent: final(self)@, case: case@, step: step@ }) == old(self)@.open_thread(
                case@,
                assistant@,
            ),
    {
        self.pending = FeedbackPending::Thread;
        Step::silent(
            Action::OpenThread {
                assistant_id: assistant,
                message: Message {
                    role: String::from_str("user"),
                    content: case.customer_query.clone(),
                },
            },
        )
    }

    /// Posts the query and the trace of the case to the conversation, or,
    /// where the agent is not waiting, shows the response that the case has.
    pub fn handle_feedback(
        &mut self,
        support_case: &mut SupportCase,
        assistant: String,
        thread: String,
        now: i64,
    ) -> (step: Step)
        ensures
            (Turn { agent: final(self)@, case: final(support_case)@, step: step@ }) == old(
                self,
            )@.post(old(support_case)@, assistant@, thread@, now),
    {
        match self.common.state {
            AgentState::Waiting => {
                let mut body = support_case.customer_query.clone();
                body.append(" CHAT HISTORY: ");
                body.append(support_case.get_history().as_str());
                let message = prepare_message(
                    self.common.objective.as_str(),
                    support_case.support_context.as_str(),
                    body.as_str(),
                );
                let notice = say(
                    CLIPrint::Info,
                    &self.common.role,
                    "Handling Feedback and Complaints",
                );
                self.common.state = AgentState::Working;
                self.pending = FeedbackPending::Reply;
                support_case.record_at(message.clone(), now);
                Step::saying(
                    notice,
                    Action::PostMessage { assistant_id: assistant, thread_id: thread, message },
                )
            },
            state => {
                let mut lines: Vec<Notice> = Vec::new();
                assert(notices(lines@) =~= Seq::empty());
                if state == AgentState::Error {
                    let notice = say_error(&self.common.role, &support_case.support_response);
                    add_notice(&mut lines, notice);
                    assert(notices(lines@) =~= seq![notice@]);
                }
                match &support_case.support_response {
                    Some(text) => {
                        let notice = say(CLIPrint::Info, &self.common.role, text.as_str());
                        add_notice(&mut lines, notice);
                    },
                    None => {},
                }
                self.common.state = AgentState::Waiting;
                self.pending = FeedbackPending::Nothing;
                Step::showing(lines, Action::Complete)
            },
        }
    }

    fn begin(&mut self, case: &mut SupportCase, now: i64) -> (step: Step)
        ensures
            (Turn { agent: final(self)@, case: final(case)@, step: step@ }) == old(self)@.begin(
                old(case)@,
                now,
            ),
    {
        let assistant = match &self.common.assistant_id {
            Some(id) => Some(id.clone()),
            None => None,
        };
        let thread = match &self.common.thread_id {
            Some(id) => Some(id.clone()),
            None => None,
        };
        match assistant {
            None => {
                let notice = say(CLIPrint::Info, &self.common.role, "Initializing assistant...");
                let name = self.common.role.clone();
                let instructions = self.common.objective.clone();
                self.pending = FeedbackPending::Assistant;
                Step::saying(notice, Action::CreateAssistant { name, instructions })
            },
            Some(assistant) => match thread {
                None => self.open_thread(case, assistant),
                Some(thread) => self.handle_feedback(case, assistant, thread, now),
            },
        }
    }

    /// Takes `event`, which came in at the time `now`, and says what is to be
    /// done next.
    pub fn execute_at(&mut self, case: &mut SupportCase, event: Event, now: i64) -> (step: Step)
        ensures
            (Turn { agent: final(self)@, case: final(case)@, step: step@ }) == old(self)@.next(
                old(case)@,
                event@,
                now,
            ),
            final(case)@.continues(old(case)@),
            old(case)@.well_formed() ==> final(case)@.well_formed(),
    {
        match self.pending {
            FeedbackPending::Nothing => match event {
                Event::Begin => self.begin(case, now),
                _ => Step::silent(Action::Halt(FatalError::UnexpectedEvent)),
            },
            FeedbackPending::Assistant => match event {
                Event::Text(id) => {
                    self.common.assistant_id = Some(id.clone());
                    self.open_thread(case, id)
                },
                Event::Failed(reason) => self.fail(case, reason, now),
                _ => Step::silent(Action::Halt(FatalError::UnexpectedEvent)),
            },
            FeedbackPending::Thread => match event {
                Event::Text(id) => {
                    let assistant = match &self.common.assistant_id {
                        Some(held) => Some(held.clone()),
                        None => None,
                    };
                    match assistant {
                        Some(assistant) => {
                            self.common.thread_id = Some(id.clone());
                            self.handle_feedback(case, assistant, id, now)
                        },
                        None => Step::silent(Action::Halt(FatalError::UnexpectedEvent)),
                    }
                },
                Event::Failed(reason) => self.fail(case, reason, now),
                _ => Step::silent(Action::Halt(FatalError::UnexpectedEvent)),
            },
            FeedbackPending::Reply => match event {
                Event::Text(reply) => {
                    let notice = say(CLIPrint::Info, &self.common.role, reply.as_str());
                    case.support_response = Some(reply);
                    case.touch(now);
                    self.common.state = AgentState::Waiting;
                    self.pending = FeedbackPending::Nothing;
                    Step::saying(notice, Action::Complete)
                },
                Event::Failed(reason) => self.fail(case, reason, now),
                _ => Step::silent(Action::Halt(FatalError::UnexpectedEvent)),
            },
        }
    }

    /// Takes `event` and says what is to be done next, as `execute_at` does
    /// for the time that the clock shows.
    pub fn execute(&mut self, case: &mut SupportCase, event: Event) -> (step: Step)
        ensures
            exists|now: i64|
                (Turn { agent: final(self)@, case: final(case)@, step: step@ }) == #[trigger] old(
                    self,
                )@.next(old(case)@, event@, now),
            final(case)@.continues(old(case)@),
            old(case)@.well_formed() ==> final(case)@.well_formed(),
    {
        let now: i64 = clock_millis();
        self.execute_at(case, event, now)
    }
}

impl Default for AgentFeedback {
    fn default() -> (agent: AgentFeedback)
        ensures
            agent@ == FeedbackView::fresh(),
    {
        AgentFeedback::new()
    }
}

} // verus!
