use crate::helpers::command_line::CLIPrint;
use crate::helpers::request::{prepare_message, prepared};
use crate::models::agents::agent_texts::{QUERY_OBJECTIVE, QUERY_ROLE};
use crate::models::agents_common::common_agent::{AgentState, CommonAgent, CommonAgentView};
use crate::models::agents_common::lines::{error_line, line, say, say_about, say_error, with_optional};
use crate::models::agents_common::protocol::{
    add_notice, notices, Action, ActionView, Event, EventView, FatalError, Notice, NoticeView,
    Step, StepView, Turn,
};
use crate::models::ai::chatgpt::{Message, MessageView};
use crate::models::general::support_case::{clock_millis, SupportCase, SupportCaseView};
use vstd::prelude::*;
use vstd::string::*;

verus! {

/// The agent that gives a customer a first answer before the rest of the
/// team takes over.
#[derive(Debug)]
pub struct AgentCustomerQuery {
    common: CommonAgent,
}

impl View for AgentCustomerQuery {
    type V = CommonAgentView;

    closed spec fn view(&self) -> CommonAgentView {
        self.common@
    }
}

/// The query agent before its first call.
pub open spec fn query_fresh() -> CommonAgentView {
    CommonAgentView::fresh(QUERY_ROLE@, QUERY_OBJECTIVE@)
}

/// The line that shows the response of the case, where it has one.
pub open spec fn response_line(role: Seq<char>, response: Option<Seq<char>>) -> Option<NoticeView> {
    match response {
        Some(text) => Some(line(CLIPrint::Default, role, text)),
        None => None,
    }
}

/// What the query agent does when it is asked to run.
pub open spec fn query_begin(agent: CommonAgentView, case: SupportCaseView, now: i64) -> Turn<
    CommonAgentView,
> {
    if agent.state == AgentState::Waiting {
        let request = prepared(agent.objective, case.support_context, case.customer_query);
        Turn {
            agent: agent.moved_to(AgentState::Working),
            case: case.traced_at(request, now),
            step: StepView::saying(
                line(CLIPrint::Info, agent.role, "Handling initial query: "@ + case.customer_query),
                ActionView::AskGateway(request),
            ),
        }
    } else {
        let failure = if agent.state == AgentState::Error {
            seq![error_line(agent.role, case.support_response)]
        } else {
            Seq::empty()
        };
        Turn {
            agent: agent.moved_to(AgentState::Finished),
            case,
            step: StepView {
                notices: with_optional(failure, response_line(agent.role, case.support_response)),
                action: ActionView::Complete,
            },
        }
    }
}

/// What the query agent does with the answer of the gateway: a reply is
/// the response of the case and the last entry of its trace; a failure is
/// the response too, and is reported.
pub open spec fn query_settle(
    agent: CommonAgentView,
    case: SupportCaseView,
    event: EventView,
    now: i64,
) -> Turn<CommonAgentView> {
    match event {
        EventView::Text(reply) => Turn {
            agent: agent.moved_to(AgentState::Finished),
            case: (SupportCaseView { support_response: Some(reply), ..case }).traced_at(
                MessageView { role: "assistant"@, content: reply },
                now,
            ),
            step: StepView::saying(line(CLIPrint::Default, agent.role, reply), ActionView::Complete),
        },
        EventView::Failed(reason) => Turn {
            agent: agent.moved_to(AgentState::Finished),
            case: (SupportCaseView { support_response: Some(reason), ..case }).touched(now),
            step: StepView {
                notices: seq![
                    error_line(agent.role, Some(reason)),
                    line(CLIPrint::Default, agent.role, reason),
                ],
                action: ActionView::Complete,
            },
        },
        _ => Turn {
            agent,
            case,
            step: StepView::silent(ActionView::Halt(FatalError::UnexpectedEvent)),
        },
    }
}

/// The query agent, the case and the step after `event` came in at the
/// time `now`.
pub open spec fn query_next(
    agent: CommonAgentView,
    case: SupportCaseView,
    event: EventView,
    now: i64,
) -> Turn<CommonAgentView> {
    if agent.state == AgentState::Working {
        query_settle(agent, case, event, now)
    } else {
        match event {
            EventView::Begin => query_begin(agent, case, now),
            _ => Turn {
                agent,
                case,
                step: StepView::silent(ActionView::Halt(FatalError::UnexpectedEvent)),
            },
        }
    }
}

/// Whatever comes in, the case stays the same case: its trace only grows,
/// and its time of update does not go back nor fall before its time of
/// creation.
pub proof fn lemma_query_continues_case(
    agent: CommonAgentView,
    case: SupportCaseView,
    event: EventView,
    now: i64,
)
    ensures
        query_next(agent, case, event, now).case.continues(case),
        case.well_formed() ==> query_next(agent, case, event, now).case.well_formed(),
{
}

impl AgentCustomerQuery {
    /// The query agent before its first call.
    pub fn new() -> (agent: AgentCustomerQuery)
        ensures
            agent@ == query_fresh(),
    {
        let common = CommonAgent {
            role: String::from_str(QUERY_ROLE),
            objective: String::from_str(QUERY_OBJECTIVE),
            state: AgentState::Waiting,
            memory: Vec::new(),
            assistant_id: None,
            thread_id: None,
        };
        assert(common@.memory =~= Seq::empty());
        AgentCustomerQuery { common }
    }

    /// What the agent has in common with every agent.
    pub fn get_common_from_agent(&self) -> (common: &CommonAgent)
        ensures
            common@ == self@,
    {
        &self.common
    }

    /// Notes the assistant under which the agent talks to the gateway.
    pub fn set_assistant_id(&mut self, id: String)
        ensures
            final(self)@ == (CommonAgentView { assistant_id: Some(id@), ..old(self)@ }),
    {
        self.common.assistant_id = Some(id);
    }

    /// Asks the gateway for a first answer to the query, or, where the
    /// agent is not waiting, shows the answer that the case has.
    pub fn handle_initial_query(&mut self, support_case: &mut SupportCase, now: i64) -> (step: Step)
        ensures
            (Turn { agent: final(self)@, case: final(support_case)@, step: step@ }) == query_begin(
                old(self)@,
                old(support_case)@,
                now,
            ),
    {
        match self.common.state {
            AgentState::Waiting => {
                let request = prepare_message(
                    self.common.objective.as_str(),
                    support_case.support_context.as_str(),
                    support_case.customer_query.as_str(),
                );
                let notice = say_about(
                    CLIPrint::Info,
                    &self.common.role,
                    "Handling initial query: ",
                    support_case.customer_query.as_str(),
                );
                self.common.state = AgentState::Working;
                support_case.record_at(request.clone(), now);
                Step::saying(notice, Action::AskGateway(request))
            },
            state => {
                let mut lines: Vec<Notice> = Vec::new();
                assert(notices(lines@) =~= Seq::empty());
                if state == AgentState::Error {
                    let notice = say_error(&self.common.role, &support_case.support_response);
                    add_notice(&mut lines, notice);
                    assert(notices(lines@) =~= seq![notice@]);
                }
                match &support_case.support_response {
                    Some(text) => {
                        let notice = say(CLIPrint::Default, &self.common.role, text.as_str());
                        add_notice(&mut lines, notice);
                    },
                    None => {},
                }
                self.common.state = AgentState::Finished;
                Step::showing(lines, Action::Complete)
            },
        }
    }

    fn settle(&mut self, case: &mut SupportCase, event: Event, now: i64) -> (step: Step)
        ensures
            (Turn { agent: final(self)@, case: final(case)@, step: step@ }) == query_settle(
                old(self)@,
                old(case)@,
                event@,
                now,
            ),
    {
        match event {
            Event::Text(reply) => {
                let notice = say(CLIPrint::Default, &self.common.role, reply.as_str());
                case.support_response = Some(reply.clone());
                case.record_at(Message { role: String::from_str("assistant"), content: reply }, now);
                self.common.state = AgentState::Finished;
                Step::saying(notice, Action::Complete)
            },
            Event::Failed(reason) => {
                let mut lines: Vec<Notice> = Vec::new();
                assert(notices(lines@) =~= Seq::empty());
                let shown = say(CLIPrint::Default, &self.common.role, reason.as_str());
                case.support_response = Some(reason);
                case.touch(now);
                let failure = say_error(&self.common.role, &case.support_response);
                add_notice(&mut lines, failure);
                add_notice(&mut lines, shown);
                assert(notices(lines@) =~= seq![failure@, shown@]);
                self.common.state = AgentState::Finished;
                Step::showing(lines, Action::Complete)
            },
            _ => Step::silent(Action::Halt(FatalError::UnexpectedEvent)),
        }
    }

    /// Takes `event`, which came in at the time `now`, and says what is to be
    /// done next.
    pub fn execute_at(&mut self, case: &mut SupportCase, event: Event, now: i64) -> (step: Step)
        ensures
            (Turn { agent: final(self)@, case: final(case)@, step: step@ }) == query_next(
                old(self)@,
                old(case)@,
                event@,
                now,
            ),
            final(case)@.continues(old(case)@),
            old(case)@.well_formed() ==> final(case)@.well_formed(),
    {
        if self.common.state == AgentState::Working {
            self.settle(case, event, now)
        } else {
            match event {
                Event::Begin => self.handle_initial_query(case, now),
                _ => Step::silent(Action::Halt(FatalError::UnexpectedEvent)),
            }
        }
    }

    /// Takes `event` and says what is to be done next, as `execute_at` does
    /// for the time that the clock shows.
    pub fn execute(&mut self, case: &mut SupportCase, event: Event) -> (step: Step)
        ensures
            exists|now: i64|
                (Turn { agent: final(self)@, case: final(case)@, step: step@ })
                    == #[trigger] query_next(old(self)@, old(case)@, event@, now),
            final(case)@.continues(old(case)@),
            old(case)@.well_formed() ==> final(case)@.well_formed(),
    {
        let now: i64 = clock_millis();
        self.execute_at(case, event, now)
    }
}

} // verus!
