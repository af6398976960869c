use crate::helpers::command_line::CLIPrint;
use crate::helpers::request::{prepare_message, prepared};
use crate::models::agents::agent_texts::{INTENT_OBJECTIVE, INTENT_ROLE};
use crate::models::agents_common::common_agent::{AgentState, CommonAgent, CommonAgentView};
use crate::models::agents_common::lines::{error_line, line, say, say_about, say_error, with_optional};
use crate::models::agents_common::protocol::{
    add_notice, notices, Action, ActionView, Event, EventView, FatalError, Notice, NoticeView,
    Step, StepView, Turn,
};
use crate::models::general::support_case::{clock_millis, SupportCase, SupportCaseView};
use vstd::prelude::*;
use vstd::string::*;

verus! {

/// The agent that finds out what a query is about. It asks the gateway
/// once and writes the answer into the case as the category of intent.
#[derive(Debug)]
pub struct AgentIntent {
    common: CommonAgent,
}

impl View for AgentIntent {
    type V = CommonAgentView;

    closed spec fn view(&self) -> CommonAgentView {
        self.common@
    }
}

/// The line that tells the category, where the case has one.
pub open spec fn classified_line(role: Seq<char>, category: Option<Seq<char>>) -> Option<
    NoticeView,
> {
    match category {
        Some(found) => Some(line(CLIPrint::Info, role, "Intent classified as: "@ + found)),
        None => None,
    }
}

/// The intent agent before its first call.
pub open spec fn intent_fresh() -> CommonAgentView {
    CommonAgentView::fresh(INTENT_ROLE@, INTENT_OBJECTIVE@)
}

/// What the intent agent does when it is asked to run.
pub open spec fn intent_begin(agent: CommonAgentView, case: SupportCaseView, now: i64) -> Turn<
    CommonAgentView,
> {
    if agent.state == AgentState::Waiting {
        let request = prepared(agent.objective, case.support_context, case.customer_query);
        Turn {
            agent: agent.moved_to(AgentState::Working),
            case: case.traced_at(request, now),
            step: StepView::saying(
                line(CLIPrint::Info, agent.role, "Analyzing intent from: "@ + case.customer_query),
                ActionView::AskGateway(request),
            ),
        }
    } else {
        let failure = if agent.state == AgentState::Error {
            seq![error_line(agent.role, case.support_response)]
        } else {
            Seq::empty()
        };
        Turn {
            agent: agent.moved_to(AgentState::Waiting),
            case,
            step: StepView {
                notices: with_optional(failure, classified_line(agent.role, case.intent_category)),
                action: ActionView::Complete,
            },
        }
    }
}

/// What the intent agent does with the answer of the gateway.
pub open spec fn intent_settle(
    agent: CommonAgentView,
    case: SupportCaseView,
    event: EventView,
    now: i64,
) -> Turn<CommonAgentView> {
    match event {
        EventView::Text(reply) => Turn {
            agent: agent.moved_to(AgentState::Waiting),
            case: (SupportCaseView { intent_category: Some(reply), ..case }).touched(now),
            step: StepView {
                notices: with_optional(Seq::empty(), classified_line(agent.role, Some(reply))),
                action: ActionView::Complete,
            },
        },
        EventView::Failed(reason) => Turn {
            agent: agent.moved_to(AgentState::Waiting),
            case: (SupportCaseView { support_response: Some(reason), ..case }).touched(now),
            step: StepView {
                notices: with_optional(
                    seq![error_line(agent.role, Some(reason))],
                    classified_line(agent.role, case.intent_category),
                ),
                action: ActionView::Complete,
            },
        },
        _ => Turn {
            agent,
            case,
            step: StepView::silent(ActionView::Halt(FatalError::UnexpectedEvent)),
        },
    }
}

/// The intent agent, the case and the step after `event` came in at the
/// time `now`. While the agent works it waits for the gateway; otherwise it
/// can only be asked to run.
pub open spec fn intent_next(
    agent: CommonAgentView,
    case: SupportCaseView,
    event: EventView,
    now: i64,
) -> Turn<CommonAgentView> {
    if agent.state == AgentState::Working {
        intent_settle(agent, case, event, now)
    } else {
        match event {
            EventView::Begin => intent_begin(agent, case, now),
            _ => Turn {
                agent,
                case,
                step: StepView::silent(ActionView::Halt(FatalError::UnexpectedEvent)),
            },
        }
    }
}

/// Whatever comes in, the case stays the same case: its trace only grows,
/// and its time of update does not go back nor fall before its time of
/// creation.
pub proof fn lemma_intent_continues_case(
    agent: CommonAgentView,
    case: SupportCaseView,
    event: EventView,
    now: i64,
)
    ensures
        intent_next(agent, case, event, now).case.continues(case),
        case.well_formed() ==> intent_next(agent, case, event, now).case.well_formed(),
{
}

impl AgentIntent {
    /// The intent agent before its first call.
    pub fn new() -> (agent: AgentIntent)
        ensures
            agent@ == intent_fresh(),
    {
        let common = CommonAgent {
            role: String::from_str(INTENT_ROLE),
            objective: String::from_str(INTENT_OBJECTIVE),
            state: AgentState::Waiting,
            memory: Vec::new(),
            assistant_id: None,
            thread_id: None,
        };
        assert(common@.memory =~= Seq::empty());
        AgentIntent { common }
    }

    /// What the agent has in common with every agent.
    pub fn get_common_from_agent(&self) -> (common: &CommonAgent)
        ensures
            common@ == self@,
    {
        &self.common
    }

    /// Notes the assistant under which the agent talks to the gateway.
    pub fn set_assistant_id(&mut self, id: String)
        ensures
            final(self)@ == (CommonAgentView { assistant_id: Some(id@), ..old(self)@ }),
    {
        self.common.assistant_id = Some(id);
    }

    fn classified(&self, lines: &mut Vec<Notice>, case: &SupportCase)
        ensures
            notices(final(lines)@) == with_optional(
                notices(old(lines)@),
                classified_line(self@.role, case@.intent_category),
            ),
    {
        match &case.intent_category {
            Some(found) => {
                let notice = say_about(
                    CLIPrint::Info,
                    &self.common.role,
                    "Intent classified as: ",
                    found.as_str(),
                );
                add_notice(lines, notice);
            },
            None => {},
        }
    }

    /// Asks the gateway for the intent of the query, or, where the agent
    /// is not waiting, goes back to waiting.
    pub fn classify_intent(&mut self, support_case: &mut SupportCase, now: i64) -> (step: Step)
        ensures
            (Turn { agent: final(self)@, case: final(support_case)@, step: step@ }) == intent_begin(
                old(self)@,
                old(support_case)@,
                now,
            ),
    {
        match self.common.state {
            AgentState::Waiting => {
                let request = prepare_message(
                    self.common.objective.as_str(),
                    support_case.support_context.as_str(),
                    support_case.customer_query.as_str(),
                );
                let notice = say_about(
                    CLIPrint::Info,
                    &self.common.role,
                    "Analyzing intent from: ",
                    support_case.customer_query.as_str(),
                );
                self.common.state = AgentState::Working;
                support_case.record_at(request.clone(), now);
                Step::saying(notice, Action::AskGateway(request))
            },
            state => {
                let mut lines: Vec<Notice> = Vec::new();
                assert(notices(lines@) =~= Seq::empty());
                if state == AgentState::Error {
                    let notice = say_error(&self.common.role, &support_case.support_response);
                    add_notice(&mut lines, notice);
                    assert(notices(lines@) =~= seq![notice@]);
                }
                self.classified(&mut lines, support_case);
                self.common.state = AgentState::Waiting;
                Step::showing(lines, Action::Complete)
            },
        }
    }

    fn settle(&mut self, case: &mut SupportCase, event: Event, now: i64) -> (step: Step)
        ensures
            (Turn { agent: final(self)@, case: final(case)@, step: step@ }) == intent_settle(
                old(self)@,
                old(case)@,
                event@,
                now,
            ),
    {
        match event {
            Event::Text(reply) => {
                case.intent_category = Some(reply);
                case.touch(now);
                let mut lines: Vec<Notice> = Vec::new();
                assert(notices(lines@) =~= Seq::empty());
                self.classified(&mut lines, case);
                self.common.state = AgentState::Waiting;
                Step::showing(lines, Action::Complete)
            },
            Event::Failed(reason) => {
                case.support_response = Some(reason);
                case.touch(now);
                let mut lines: Vec<Notice> = Vec::new();
                assert(notices(lines@) =~= Seq::empty());
                let notice = say_error(&self.common.role, &case.support_response);
                add_notice(&mut lines, notice);
                assert(notices(lines@) =~= seq![notice@]);
                self.classified(&mut lines, case);
                self.common.state = AgentState::Waiting;
                Step::showing(lines, Action::Complete)
            },
            _ => Step::silent(Action::Halt(FatalError::UnexpectedEvent)),
        }
    }

    /// Takes `event`, which came in at the time `now`, and says what is to be
    /// done next.
    pub fn execute_at(&mut self, case: &mut SupportCase, event: Event, now: i64) -> (step: Step)
        ensures
            (Turn { agent: final(self)@, case: final(case)@, step: step@ }) == intent_next(
                old(self)@,
                old(case)@,
                event@,
                now,
            ),
            final(case)@.continues(old(case)@),
            old(case)@.well_formed() ==> final(case)@.well_formed(),
    {
        if self.common.state == AgentState::Working {
            self.settle(case, event, now)
        } else {
            match event {
                Event::Begin => self.classify_intent(case, now),
                _ => Step::silent(Action::Halt(FatalError::UnexpectedEvent)),
            }
        }
    }

    /// Takes `event` and says what is to be done next, as `execute_at` does
    /// for the time that the clock shows.
    pub fn execute(&mut self, case: &mut SupportCase, event: Event) -> (step: Step)
        ensures
            exists|now: i64|
                (Turn { agent: final(self)@, case: final(case)@, step: step@ })
                    == #[trigger] intent_next(old(self)@, old(case)@, event@, now),
            final(case)@.continues(old(case)@),
            old(case)@.well_formed() ==> final(case)@.well_formed(),
    {
        let now: i64 = clock_millis();
        self.execute_at(case, event, now)
    }
}

impl Default for AgentIntent {
    fn default() -> (agent: AgentIntent)
        ensures
            agent@ == intent_fresh(),
    {
        AgentIntent::new()
    }
}

} // verus!
