use crate::helpers::command_line::CLIPrint;
use crate::helpers::request::{prepare_message, prepared};
use crate::models::agents::agent_texts::{SENTIMENT_OBJECTIVE, SENTIMENT_ROLE};
use crate::models::agents_common::common_agent::{AgentState, CommonAgent, CommonAgentView};
use crate::models::agents_common::lines::{error_line, line, say, say_error};
use crate::models::agents_common::protocol::{
    add_notice, notices, Action, ActionView, Event, EventView, FatalError, Notice, NoticeView,
    Step, StepView, Turn,
};
use crate::models::general::support_case::{clock_millis, SupportCase, SupportCaseView};
use vstd::prelude::*;
use vstd::string::*;

verus! {

/// The agent that judges the mood of a query. A negative mood marks the
/// case for escalation.
#[derive(Debug)]
pub struct AgentSentiment {
    common: CommonAgent,
}

impl View for AgentSentiment {
    type V = CommonAgentView;

    closed spec fn view(&self) -> CommonAgentView {
        self.common@
    }
}

/// The sentiment agent before its first call.
pub open spec fn sentiment_fresh() -> CommonAgentView {
    CommonAgentView::fresh(SENTIMENT_ROLE@, SENTIMENT_OBJECTIVE@)
}

/// Whether `mood` is one of the two sentiments that there are.
pub open spec fn is_sentiment(mood: Seq<char>) -> bool {
    mood == "Positive"@ || mood == "Negative"@
}

/// What is written into the case in place of an answer that names no
/// sentiment.
pub open spec fn unknown_sentiment_text(answer: Seq<char>) -> Seq<char> {
    "Sentiment not recognised: "@ + answer
}

/// What is said of an answer of the gateway: a sentiment is told, anything
/// else is reported as a failure.
pub open spec fn mood_lines(role: Seq<char>, mood: Seq<char>) -> Seq<NoticeView> {
    if mood == "Positive"@ {
        seq![line(CLIPrint::Info, role, "Sentiment is 'Positive'"@)]
    } else if mood == "Negative"@ {
        seq![line(CLIPrint::Warning, role, "Sentiment is 'Negative'"@)]
    } else {
        seq![error_line(role, Some(unknown_sentiment_text(mood)))]
    }
}

/// The case after the gateway answered `mood` at the time `now`. One of
/// the two sentiments is written into the case, and a negative one marks the
/// case for escalation. Any other answer is no sentiment: the sentiment and
/// the mark stay as they were, and the failure is the response of the case.
pub open spec fn with_sentiment(case: SupportCaseView, mood: Seq<char>, now: i64) -> SupportCaseView {
    if is_sentiment(mood) {
        (SupportCaseView {
            sentiment: Some(mood),
            should_escalate: case.should_escalate || mood == "Negative"@,
            ..case
        }).touched(now)
    } else {
        (SupportCaseView {
            support_response: Some(unknown_sentiment_text(mood)),
            ..case
        }).touched(now)
    }
}

/// Whether the sentiment of `case` is one of the two that there are, or
/// none.
pub open spec fn sentiment_is_label(case: SupportCaseView) -> bool {
    match case.sentiment {
        Some(mood) => is_sentiment(mood),
        None => true,
    }
}

/// The sentiment of a case is one of the two that there are, or none,
/// whatever the gateway answers, if it was so before.
pub proof fn lemma_sentiment_is_a_label(
    agent: CommonAgentView,
    case: SupportCaseView,
    event: EventView,
    now: i64,
)
    requires
        sentiment_is_label(case),
    ensures
        sentiment_is_label(sentiment_next(agent, case, event, now).case),
        !(event matches EventView::Text(mood) && mood == "Negative"@) ==> sentiment_next(
            agent,
            case,
            event,
            now,
        ).case.should_escalate == case.should_escalate,
{
}

/// What the sentiment agent does when it is asked to run.
pub open spec fn sentiment_begin(agent: CommonAgentView, case: SupportCaseView, now: i64) -> Turn<
    CommonAgentView,
> {
    if agent.state == AgentState::Waiting {
        let request = prepared(agent.objective, case.support_context, case.customer_query);
        Turn {
            agent: agent.moved_to(AgentState::Working),
            case: case.traced_at(request, now),
            step: StepView::saying(
                line(CLIPrint::Info, agent.role, "Analyzing sentiment..."@),
                ActionView::AskGateway(request),
            ),
        }
    } else {
        Turn {
            agent: agent.moved_to(AgentState::Finished),
            case,
            step: StepView {
                notices: if agent.state == AgentState::Error {
                    seq![error_line(agent.role, case.support_response)]
                } else {
                    Seq::empty()
                },
                action: ActionView::Complete,
            },
        }
    }
}

/// What the sentiment agent does with the answer of the gateway.
pub open spec fn sentiment_settle(
    agent: CommonAgentView,
    case: SupportCaseView,
    event: EventView,
    now: i64,
) -> Turn<CommonAgentView> {
    match event {
        EventView::Text(mood) => Turn {
            agent: agent.moved_to(AgentState::Finished),
            case: with_sentiment(case, mood, now),
            step: StepView { notices: mood_lines(agent.role, mood), action: ActionView::Complete },
        },
        EventView::Failed(reason) => Turn {
            agent: agent.moved_to(AgentState::Finished),
            case: (SupportCaseView { support_response: Some(reason), ..case }).touched(now),
            step: StepView::saying(error_line(agent.role, Some(reason)), ActionView::Complete),
        },
        _ => Turn {
            agent,
            case,
            step: StepView::silent(ActionView::Halt(FatalError::UnexpectedEvent)),
        },
    }
}

/// The sentiment agent, the case and the step after `event` came in at
/// the time `now`.
pub open spec fn sentiment_next(
    agent: CommonAgentView,
    case: SupportCaseView,
    event: EventView,
    now: i64,
) -> Turn<CommonAgentView> {
    if agent.state == AgentState::Working {
        sentiment_settle(agent, case, event, now)
    } else {
        match event {
            EventView::Begin => sentiment_begin(agent, case, now),
            _ => Turn {
                agent,
                case,
                step: StepView::silent(ActionView::Halt(FatalError::UnexpectedEvent)),
            },
        }
    }
}

/// Whatever comes in, the case stays the same case: its trace only grows,
/// and its time of update does not go back nor fall before its time of
/// creation.
pub proof fn lemma_sentiment_continues_case(
    agent: CommonAgentView,
    case: SupportCaseView,
    event: EventView,
    now: i64,
)
    ensures
        sentiment_next(agent, case, event, now).case.continues(case),
        case.well_formed() ==> sentiment_next(agent, case, event, now).case.well_formed(),
{
}

impl AgentSentiment {
    /// The sentiment agent before its first call.
    pub fn new() -> (agent: AgentSentiment)
        ensures
            agent@ == sentiment_fresh(),
    {
        let common = CommonAgent {
            role: String::from_str(SENTIMENT_ROLE),
            objective: String::from_str(SENTIMENT_OBJECTIVE),
            state: AgentState::Waiting,
            memory: Vec::new(),
            assistant_id: None,
            thread_id: None,
        };
        assert(common@.memory =~= Seq::empty());
        AgentSentiment { common }
    }

    /// What the agent has in common with every agent.
    pub fn get_common_from_agent(&self) -> (common: &CommonAgent)
        ensures
            common@ == self@,
    {
        &self.common
    }

    /// Notes the assistant under which the agent talks to the gateway.
    pub fn set_assistant_id(&mut self, id: String)
        ensures
            final(self)@ == (CommonAgentView { assistant_id: Some(id@), ..old(self)@ }),
    {
        self.common.assistant_id = Some(id);
    }

    fn begin(&mut self, case: &mut SupportCase, now: i64) -> (step: Step)
        ensures
            (Turn { agent: final(self)@, case: final(case)@, step: step@ }) == sentiment_begin(
                old(self)@,
                old(case)@,
                now,
            ),
    {
        match self.common.state {
            AgentState::Waiting => {
                let request = prepare_message(
                    self.common.objective.as_str(),
                    case.support_context.as_str(),
                    case.customer_query.as_str(),
                );
                let notice = say(CLIPrint::Info, &self.common.role, "Analyzing sentiment...");
                self.common.state = AgentState::Working;
                case.record_at(request.clone(), now);
                Step::saying(notice, Action::AskGateway(request))
            },
            state => {
                let mut lines: Vec<Notice> = Vec::new();
                assert(notices(lines@) =~= Seq::empty());
                if state == AgentState::Error {
                    let notice = say_error(&self.common.role, &case.support_response);
                    add_notice(&mut lines, notice);
                    assert(notices(lines@) =~= seq![notice@]);
                }
                self.common.state = AgentState::Finished;
                Step::showing(lines, Action::Complete)
            },
        }
    }

    /// Takes the answer of the gateway. One of the two sentiments is
    /// written into the case, and a negative one marks the case for
    /// escalation; any other answer is reported as a failure and leaves the
    /// sentiment as it was.
    pub fn analyze_sentiment(&mut self, support_case: &mut SupportCase, mood: String, now: i64) -> (step:
        Step)
        ensures
            (Turn { agent: final(self)@, case: final(support_case)@, step: step@ })
                == sentiment_settle(old(self)@, old(support_case)@, EventView::Text(mood@), now),
    {
        let mut lines: Vec<Notice> = Vec::new();
        assert(notices(lines@) =~= Seq::empty());
        let positive = String::from_str("Positive");
        let negative = String::from_str("Negative");
        proof {
            reveal_strlit("Positive");
            reveal_strlit("Negative");
            assert("Positive"@[0] != "Negative"@[0]);
        }
        if mood == positive {
            let notice = say(CLIPrint::Info, &self.common.role, "Sentiment is 'Positive'");
            add_notice(&mut lines, notice);
            assert(notices(lines@) =~= seq![notice@]);
        } else if mood == negative {
            let notice = say(CLIPrint::Warning, &self.common.role, "Sentiment is 'Negative'");
            add_notice(&mut lines, notice);
            assert(notices(lines@) =~= seq![notice@]);
            support_case.should_escalate = true;
        }
        if mood == positive || mood == negative {
            support_case.sentiment = Some(mood);
        } else {
            let mut failure = String::from_str("Sentiment not recognised: ");
            failure.append(mood.as_str());
            support_case.support_response = Some(failure);
            let notice = say_error(&self.common.role, &support_case.support_response);
            add_notice(&mut lines, notice);
            assert(notices(lines@) =~= seq![notice@]);
        }
        support_case.touch(now);
        self.common.state = AgentState::Finished;
        Step::showing(lines, Action::Complete)
    }

    fn settle(&mut self, case: &mut SupportCase, event: Event, now: i64) -> (step: Step)
        ensures
            (Turn { agent: final(self)@, case: final(case)@, step: step@ }) == sentiment_settle(
                old(self)@,
                old(case)@,
                event@,
                now,
            ),
    {
        match event {
            Event::Text(mood) => self.analyze_sentiment(case, mood, now),
            Event::Failed(reason) => {
                case.support_response = Some(reason);
                case.touch(now);
                let notice = say_error(&self.common.role, &case.support_response);
                self.common.state = AgentState::Finished;
                Step::saying(notice, Action::Complete)
            },
            _ => Step::silent(Action::Halt(FatalError::UnexpectedEvent)),
        }
    }

    /// Takes `event`, which came in at the time `now`, and says what is to be
    /// done next.
    pub fn execute_at(&mut self, case: &mut SupportCase, event: Event, now: i64) -> (step: Step)
        ensures
            (Turn { agent: final(self)@, case: final(case)@, step: step@ }) == sentiment_next(
                old(self)@,
                old(case)@,
                event@,
                now,
            ),
            final(case)@.continues(old(case)@),
            old(case)@.well_formed() ==> final(case)@.well_formed(),
            sentiment_is_label(old(case)@) ==> sentiment_is_label(final(case)@),
    {
        if self.common.state == AgentState::Working {
            self.settle(case, event, now)
        } else {
            match event {
                Event::Begin => self.begin(case, now),
                _ => Step::silent(Action::Halt(FatalError::UnexpectedEvent)),
            }
        }
    }

    /// Takes `event` and says what is to be done next, as `execute_at` does
    /// for the time that the clock shows.
    pub fn execute(&mut self, case: &mut SupportCase, event: Event) -> (step: Step)
        ensures
            exists|now: i64|
                (Turn { agent: final(self)@, case: final(case)@, step: step@ })
                    == #[trigger] sentiment_next(old(self)@, old(case)@, event@, now),
            final(case)@.continues(old(case)@),
            old(case)@.well_formed() ==> final(case)@.well_formed(),
            sentiment_is_label(old(case)@) ==> sentiment_is_label(final(case)@),
    {
        let now: i64 = clock_millis();
        self.execute_at(case, event, now)
    }
}

} // verus!
