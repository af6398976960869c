use crate::models::agents::agent_backend::{AgentBackendDeveloper, BackendView};
use crate::models::agents::backend_laws::lemma_next_continues_case;
use crate::models::agents::agent_escalation::{
    lemma_escalation_continues_case, AgentEscalation, EscalationView,
};
use crate::models::agents::agent_feedback::{
    lemma_feedback_continues_case, AgentFeedback, FeedbackView,
};
use crate::models::agents::agent_intent::{intent_next, lemma_intent_continues_case, AgentIntent};
use crate::models::agents::agent_query::{
    lemma_query_continues_case, query_next, AgentCustomerQuery,
};
use crate::models::agents::agent_sentiment::{
    lemma_sentiment_continues_case, sentiment_next, AgentSentiment,
};
use crate::models::agents_common::common_agent::{CommonAgent, CommonAgentView};
use crate::models::agents_common::common_traits::AgentFunctionTrait;
use crate::models::agents_common::protocol::{Arrival, Event, EventView, Step, Turn};
use crate::models::general::support_case::{clock_millis, SupportCase, SupportCaseView};
use vstd::prelude::*;

verus! {

/// Any one of the agents that there are.
#[derive(Debug)]
pub enum Agent {
    Intent(AgentIntent),
    Sentiment(AgentSentiment),
    Query(AgentCustomerQuery),
    Escalation(AgentEscalation),
    Feedback(AgentFeedback),
    BackendDeveloper(AgentBackendDeveloper),
}

/// An `Agent` as plain values.
pub enum AgentView {
    Intent(CommonAgentView),
    Sentiment(CommonAgentView),
    Query(CommonAgentView),
    Escalation(EscalationView),
    Feedback(FeedbackView),
    BackendDeveloper(BackendView),
}

impl View for Agent {
    type V = AgentView;

    open spec fn view(&self) -> AgentView {
        match self {
            Agent::Intent(agent) => AgentView::Intent(agent@),
            Agent::Sentiment(agent) => AgentView::Sentiment(agent@),
            Agent::Query(agent) => AgentView::Query(agent@),
            Agent::Escalation(agent) => AgentView::Escalation(agent@),
            Agent::Feedback(agent) => AgentView::Feedback(agent@),
            Agent::BackendDeveloper(agent) => AgentView::BackendDeveloper(agent@),
        }
    }
}

impl AgentView {
    /// The part that the agent has in common with every agent.
    pub open spec fn common(self) -> CommonAgentView {
        match self {
            AgentView::Intent(agent) => agent,
            AgentView::Sentiment(agent) => agent,
            AgentView::Query(agent) => agent,
            AgentView::Escalation(agent) => agent.common,
            AgentView::Feedback(agent) => agent.common,
            AgentView::BackendDeveloper(agent) => agent.common,
        }
    }

    /// The agent, the case and the step after `event` came in at the time
    /// `now`: what the agent of this kind makes of it.
    #[verifier::opaque]
    pub open spec fn next(self, case: SupportCaseView, event: EventView, now: i64) -> Turn<
        AgentView,
    > {
        match self {
            AgentView::Intent(agent) => {
                let turn = intent_next(agent, case, event, now);
                Turn { agent: AgentView::Intent(turn.agent), case: turn.case, step: turn.step }
            },
            AgentView::Sentiment(agent) => {
                let turn = sentiment_next(agent, case, event, now);
                Turn { agent: AgentView::Sentiment(turn.agent), case: turn.case, step: turn.step }
            },
            AgentView::Query(agent) => {
                let turn = query_next(agent, case, event, now);
                Turn { agent: AgentView::Query(turn.agent), case: turn.case, step: turn.step }
            },
            AgentView::Escalation(agent) => {
                let turn = agent.next(case, event, now);
                Turn { agent: AgentView::Escalation(turn.agent), case: turn.case, step: turn.step }
            },
            AgentView::Feedback(agent) => {
                let turn = agent.next(case, event, now);
                Turn { agent: AgentView::Feedback(turn.agent), case: turn.case, step: turn.step }
            },
            AgentView::BackendDeveloper(agent) => {
                let turn = agent.next(case, event, now);
                Turn {
                    agent: AgentView::BackendDeveloper(turn.agent),
                    case: turn.case,
                    step: turn.step,
                }
            },
        }
    }
}

/// Whatever agent it is and whatever comes in, the case stays the same
/// case: its trace only grows, and its time of update does not go back nor
/// fall before its time of creation.
pub proof fn lemma_agent_continues_case(
    agent: AgentView,
    case: SupportCaseView,
    event: EventView,
    now: i64,
)
    ensures
        agent.next(case, event, now).case.continues(case),
        agent.next(case, event, now).case.trace.len() >= case.trace.len(),
        case.well_formed() ==> agent.next(case, event, now).case.well_formed(),
{
    reveal(AgentView::next);
    match agent {
        AgentView::Intent(inner) => lemma_intent_continues_case(inner, case, event, now),
        AgentView::Sentiment(inner) => lemma_sentiment_continues_case(inner, case, event, now),
        AgentView::Query(inner) => lemma_query_continues_case(inner, case, event, now),
        AgentView::Escalation(inner) => lemma_escalation_continues_case(inner, case, event, now),
        AgentView::Feedback(inner) => lemma_feedback_continues_case(inner, case, event, now),
        AgentView::BackendDeveloper(inner) => lemma_next_continues_case(inner, case, event, now),
    }
}

impl AgentView {
    /// The agent and the case after every entry of `arrivals` came in, one
    /// after the other.
    pub open spec fn after(self, case: SupportCaseView, arrivals: Seq<Arrival>) -> (
        AgentView,
        SupportCaseView,
    )
        decreases arrivals.len(),
    {
        if arrivals.len() == 0 {
            (self, case)
        } else {
            let before = self.after(case, arrivals.drop_last());
            let turn = before.0.next(before.1, arrivals.last().event, arrivals.last().now);
            (turn.agent, turn.case)
        }
    }
}

/// A run of any agent, however long and whatever comes in, leaves the case
/// a continuation of what it was: the trace is no shorter than before and
/// begins as it did, and the time of update is not before what it was, nor
/// before the time of creation.
pub proof fn lemma_agent_run_continues_case(
    agent: AgentView,
    case: SupportCaseView,
    arrivals: Seq<Arrival>,
)
    ensures
        agent.after(case, arrivals).1.continues(case),
        agent.after(case, arrivals).1.trace.len() >= case.trace.len(),
        agent.after(case, arrivals).1.updated_at >= case.updated_at,
        case.well_formed() ==> agent.after(case, arrivals).1.updated_at >= agent.after(
            case,
            arrivals,
        ).1.created_at,
    decreases arrivals.len(),
{
    if arrivals.len() > 0 {
        lemma_agent_run_continues_case(agent, case, arrivals.drop_last());
        let before = agent.after(case, arrivals.drop_last());
        lemma_agent_continues_case(before.0, before.1, arrivals.last().event, arrivals.last().now);
    }
}

impl Agent {
    /// Takes `event`, which came in at the time `now`, and says what is to be
    /// done next.
    pub fn execute_at(&mut self, case: &mut SupportCase, event: Event, now: i64) -> (step: Step)
        ensures
            (Turn { agent: final(self)@, case: final(case)@, step: step@ }) == old(self)@.next(
                old(case)@,
                event@,
                now,
            ),
            final(case)@.continues(old(case)@),
            old(case)@.well_formed() ==> final(case)@.well_formed(),
    {
        reveal(AgentView::next);
        match self {
            Agent::Intent(agent) => agent.execute_at(case, event, now),
            Agent::Sentiment(agent) => agent.execute_at(case, event, now),
            Agent::Query(agent) => agent.execute_at(case, event, now),
            Agent::Escalation(agent) => agent.execute_at(case, event, now),
            Agent::Feedback(agent) => agent.execute_at(case, event, now),
            Agent::BackendDeveloper(agent) => agent.execute_at(case, event, now),
        }
    }
}

impl AgentFunctionTrait for Agent {
    open spec fn shared(&self) -> CommonAgentView {
        self@.common()
    }

    fn execute(&mut self, support_case: &mut SupportCase, event: Event) -> (step: Step)
        ensures
            exists|now: i64|
                (Turn { agent: final(self)@, case: final(support_case)@, step: step@ })
                    == #[trigger] old(self)@.next(old(support_case)@, event@, now),
    {
        let now: i64 = clock_millis();
        self.execute_at(support_case, event, now)
    }

    fn get_common_from_agent(&self) -> (common: &CommonAgent) {
        match self {
            Agent::Intent(agent) => agent.get_common_from_agent(),
            Agent::Sentiment(agent) => agent.get_common_from_agent(),
            Agent::Query(agent) => agent.get_common_from_agent(),
            Agent::Escalation(agent) => agent.get_common_from_agent(),
            Agent::Feedback(agent) => agent.get_common_from_agent(),
            Agent::BackendDeveloper(agent) => agent.get_common_from_agent(),
        }
    }

    fn set_assistant_id(&mut self, id: String) {
        match self {
            Agent::Intent(agent) => agent.set_assistant_id(id),
            Agent::Sentiment(agent) => agent.set_assistant_id(id),
            Agent::Query(agent) => agent.set_assistant_id(id),
            Agent::Escalation(agent) => agent.set_assistant_id(id),
            Agent::Feedback(agent) => agent.set_assistant_id(id),
            Agent::BackendDeveloper(agent) => agent.set_assistant_id(id),
        }
    }
}

} // verus!
