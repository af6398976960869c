use crate::helpers::command_line::CLIPrint;
use crate::helpers::request::{prepare_message, prepared};
use crate::helpers::text::{join, joined, texts};
use crate::models::agents::agent_texts::{ACTIONS_PROMPT, ESCALATION_OBJECTIVE, ESCALATION_ROLE};
use crate::models::agents_common::common_agent::{AgentState, CommonAgent, CommonAgentView};
use crate::models::agents_common::lines::{error_line, line, say, say_about, say_error};
use crate::models::agents_common::protocol::{
    add_notice, notices, Action, ActionView, Event, EventView, FatalError, Notice, NoticeView,
    Step, StepView, Turn,
};
use crate::models::general::support_case::{clock_millis, SupportCase, SupportCaseView};
use vstd::prelude::*;
use vstd::string::*;

verus! {

/// The error with which serde_json refuses a text.
#[verifier::external_type_specification]
#[verifier::external_body]
pub struct ExJsonError(serde_json::Error);

/// What serde_json reads out of a text as a list of strings: the strings,
/// or nothing where the text is no JSON array of strings.
pub uninterp spec fn json_string_list(text: Seq<char>) -> Option<Seq<Seq<char>>>;

/// Reads `text` as a JSON array of strings with `serde_json::from_str`.
/// The contract only names the outcome: whether the text is accepted and
/// what is read out of it depend on the text alone.
#[verifier::external_body]
fn decode_string_list(text: &str) -> (decoded: Result<Vec<String>, serde_json::Error>)
    ensures
        decoded is Ok <==> json_string_list(text@) is Some,
        decoded matches Ok(items) ==> json_string_list(text@) == Some(texts(items@)),
{
    serde_json::from_str::<Vec<String>>(text)
}

/// Reads the list of actions that the gateway wrote.
pub fn parse_actions(text: &str) -> (actions: Option<Vec<String>>)
    ensures
        actions is Some <==> json_string_list(text@) is Some,
        actions matches Some(items) ==> json_string_list(text@) == Some(texts(items@)),
{
    match decode_string_list(text) {
        Ok(items) => Some(items),
        Err(_) => None,
    }
}

/// What the escalation agent is waiting for.
#[derive(Debug, Clone, Copy, PartialEq, Eq, Structural)]
pub enum EscalationPending {
    /// Nothing: the agent can be asked to run.
    Nothing,
    /// The actions that the gateway proposes.
    Actions,
    /// The action that the gateway picks.
    Decision,
}

/// The agent that deals with a case that was marked for escalation: it has
/// the gateway propose actions, then pick one of them or call for upper
/// management.
#[derive(Debug)]
pub struct AgentEscalation {
    pub common: CommonAgent,
    pending: EscalationPending,
}

/// An `AgentEscalation` as plain values.
pub struct EscalationView {
    pub common: CommonAgentView,
    pub pending: EscalationPending,
}

impl View for AgentEscalation {
    type V = EscalationView;

    closed spec fn view(&self) -> EscalationView {
        EscalationView { common: self.common@, pending: self.pending }
    }
}

/// The instruction under which the gateway picks an action.
pub open spec fn decision_objective(objective: Seq<char>, actions: Seq<Seq<char>>) -> Seq<char> {
    objective + " ONLY AVAILABLE ACTIONS:"@ + joined(actions, ","@)
}

/// The text of the response of a case, empty where it has none.
pub open spec fn response_or_empty(response: Option<Seq<char>>) -> Seq<char> {
    match response {
        Some(text) => text,
        None => Seq::empty(),
    }
}

/// What is shown of a case when the agent is done with it: that upper
/// management takes over, or the actions there were to choose from and the
/// response; nothing for a case that is not escalated.
pub open spec fn outcome_lines(role: Seq<char>, case: SupportCaseView) -> Seq<NoticeView> {
    if case.needs_upper_management_attention && case.escalated {
        seq![line(CLIPrint::Warning, role, "Upper management will be with you shortly."@)]
    } else if case.should_escalate {
        seq![
            line(
                CLIPrint::Info,
                role,
                "Possible actions to choose from: "@ + joined(case.supported_actions, ","@),
            ),
            line(CLIPrint::Default, role, response_or_empty(case.support_response)),
        ]
    } else {
        Seq::empty()
    }
}

/// The case handed to upper management at the time `now`, as the gateway
/// asked: it is marked as escalated and holds no response.
pub open spec fn handed_up(case: SupportCaseView, now: i64) -> SupportCaseView {
    (SupportCaseView {
        needs_upper_management_attention: true,
        escalated: true,
        support_response: None,
        ..case
    }).touched(now)
}

/// The case resolved by `action` at the time `now`: the action is its
/// response, and upper management is not needed.
pub open spec fn resolved_by(case: SupportCaseView, action: Seq<char>, now: i64) -> SupportCaseView {
    (SupportCaseView {
        needs_upper_management_attention: false,
        support_response: Some(action),
        ..case
    }).touched(now)
}

impl EscalationView {
    /// The escalation agent before its first call.
    pub open spec fn fresh() -> EscalationView {
        EscalationView {
            common: CommonAgentView::fresh(ESCALATION_ROLE@, ESCALATION_OBJECTIVE@),
            pending: EscalationPending::Nothing,
        }
    }

    /// The agent in the state `state`, waiting for `pending`.
    pub open spec fn moved(self, state: AgentState, pending: EscalationPending) -> EscalationView {
        EscalationView { common: self.common.moved_to(state), pending }
    }

    /// An event that the pending action cannot bring: nothing changes and
    /// the run stops.
    pub open spec fn refuse(self, case: SupportCaseView) -> Turn<EscalationView> {
        Turn {
            agent: self,
            case,
            step: StepView::silent(ActionView::Halt(FatalError::UnexpectedEvent)),
        }
    }

    /// The agent is done: `lines` are shown, then what came of the case.
    pub open spec fn finish(self, case: SupportCaseView, lines: Seq<NoticeView>) -> Turn<
        EscalationView,
    > {
        Turn {
            agent: self.moved(AgentState::Finished, EscalationPending::Nothing),
            case,
            step: StepView {
                notices: lines + outcome_lines(self.common.role, case),
                action: ActionView::Complete,
            },
        }
    }

    /// The gateway is asked to pick one of the actions of the case.
    pub open spec fn decide(self, case: SupportCaseView, now: i64) -> Turn<EscalationView> {
        let request = prepared(
            decision_objective(self.common.objective, case.supported_actions),
            case.support_context,
            case.customer_query,
        );
        Turn {
            agent: self.moved(AgentState::Working, EscalationPending::Decision),
            case: case.traced_at(request, now),
            step: StepView::saying(
                line(CLIPrint::Info, self.common.role, "Handling escalation..."@),
                ActionView::AskGateway(request),
            ),
        }
    }

    /// What the agent does when it is asked to run. A case that is not
    /// marked for escalation is left alone.
    pub open spec fn begin(self, case: SupportCaseView, now: i64) -> Turn<EscalationView> {
        if !case.should_escalate || self.common.state == AgentState::Finished {
            Turn {
                agent: self,
                case,
                step: StepView {
                    notices: outcome_lines(self.common.role, case),
                    action: ActionView::Complete,
                },
            }
        } else {
            match self.common.state {
                AgentState::Waiting => {
                    let request = prepared(
                        ACTIONS_PROMPT@,
                        case.support_context,
                        case.customer_query,
                    );
                    Turn {
                        agent: self.moved(AgentState::Working, EscalationPending::Actions),
                        case: case.traced_at(request, now),
                        step: StepView::saying(
                            line(CLIPrint::Info, self.common.role, "Preparing action items..."@),
                            ActionView::AskGateway(request),
                        ),
                    }
                },
                AgentState::Working => self.decide(case, now),
                AgentState::Error => self.finish(
                    case,
                    seq![error_line(self.common.role, case.support_response)],
                ),
                _ => self.finish(case, Seq::empty()),
            }
        }
    }

    /// What follows once the proposal of the gateway was read: with a
    /// list of actions the gateway is asked to pick one; without one the run
    /// stops.
    pub open spec fn propose(
        self,
        case: SupportCaseView,
        actions: Option<Seq<Seq<char>>>,
        now: i64,
    ) -> Turn<EscalationView> {
        match actions {
            Some(items) => self.decide(SupportCaseView { supported_actions: items, ..case }, now),
            None => Turn {
                agent: self.moved(AgentState::Error, EscalationPending::Nothing),
                case,
                step: StepView::silent(ActionView::Halt(FatalError::MalformedActions)),
            },
        }
    }

    /// What follows from the pick of the gateway: the words
    /// `upper management` hand the case up, anything else is the response.
    pub open spec fn settle(self, case: SupportCaseView, pick: Seq<char>, now: i64) -> Turn<
        EscalationView,
    > {
        if pick == "upper management"@ {
            self.finish(handed_up(case, now), Seq::empty())
        } else {
            self.finish(resolved_by(case, pick, now), Seq::empty())
        }
    }

    /// The gateway failed: the failure is the response of the case and is
    /// reported; whether upper management is needed stays as it was.
    pub open spec fn give_up(self, case: SupportCaseView, reason: Seq<char>, now: i64) -> Turn<
        EscalationView,
    > {
        self.finish(
            (SupportCaseView { support_response: Some(reason), ..case }).touched(now),
            seq![error_line(self.common.role, Some(reason))],
        )
    }

    /// The agent, the case and the step after `event` came in at the time
    /// `now`.
    pub open spec fn next(self, case: SupportCaseView, event: EventView, now: i64) -> Turn<
        EscalationView,
    > {
        match self.pending {
            EscalationPending::Nothing => match event {
                EventView::Begin => self.begin(case, now),
                _ => self.refuse(case),
            },
            EscalationPending::Actions => match event {
                EventView::Text(reply) => self.propose(case, json_string_list(reply), now),
                EventView::Failed(reason) => self.give_up(case, reason, now),
                _ => self.refuse(case),
            },
            EscalationPending::Decision => match event {
                EventView::Text(pick) => self.settle(case, pick, now),
                EventView::Failed(reason) => self.give_up(case, reason, now),
                _ => self.refuse(case),
            },
        }
    }
}

/// When the gateway picks, the case has a response or is with upper
/// management, and never both.
pub proof fn lemma_escalation_resolves_one_way(
    agent: EscalationView,
    case: SupportCaseView,
    pick: Seq<char>,
    now: i64,
)
    requires
        agent.pending == EscalationPending::Decision,
    ensures
        agent.next(case, EventView::Text(pick), now).case.support_response is Some != agent.next(
            case,
            EventView::Text(pick),
            now,
        ).case.needs_upper_management_attention,
        agent.next(case, EventView::Text(pick), now).agent.common.state == AgentState::Finished,
        agent.next(case, EventView::Text(pick), now).step.action == ActionView::Complete,
{
}

/// However an escalation ends, by a pick of the gateway or by its failure
/// on either request, the case is not left with nothing: it has a response,
/// or upper management is called for. A failure is the response of the case,
/// and leaves the actions that were proposed and the call for upper
/// management as they were.
pub proof fn lemma_escalation_never_ends_empty(
    agent: EscalationView,
    case: SupportCaseView,
    event: EventView,
    now: i64,
)
    requires
        agent.pending == EscalationPending::Decision && (event is Text || event is Failed)
            || agent.pending == EscalationPending::Actions && event is Failed,
    ensures
        agent.next(case, event, now).case.support_response is Some || agent.next(
            case,
            event,
            now,
        ).case.needs_upper_management_attention,
        agent.next(case, event, now).step.action == ActionView::Complete,
        event matches EventView::Failed(reason) ==> {
            let after = agent.next(case, event, now).case;
            &&& after.support_response == Some(reason)
            &&& after.needs_upper_management_attention == case.needs_upper_management_attention
            &&& after.escalated == case.escalated
            &&& after.supported_actions == case.supported_actions
        },
{
}

/// Whatever comes in, the case stays the same case: its trace only grows,
/// and its time of update does not go back nor fall before its time of
/// creation.
pub proof fn lemma_escalation_continues_case(
    agent: EscalationView,
    case: SupportCaseView,
    event: EventView,
    now: i64,
)
    ensures
        agent.next(case, event, now).case.continues(case),
        case.well_formed() ==> agent.next(case, event, now).case.well_formed(),
{
}

impl AgentEscalation {
    /// The escalation agent before its first call.
    pub fn new() -> (agent: AgentEscalation)
        ensures
            agent@ == EscalationView::fresh(),
    {
        let common = CommonAgent {
            role: String::from_str(ESCALATION_ROLE),
            objective: String::from_str(ESCALATION_OBJECTIVE),
            state: AgentState::Waiting,
            memory: Vec::new(),
            assistant_id: None,
            thread_id: None,
        };
        assert(common@.memory =~= Seq::empty());
        AgentEscalation { common, pending: EscalationPending::Nothing }
    }

    /// What the agent has in common with every agent.
    pub fn get_common_from_agent(&self) -> (common: &CommonAgent)
        ensures
            common@ == self@.common,
    {
        &self.common
    }

    /// Notes the assistant under which the agent talks to the gateway.
    pub fn set_assistant_id(&mut self, id: String)
        ensures
            final(self)@ == (EscalationView {
                common: CommonAgentView { assistant_id: Some(id@), ..old(self)@.common },
                ..old(self)@
            }),
    {
        self.common.assistant_id = Some(id);
    }

    fn outcome(&self, lines: &mut Vec<Notice>, case: &SupportCase)
        ensures
            notices(final(lines)@) == notices(old(lines)@) + outcome_lines(self@.common.role, case@),
    {
        if case.needs_upper_management_attention && case.escalated {
            let notice = say(
                CLIPrint::Warning,
                &self.common.role,
                "Upper management will be with you shortly.",
            );
            add_notice(lines, notice);
            assert(notices(lines@) =~= notices(old(lines)@) + seq![notice@]);
        } else if case.should_escalate {
            let listed = say_about(
                CLIPrint::Info,
                &self.common.role,
                "Possible actions to choose from: ",
                join(&case.supported_actions, ",").as_str(),
            );
            let shown = match &case.support_response {
                Some(text) => say(CLIPrint::Default, &self.common.role, text.as_str()),
                None => {
                    let empty = String::new();
                    say(CLIPrint::Default, &self.common.role, empty.as_str())
                },
            };
            add_notice(lines, listed);
            add_notice(lines, shown);
            assert(notices(lines@) =~= notices(old(lines)@) + seq![listed@, shown@]);
        } else {
            assert(notices(lines@) =~= notices(old(lines)@) + Seq::<NoticeView>::empty());
        }
    }

    fn finish(&mut self, case: &SupportCase, lines: Vec<Notice>) -> (step: Step)
        ensures
            (Turn { agent: final(self)@, case: case@, step: step@ }) == old(self)@.finish(
                case@,
                notices(lines@),
            ),
    {
        let mut lines = lines;
        self.outcome(&mut lines, case);
        self.common.state = AgentState::Finished;
        self.pending = EscalationPending::Nothing;
        Step::showing(lines, Action::Complete)
    }

    /// Asks the gateway to pick one of the actions of the case.
    pub fn handle_escalation(&mut self, support_case: &mut SupportCase, now: i64) -> (step: Step)
        ensures
            (Turn { agent: final(self)@, case: final(support_case)@, step: step@ }) == old(
                self,
            )@.decide(old(support_case)@, now),
    {
        let mut objective = self.common.objective.clone();
        objective.append(" ONLY AVAILABLE ACTIONS:");
        objective.append(join(&support_case.supported_actions, ",").as_str());
        let request = prepare_message(
            objective.as_str(),
            support_case.support_context.as_str(),
            support_case.customer_query.as_str(),
        );
        let notice = say(CLIPrint::Info, &self.common.role, "Handling escalation...");
        self.common.state = AgentState::Working;
        self.pending = EscalationPending::Decision;
        support_case.record_at(request.clone(), now);
        Step::saying(notice, Action::AskGateway(request))
    }

    /// Takes the actions that were read out of the proposal of the
    /// gateway, if any were, and goes on to the decision.
    pub fn populate_resolving_actions(
        &mut self,
        support_case: &mut SupportCase,
        actions: Option<Vec<String>>,
        now: i64,
    ) -> (step: Step)
        ensures
            (Turn { agent: final(self)@, case: final(support_case)@, step: step@ }) == old(
                self,
            )@.propose(
                old(support_case)@,
                match actions {
                    Some(items) => Some(texts(items@)),
                    None => None,
                },
                now,
            ),
    {
        match actions {
            Some(items) => {
                support_case.supported_actions = items;
                self.handle_escalation(support_case, now)
            },
            None => {
                self.common.state = AgentState::Error;
                self.pending = EscalationPending::Nothing;
                Step::silent(Action::Halt(FatalError::MalformedActions))
            },
        }
    }

    fn begin(&mut self, case: &mut SupportCase, now: i64) -> (step: Step)
        ensures
            (Turn { agent: final(self)@, case: final(case)@, step: step@ }) == old(self)@.begin(
                old(case)@,
                now,
            ),
    {
        let state = self.common.state;
        if !case.should_escalate || state == AgentState::Finished {
            let mut lines: Vec<Notice> = Vec::new();
            assert(notices(lines@) =~= Seq::empty());
            self.outcome(&mut lines, case);
            assert(notices(lines@) =~= outcome_lines(self@.common.role, case@));
            Step::showing(lines, Action::Complete)
        } else {
            match state {
                AgentState::Waiting => {
                    let request = prepare_message(
                        ACTIONS_PROMPT,
                        case.support_context.as_str(),
                        case.customer_query.as_str(),
                    );
                    let notice = say(CLIPrint::Info, &self.common.role, "Preparing action items...");
                    self.common.state = AgentState::Working;
                    self.pending = EscalationPending::Actions;
                    case.record_at(request.clone(), now);
                    Step::saying(notice, Action::AskGateway(request))
                },
                AgentState::Working => self.handle_escalation(case, now),
                AgentState::Error => {
                    let mut lines: Vec<Notice> = Vec::new();
                    assert(notices(lines@) =~= Seq::empty());
                    let notice = say_error(&self.common.role, &case.support_response);
                    add_notice(&mut lines, notice);
                    assert(notices(lines@) =~= seq![notice@]);
                    self.finish(case, lines)
                },
                _ => {
                    let lines: Vec<Notice> = Vec::new();
                    assert(notices(lines@) =~= Seq::empty());
                    self.finish(case, lines)
                },
            }
        }
    }

    fn settle(&mut self, case: &mut SupportCase, pick: String, now: i64) -> (step: Step)
        ensures
            (Turn { agent: final(self)@, case: final(case)@, step: step@ }) == old(self)@.settle(
                old(case)@,
                pick@,
                now,
            ),
    {
        let upper = String::from_str("upper management");
        if pick == upper {
            case.needs_upper_management_attention = true;
            case.escalated = true;
            case.support_response = None;
        } else {
            case.needs_upper_management_attention = false;
            case.support_response = Some(pick);
        }
        case.touch(now);
        let lines: Vec<Notice> = Vec::new();
        assert(notices(lines@) =~= Seq::empty());
        self.finish(case, lines)
    }

    fn give_up(&mut self, case: &mut SupportCase, reason: String, now: i64) -> (step: Step)
        ensures
            (Turn { agent: final(self)@, case: final(case)@, step: step@ }) == old(self)@.give_up(
                old(case)@,
                reason@,
                now,
            ),
    {
        let mut lines: Vec<Notice> = Vec::new();
        assert(notices(lines@) =~= Seq::empty());
        case.support_response = Some(reason);
        case.touch(now);
        let notice = say_error(&self.common.role, &case.support_response);
        add_notice(&mut lines, notice);
        assert(notices(lines@) =~= seq![notice@]);
        self.finish(case, lines)
    }

    /// Takes `event`, which came in at the time `now`, and says what is to be
    /// done next.
    pub fn execute_at(&mut self, case: &mut SupportCase, event: Event, now: i64) -> (step: Step)
        ensures
            (Turn { agent: final(self)@, case: final(case)@, step: step@ }) == old(self)@.next(
                old(case)@,
                event@,
                now,
            ),
            final(case)@.continues(old(case)@),
            old(case)@.well_formed() ==> final(case)@.well_formed(),
    {
        match self.pending {
            EscalationPending::Nothing => match event {
                Event::Begin => self.begin(case, now),
                _ => Step::silent(Action::Halt(FatalError::UnexpectedEvent)),
            },
            EscalationPending::Actions => match event {
                Event::Text(reply) => {
                    let actions = parse_actions(reply.as_str());
                    self.populate_resolving_actions(case, actions, now)
                },
                Event::Failed(reason) => self.give_up(case, reason, now),
                _ => Step::silent(Action::Halt(FatalError::UnexpectedEvent)),
            },
            EscalationPending::Decision => match event {
                Event::Text(pick) => self.settle(case, pick, now),
                Event::Failed(reason) => self.give_up(case, reason, now),
                _ => Step::silent(Action::Halt(FatalError::UnexpectedEvent)),
            },
        }
    }

    /// Takes `event` and says what is to be done next, as `execute_at` does
    /// for the time that the clock shows.
    pub fn execute(&mut self, case: &mut SupportCase, event: Event) -> (step: Step)
        ensures
            exists|now: i64|
                (Turn { agent: final(self)@, case: final(case)@, step: step@ }) == #[trigger] old(
                    self,
                )@.next(old(case)@, event@, now),
            final(case)@.continues(old(case)@),
            old(case)@.well_formed() ==> final(case)@.well_formed(),
    {
        let now: i64 = clock_millis();
        self.execute_at(case, event, now)
    }
}

} // verus!
