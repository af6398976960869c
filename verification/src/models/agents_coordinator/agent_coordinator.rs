use crate::helpers::text::{contains, occurs_in};
use crate::models::agents::agent_feedback::{AgentFeedback, FeedbackView};
use crate::models::agents::agent_intent::{intent_fresh, AgentIntent};
use crate::models::agents::agent_texts::FEEDBACK_CATEGORY;
use crate::models::agents_common::protocol::{
    join_notices, notices, Action, ActionView, Event, EventView, FatalError, Notice, NoticeView,
    Step, StepView, Turn,
};
use crate::models::agents_coordinator::agent::{lemma_agent_continues_case, Agent, AgentView};
use crate::models::general::support_case::{clock_millis, SupportCase, SupportCaseView};
use vstd::prelude::*;
use vstd::string::*;

verus! {

/// The word that ends a session when the customer types it.
pub const TERMINATION_TOKEN: &'static str = "quit";

/// An agent and the intent that it serves.
#[derive(Debug)]
pub struct Registration {
    pub category: String,
    pub agent: Agent,
}

/// A `Registration` as plain values.
pub struct RegistrationView {
    pub category: Seq<char>,
    pub agent: AgentView,
}

impl View for Registration {
    type V = RegistrationView;

    open spec fn view(&self) -> RegistrationView {
        RegistrationView { category: self.category@, agent: self.agent@ }
    }
}

/// The views of a table of registrations, in order.
pub open spec fn registrations(items: Seq<Registration>) -> Seq<RegistrationView> {
    Seq::new(items.len(), |i: int| items[i]@)
}

/// Where the agent for `category` stands in `table`, looking from `start`
/// on: the first place that is registered for it, if there is one.
pub open spec fn position_from(table: Seq<RegistrationView>, category: Seq<char>, start: int) -> Option<
    int,
>
    decreases table.len() - start,
{
    if start < 0 || start >= table.len() {
        None
    } else if table[start].category == category {
        Some(start)
    } else {
        position_from(table, category, start + 1)
    }
}

/// The table with `agent` registered for `category`: in the place of the
/// agent that served the category before, or at the end.
pub open spec fn registered(
    table: Seq<RegistrationView>,
    category: Seq<char>,
    agent: AgentView,
) -> Seq<RegistrationView> {
    match position_from(table, category, 0) {
        Some(place) => table.update(place, RegistrationView { category, agent }),
        None => table.push(RegistrationView { category, agent }),
    }
}

/// The agent that serves `category` in `table`, if one does.
pub open spec fn serving(table: Seq<RegistrationView>, category: Seq<char>) -> Option<AgentView> {
    match position_from(table, category, 0) {
        Some(place) => Some(table[place].agent),
        None => None,
    }
}

/// Whether no intent has more than one agent in `table`.
pub open spec fn categories_distinct(table: Seq<RegistrationView>) -> bool {
    forall|i: int, j: int|
        0 <= i < j < table.len() ==> (#[trigger] table[i]).category != (#[trigger] table[j]).category
}

/// Where the search for `category` ends: at a place that is registered for
/// it, or nowhere if no place from `start` on is.
pub proof fn lemma_position_is_registered(
    table: Seq<RegistrationView>,
    category: Seq<char>,
    start: int,
)
    requires
        0 <= start,
    ensures
        match position_from(table, category, start) {
            Some(place) => start <= place < table.len() && table[place].category == category,
            None => forall|i: int| start <= i < table.len() ==> (#[trigger] table[i]).category
                != category,
        },
    decreases table.len() - start,
{
    if start < table.len() && table[start].category != category {
        lemma_position_is_registered(table, category, start + 1);
    }
}

/// To register an agent keeps the table free of doubles: the agent takes
/// the place of the one that served the intent before, and afterwards it is
/// the one that is found for the intent.
pub proof fn lemma_register_keeps_categories_distinct(
    table: Seq<RegistrationView>,
    category: Seq<char>,
    agent: AgentView,
)
    requires
        categories_distinct(table),
    ensures
        categories_distinct(registered(table, category, agent)),
        serving(registered(table, category, agent), category) == Some(agent),
{
    lemma_position_is_registered(table, category, 0);
    let after = registered(table, category, agent);
    lemma_position_is_registered(after, category, 0);
    match position_from(table, category, 0) {
        Some(place) => {
            assert(after[place].category == category);
        },
        None => {
            assert(after[table.len() as int].category == category);
        },
    }
    assert(categories_distinct(after));
    let found = position_from(after, category, 0);
    assert(found is Some);
    assert(after[found->0].agent == agent) by {
        match position_from(table, category, 0) {
            Some(place) => {
                if found->0 != place {
                    if found->0 < place {
                        assert(after[found->0].category != after[place].category);
                    } else {
                        assert(after[place].category != after[found->0].category);
                    }
                }
            },
            None => {
                if found->0 != table.len() {
                    assert(after[found->0].category != after[table.len() as int].category);
                }
            },
        }
    }
}

/// Where a session stands.
#[derive(Debug, Clone, Copy, PartialEq, Eq, Structural)]
pub enum CoordinatorPhase {
    /// Nothing was done yet.
    Fresh,
    /// The intent agent is being driven.
    Classifying,
    /// The agent for the intent is being driven.
    Serving,
    /// The customer is asked for the next turn.
    AwaitingTurn,
    /// The customer ended the session.
    Ended,
    /// The run failed for good.
    Halted(FatalError),
}

/// The one that runs a session: it has the intent of the query found out,
/// picks the agent that is registered for it, and drives that agent turn by
/// turn until the customer ends the session.
#[derive(Debug)]
pub struct CoordinatorAgent {
    support_case: SupportCase,
    agents: Vec<Registration>,
    intent_agent: Agent,
    phase: CoordinatorPhase,
    active: usize,
}

/// A `CoordinatorAgent` as plain values.
pub struct CoordinatorView {
    pub case: SupportCaseView,
    pub agents: Seq<RegistrationView>,
    pub intent_agent: AgentView,
    pub phase: CoordinatorPhase,
    /// The place in the table of the agent that is served.
    pub active: nat,
}

impl View for CoordinatorAgent {
    type V = CoordinatorView;

    closed spec fn view(&self) -> CoordinatorView {
        CoordinatorView {
            case: self.support_case@,
            agents: registrations(self.agents@),
            intent_agent: self.intent_agent@,
            phase: self.phase,
            active: self.active as nat,
        }
    }
}

impl CoordinatorView {
    /// The coordinator of a session on `case` before its first call.
    pub open spec fn fresh(case: SupportCaseView) -> CoordinatorView {
        CoordinatorView {
            case,
            agents: Seq::empty(),
            intent_agent: AgentView::Intent(intent_fresh()),
            phase: CoordinatorPhase::Fresh,
            active: 0,
        }
    }

    /// Whether no intent has more than one agent registered for it.
    pub open spec fn well_formed(self) -> bool {
        categories_distinct(self.agents)
    }

    /// The coordinator with the agents that every session has.
    pub open spec fn with_agents(self) -> CoordinatorView {
        CoordinatorView {
            agents: registered(
                self.agents,
                FEEDBACK_CATEGORY@,
                AgentView::Feedback(FeedbackView::fresh()),
            ),
            ..self
        }
    }

    /// The run stops for `reason`, after `lines` are shown.
    pub open spec fn halted(self, reason: FatalError, lines: Seq<NoticeView>) -> (
        CoordinatorView,
        StepView,
    ) {
        (
            CoordinatorView { phase: CoordinatorPhase::Halted(reason), ..self },
            StepView { notices: lines, action: ActionView::Halt(reason) },
        )
    }

    /// What the coordinator makes of a turn of the agent that it serves:
    /// when the agent is done the customer is asked for the next turn; a halt
    /// of the agent halts the session; anything else is passed on to be
    /// carried out.
    pub open spec fn absorb(self, turn: Turn<AgentView>, lines: Seq<NoticeView>) -> (
        CoordinatorView,
        StepView,
    ) {
        let served = CoordinatorView {
            case: turn.case,
            agents: self.agents.update(
                self.active as int,
                RegistrationView { agent: turn.agent, ..self.agents[self.active as int] },
            ),
            ..self
        };
        let shown = lines + turn.step.notices;
        match turn.step.action {
            ActionView::Complete => (
                CoordinatorView { phase: CoordinatorPhase::AwaitingTurn, ..served },
                StepView { notices: shown, action: ActionView::AskUser(Seq::empty()) },
            ),
            ActionView::Halt(reason) => (
                CoordinatorView { phase: CoordinatorPhase::Halted(reason), ..served },
                StepView { notices: shown, action: ActionView::Halt(reason) },
            ),
            action => (
                CoordinatorView { phase: CoordinatorPhase::Serving, ..served },
                StepView { notices: shown, action },
            ),
        }
    }

    /// The agent that is served takes `event`.
    pub open spec fn serve(self, event: EventView, now: i64, lines: Seq<NoticeView>) -> (
        CoordinatorView,
        StepView,
    ) {
        if self.active < self.agents.len() {
            self.absorb(self.agents[self.active as int].agent.next(self.case, event, now), lines)
        } else {
            self.halted(FatalError::UnexpectedEvent, lines)
        }
    }

    /// The agent for the intent of the case is picked and asked to run. A
    /// case without an intent, or with one that no agent is registered for,
    /// halts the session.
    pub open spec fn route(self, now: i64, lines: Seq<NoticeView>) -> (CoordinatorView, StepView) {
        match self.case.intent_category {
            None => self.halted(FatalError::UnmappedIntent, lines),
            Some(category) => match position_from(self.agents, category, 0) {
                None => self.halted(FatalError::UnmappedIntent, lines),
                Some(place) => (CoordinatorView { active: place as nat, ..self }).serve(
                    EventView::Begin,
                    now,
                    lines,
                ),
            },
        }
    }

    /// The intent agent takes `event`; when it is done the session goes
    /// on to the agent for the intent.
    pub open spec fn classify(self, event: EventView, now: i64) -> (CoordinatorView, StepView) {
        let turn = self.intent_agent.next(self.case, event, now);
        let classified = CoordinatorView { case: turn.case, intent_agent: turn.agent, ..self };
        match turn.step.action {
            ActionView::Complete => classified.route(now, turn.step.notices),
            ActionView::Halt(reason) => classified.halted(reason, turn.step.notices),
            _ => (CoordinatorView { phase: CoordinatorPhase::Classifying, ..classified }, turn.step),
        }
    }

    /// The customer typed `reply`: it is the query from now on; the
    /// session ends if the word that ends it stands in the reply, and goes on
    /// with the same agent if not.
    pub open spec fn take_turn(self, reply: Seq<char>, now: i64) -> (CoordinatorView, StepView) {
        let asked = CoordinatorView {
            case: (SupportCaseView { customer_query: reply, ..self.case }).touched(now),
            ..self
        };
        if occurs_in(TERMINATION_TOKEN@, reply) {
            (
                CoordinatorView { phase: CoordinatorPhase::Ended, ..asked },
                StepView::silent(ActionView::EndSession),
            )
        } else {
            asked.serve(EventView::Begin, now, Seq::empty())
        }
    }

    /// The coordinator and the step after `event` came in at the time
    /// `now`.
    pub open spec fn next(self, event: EventView, now: i64) -> (CoordinatorView, StepView) {
        match self.phase {
            CoordinatorPhase::Fresh => match event {
                EventView::Begin => self.with_agents().classify(EventView::Begin, now),
                _ => self.halted(FatalError::UnexpectedEvent, Seq::empty()),
            },
            CoordinatorPhase::Classifying => self.classify(event, now),
            CoordinatorPhase::Serving => self.serve(event, now, Seq::empty()),
            CoordinatorPhase::AwaitingTurn => match event {
                EventView::Text(reply) => self.take_turn(reply, now),
                _ => self.halted(FatalError::UnexpectedEvent, Seq::empty()),
            },
            CoordinatorPhase::Ended => (self, StepView::silent(ActionView::EndSession)),
            CoordinatorPhase::Halted(reason) => (self, StepView::silent(ActionView::Halt(reason))),
        }
    }
}

/// Whatever comes in, the case of a session stays the same case: its
/// trace only grows, and its time of update does not go back nor fall before
/// its time of creation.
pub proof fn lemma_session_continues_case(session: CoordinatorView, event: EventView, now: i64)
    ensures
        session.next(event, now).0.case.continues(session.case),
        session.case.well_formed() ==> session.next(event, now).0.case.well_formed(),
{
    assert forall|agent: AgentView, case: SupportCaseView, incoming: EventView|
        (#[trigger] agent.next(case, incoming, now)).case.continues(case) && (case.well_formed()
            ==> agent.next(case, incoming, now).case.well_formed()) by {
        lemma_agent_continues_case(agent, case, incoming, now);
    }
}

/// Whatever comes in, no intent comes to have more than one agent.
pub proof fn lemma_session_keeps_categories_distinct(
    session: CoordinatorView,
    event: EventView,
    now: i64,
)
    requires
        session.well_formed(),
    ensures
        session.next(event, now).0.well_formed(),
{
    lemma_register_keeps_categories_distinct(
        session.agents,
        FEEDBACK_CATEGORY@,
        AgentView::Feedback(FeedbackView::fresh()),
    );
    assert forall|table: Seq<RegistrationView>, place: int, entry: RegistrationView|
        categories_distinct(table) && 0 <= place < table.len() && entry.category
            == table[place].category implies categories_distinct(
        #[trigger] table.update(place, entry),
    ) by {
        let changed = table.update(place, entry);
        assert forall|i: int, j: int| 0 <= i < j < changed.len() implies (#[trigger] changed[i]).category
            != (#[trigger] changed[j]).category by {
            assert(table[i].category != table[j].category);
        }
    }
}

/// A session that was halted or ended stays so, whatever comes in.
pub proof fn lemma_session_end_is_final(session: CoordinatorView, event: EventView, now: i64)
    requires
        session.phase is Halted || session.phase == CoordinatorPhase::Ended,
    ensures
        session.next(event, now).0 == session,
        session.next(event, now).1.action.is_final(),
{
}

/// A session goes on to an agent only if one is registered for the intent
/// that was found: without an intent, or without an agent for it, the step
/// that would have begun the service halts the session.
pub proof fn lemma_unmapped_intent_halts(session: CoordinatorView, now: i64, lines: Seq<NoticeView>)
    requires
        session.case.intent_category matches Some(category) ==> position_from(
            session.agents,
            category,
            0,
        ) is None,
    ensures
        session.route(now, lines).0.phase == CoordinatorPhase::Halted(FatalError::UnmappedIntent),
        session.route(now, lines).1.action == ActionView::Halt(FatalError::UnmappedIntent),
        session.route(now, lines).0.case == session.case,
{
}

/// Looks for the agent that is registered for `category`.
pub fn find_agent(table: &Vec<Registration>, category: &String) -> (place: Option<usize>)
    ensures
        match place {
            Some(found) => found < table.len() && position_from(
                registrations(table@),
                category@,
                0,
            ) == Some(found as int),
            None => position_from(registrations(table@), category@, 0) is None,
        },
{
    let mut i: usize = 0;
    while i < table.len()
        invariant
            i <= table.len(),
            position_from(registrations(table@), category@, 0) == position_from(
                registrations(table@),
                category@,
                i as int,
            ),
        decreases table.len() - i,
    {
        if table[i].category == *category {
            return Some(i);
        }
        i += 1;
    }
    None
}

impl CoordinatorAgent {
    /// The coordinator of a new session: a case is opened for `query`, asked
    /// in `context`.
    pub fn new(context: String, query: String) -> (coordinator: CoordinatorAgent)
        ensures
            coordinator@ == CoordinatorView::fresh(
                SupportCaseView::opened(
                    context@,
                    query@,
                    coordinator@.case.case_id,
                    coordinator@.case.created_at,
                ),
            ),
    {
        CoordinatorAgent::with_case(SupportCase::new(context, query))
    }

    /// The coordinator of a session on the case given.
    pub fn with_case(support_case: SupportCase) -> (coordinator: CoordinatorAgent)
        ensures
            coordinator@ == CoordinatorView::fresh(support_case@),
            coordinator@.well_formed(),
    {
        let coordinator = CoordinatorAgent {
            support_case,
            agents: Vec::new(),
            intent_agent: Agent::Intent(AgentIntent::new()),
            phase: CoordinatorPhase::Fresh,
            active: 0,
        };
        assert(coordinator@.agents =~= Seq::empty());
        coordinator
    }

    /// The case of the session.
    pub fn support_case(&self) -> (case: &SupportCase)
        ensures
            case@ == self@.case,
    {
        &self.support_case
    }

    /// Where the session stands.
    pub fn phase(&self) -> (phase: CoordinatorPhase)
        ensures
            phase == self@.phase,
    {
        self.phase
    }

    /// The agents and the intents that they serve.
    pub fn agents(&self) -> (table: &Vec<Registration>)
        ensures
            registrations(table@) == self@.agents,
    {
        &self.agents
    }

    /// Registers `agent` for `category`, in the place of the agent that
    /// served the category before, if one did.
    pub fn register(&mut self, category: String, agent: Agent)
        ensures
            final(self)@ == (CoordinatorView {
                agents: registered(old(self)@.agents, category@, agent@),
                ..old(self)@
            }),
            old(self)@.well_formed() ==> final(self)@.well_formed(),
            old(self)@.well_formed() ==> serving(final(self)@.agents, category@) == Some(agent@),
    {
        proof {
            if self@.well_formed() {
                lemma_register_keeps_categories_distinct(self@.agents, category@, agent@);
            }
        }
        match find_agent(&self.agents, &category) {
            Some(place) => {
                self.agents.set(place, Registration { category, agent });
                assert(registrations(self.agents@) =~= old(self)@.agents.update(
                    place as int,
                    RegistrationView { category: category@, agent: agent@ },
                ));
            },
            None => {
                self.agents.push(Registration { category, agent });
                assert(registrations(self.agents@) =~= old(self)@.agents.push(
                    RegistrationView { category: category@, agent: agent@ },
                ));
            },
        }
    }

    /// Registers the agents that every session has.
    pub fn add_agents(&mut self)
        ensures
            final(self)@ == old(self)@.with_agents(),
            old(self)@.well_formed() ==> final(self)@.well_formed(),
    {
        self.register(String::from_str(FEEDBACK_CATEGORY), Agent::Feedback(AgentFeedback::new()));
    }

    fn halt(&mut self, reason: FatalError, lines: Vec<Notice>) -> (step: Step)
        ensures
            (final(self)@, step@) == old(self)@.halted(reason, notices(lines@)),
    {
        self.phase = CoordinatorPhase::Halted(reason);
        Step::showing(lines, Action::Halt(reason))
    }

    fn serve(&mut self, event: Event, now: i64, lines: Vec<Notice>) -> (step: Step)
        ensures
            (final(self)@, step@) == old(self)@.serve(event@, now, notices(lines@)),
    {
        if self.active < self.agents.len() {
            let ghost before = self.agents@;
            let active = self.active;
            let turn = self.agents[active].agent.execute_at(&mut self.support_case, event, now);
            let shown = join_notices(lines, turn.notices);
            proof {
                assert(registrations(self.agents@) =~= registrations(before).update(
                    active as int,
                    RegistrationView {
                        agent: self.agents@[active as int].agent@,
                        ..registrations(before)[active as int]
                    },
                ));
            }
            match turn.action {
                Action::Complete => {
                    self.phase = CoordinatorPhase::AwaitingTurn;
                    Step::showing(shown, Action::AskUser(String::new()))
                },
                Action::Halt(reason) => {
                    self.phase = CoordinatorPhase::Halted(reason);
                    Step::showing(shown, Action::Halt(reason))
                },
                action => {
                    self.phase = CoordinatorPhase::Serving;
                    Step::showing(shown, action)
                },
            }
        } else {
            self.halt(FatalError::UnexpectedEvent, lines)
        }
    }

    fn route(&mut self, now: i64, lines: Vec<Notice>) -> (step: Step)
        ensures
            (final(self)@, step@) == old(self)@.route(now, notices(lines@)),
    {
        let place = match &self.support_case.intent_category {
            Some(category) => find_agent(&self.agents, category),
            None => None,
        };
        match place {
            Some(found) => {
                self.active = found;
                self.serve(Event::Begin, now, lines)
            },
            None => self.halt(FatalError::UnmappedIntent, lines),
        }
    }

    /// Drives the intent agent with `event`. When the agent is done, the
    /// session goes on to the agent that is registered for the intent.
    pub fn get_intent(&mut self, event: Event, now: i64) -> (step: Step)
        ensures
            (final(self)@, step@) == old(self)@.classify(event@, now),
    {
        let turn = self.intent_agent.execute_at(&mut self.support_case, event, now);
        match turn.action {
            Action::Complete => self.route(now, turn.notices),
            Action::Halt(reason) => self.halt(reason, turn.notices),
            action => {
                self.phase = CoordinatorPhase::Classifying;
                Step::showing(turn.notices, action)
            },
        }
    }

    fn take_turn(&mut self, reply: String, now: i64) -> (step: Step)
        ensures
            (final(self)@, step@) == old(self)@.take_turn(reply@, now),
    {
        let ends = contains(reply.as_str(), TERMINATION_TOKEN);
        self.support_case.customer_query = reply;
        self.support_case.touch(now);
        if ends {
            self.phase = CoordinatorPhase::Ended;
            Step::silent(Action::EndSession)
        } else {
            let lines: Vec<Notice> = Vec::new();
            assert(notices(lines@) =~= Seq::empty());
            self.serve(Event::Begin, now, lines)
        }
    }

    /// Takes `event`, which came in at the time `now`, and says what is to be
    /// done next for the session.
    pub fn handle_support_request_at(&mut self, event: Event, now: i64) -> (step: Step)
        ensures
            (final(self)@, step@) == old(self)@.next(event@, now),
            final(self)@.case.continues(old(self)@.case),
            old(self)@.case.well_formed() ==> final(self)@.case.well_formed(),
            old(self)@.well_formed() ==> final(self)@.well_formed(),
    {
        proof {
            lemma_session_continues_case(self@, event@, now);
            if self@.well_formed() {
                lemma_session_keeps_categories_distinct(self@, event@, now);
            }
        }
        match self.phase {
            CoordinatorPhase::Fresh => match event {
                Event::Begin => {
                    self.add_agents();
                    self.get_intent(Event::Begin, now)
                },
                _ => {
                    let lines: Vec<Notice> = Vec::new();
                    assert(notices(lines@) =~= Seq::empty());
                    self.halt(FatalError::UnexpectedEvent, lines)
                },
            },
            CoordinatorPhase::Classifying => self.get_intent(event, now),
            CoordinatorPhase::Serving => {
                let lines: Vec<Notice> = Vec::new();
                assert(notices(lines@) =~= Seq::empty());
                self.serve(event, now, lines)
            },
            CoordinatorPhase::AwaitingTurn => match event {
                Event::Text(reply) => self.take_turn(reply, now),
                _ => {
                    let lines: Vec<Notice> = Vec::new();
                    assert(notices(lines@) =~= Seq::empty());
                    self.halt(FatalError::UnexpectedEvent, lines)
                },
            },
            CoordinatorPhase::Ended => Step::silent(Action::EndSession),
            CoordinatorPhase::Halted(reason) => Step::silent(Action::Halt(reason)),
        }
    }

    /// Takes `event` and says what is to be done next for the session, as
    /// `handle_support_request_at` does for the time that the clock shows.
    pub fn handle_support_request(&mut self, event: Event) -> (step: Step)
        ensures
            exists|now: i64| (final(self)@, step@) == #[trigger] old(self)@.next(event@, now),
            final(self)@.case.continues(old(self)@.case),
            old(self)@.case.well_formed() ==> final(self)@.case.well_formed(),
            old(self)@.well_formed() ==> final(self)@.well_formed(),
    {
        let now: i64 = clock_millis();
        self.handle_support_request_at(event, now)
    }
}

} // verus!
