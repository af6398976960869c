use crate::helpers::text::optional_text;
use crate::models::agents_common::common_traits::CommonTrait;
use crate::models::ai::chatgpt::{messages, Message, MessageView};
use vstd::prelude::*;

verus! {

/// Where an agent stands in its work.
#[derive(Debug, Clone, Copy, PartialEq, Eq, Structural)]
pub enum AgentState {
    Waiting,
    Working,
    Testing,
    Error,
    Finished,
}

/// What every agent has: who it is, what it is told to be, where it stands,
/// what it remembers, and the session it holds with the gateway, if any.
#[derive(Debug)]
pub struct CommonAgent {
    pub role: String,
    pub objective: String,
    pub state: AgentState,
    pub memory: Vec<Message>,
    pub assistant_id: Option<String>,
    pub thread_id: Option<String>,
}

/// A `CommonAgent` as plain values.
pub struct CommonAgentView {
    pub role: Seq<char>,
    pub objective: Seq<char>,
    pub state: AgentState,
    pub memory: Seq<MessageView>,
    pub assistant_id: Option<Seq<char>>,
    pub thread_id: Option<Seq<char>>,
}

impl View for CommonAgent {
    type V = CommonAgentView;

    open spec fn view(&self) -> CommonAgentView {
        CommonAgentView {
            role: self.role@,
            objective: self.objective@,
            state: self.state,
            memory: messages(self.memory@),
            assistant_id: optional_text(self.assistant_id),
            thread_id: optional_text(self.thread_id),
        }
    }
}

impl CommonAgentView {
    /// An agent that has not begun: it waits, remembers nothing and holds no
    /// session.
    pub open spec fn fresh(role: Seq<char>, objective: Seq<char>) -> CommonAgentView {
        CommonAgentView {
            role,
            objective,
            state: AgentState::Waiting,
            memory: Seq::empty(),
            assistant_id: None,
            thread_id: None,
        }
    }

    /// The same agent in the state `state`.
    pub open spec fn moved_to(self, state: AgentState) -> CommonAgentView {
        CommonAgentView { state, ..self }
    }
}

impl CommonTrait for CommonAgent {
    open spec fn common(&self) -> CommonAgentView {
        self@
    }

    fn new(role: String, objective: String) -> (agent: CommonAgent) {
        let agent = CommonAgent {
            role,
            objective,
            state: AgentState::Waiting,
            memory: Vec::new(),
            assistant_id: None,
            thread_id: None,
        };
        assert(agent@.memory =~= Seq::empty());
        agent
    }

    fn get_memory(&self) -> (memory: &Vec<Message>) {
        &self.memory
    }

    fn get_objective(&self) -> (objective: &String) {
        &self.objective
    }

    fn get_role(&self) -> (role: &String) {
        &self.role
    }

    fn get_state(&self) -> (state: &AgentState) {
        &self.state
    }

    fn update_state(&mut self, new_state: AgentState) {
        self.state = new_state;
    }
}

} // verus!
