use crate::models::agents_common::common_agent::{AgentState, CommonAgent, CommonAgentView};
use crate::models::agents_common::protocol::{Event, Step};
use crate::models::general::support_case::SupportCase;
use crate::models::ai::chatgpt::{messages, Message};
use vstd::prelude::*;

verus! {

/// What can be asked of anything that carries an agent's common part.
pub trait CommonTrait: Sized {
    /// The common part, as plain values.
    spec fn common(&self) -> CommonAgentView;

    /// An agent with this role and objective that has not begun.
    fn new(role: String, objective: String) -> (agent: Self)
        ensures
            agent.common() == CommonAgentView::fresh(role@, objective@),
    ;

    /// Puts the agent in the state `new_state` and changes nothing else.
    fn update_state(&mut self, new_state: AgentState)
        ensures
            final(self).common() == old(self).common().moved_to(new_state),
    ;

    /// Where the agent stands.
    fn get_state(&self) -> (state: &AgentState)
        ensures
            *state == self.common().state,
    ;

    /// The name under which the agent speaks.
    fn get_role(&self) -> (role: &String)
        ensures
            role@ == self.common().role,
    ;

    /// The instruction the agent works under.
    fn get_objective(&self) -> (objective: &String)
        ensures
            objective@ == self.common().objective,
    ;

    /// What the agent remembers.
    fn get_memory(&self) -> (memory: &Vec<Message>)
        ensures
            messages(memory@) == self.common().memory,
    ;
}

/// What every agent can be asked to do, whatever its work is.
pub trait AgentFunctionTrait {
    /// The part that the agent has in common with every agent, as plain
    /// values.
    spec fn shared(&self) -> CommonAgentView;

    /// Takes `event` and says what is to be done next. Whatever the agent
    /// does, the case stays the same case: its trace only grows, and its time
    /// of update does not go back nor fall before its time of creation.
    fn execute(&mut self, support_case: &mut SupportCase, event: Event) -> (step: Step)
        ensures
            final(support_case)@.continues(old(support_case)@),
            old(support_case)@.well_formed() ==> final(support_case)@.well_formed(),
    ;

    /// What the agent has in common with every agent.
    fn get_common_from_agent(&self) -> (common: &CommonAgent)
        ensures
            common@ == self.shared(),
    ;

    /// Notes the assistant under which the agent talks to the gateway.
    fn set_assistant_id(&mut self, id: String)
        ensures
            final(self).shared() == (CommonAgentView {
                assistant_id: Some(id@),
                ..old(self).shared()
            }),
    ;
}

} // verus!
