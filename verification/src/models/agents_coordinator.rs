pub mod agent;
pub mod agent_coordinator;
