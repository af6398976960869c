pub mod agents;
pub mod agents_common;
pub mod agents_coordinator;
pub mod ai;
pub mod general;
