pub mod agent_backend;
pub mod agent_escalation;
pub mod agent_feedback;
pub mod agent_intent;
pub mod agent_query;
pub mod agent_sentiment;
pub mod agent_texts;
pub mod backend_laws;
pub mod backend_prompts;
