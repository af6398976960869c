use support_agents::api::assistant_request::{
    create_and_run_thread, create_assistant, create_thread_message,
};
use support_agents::api::gpt_request::{call_gpt, GatewayConfig};
use support_agents::models::agents::agent_backend::AgentBackendDeveloper;
use support_agents::models::agents::agent_query::AgentCustomerQuery;
use support_agents::models::agents_common::common_traits::AgentFunctionTrait;
use support_agents::models::agents_common::protocol::{Action, Event, FatalError};
use support_agents::models::agents_coordinator::agent::Agent;
use support_agents::models::agents_coordinator::agent_coordinator::{
    find_agent, CoordinatorAgent, CoordinatorPhase, Registration, TERMINATION_TOKEN,
};
use support_agents::models::ai::assistant::ThreadMessageResponse;
use support_agents::models::ai::chatgpt::Message;
use support_agents::models::general::support_case::SupportCase;

fn text(value: &str) -> Event {
    Event::Text(value.to_string())
}

fn config() -> GatewayConfig {
    GatewayConfig {
        endpoint: "https://example.openai.azure.com".to_string(),
        key: "SECRET-REDACTED".to_string(),
        model: "gpt-4o".to_string(),
        api_version: "2024-05-01-preview".to_string(),
    }
}

#[test]
fn session_runs_from_intent_to_quit() {
    let case = SupportCase::opened("Customer Support".to_string(), "My order broke".to_string(), 1, 1000);
    let mut coordinator = CoordinatorAgent::with_case(case);
    assert_eq!(coordinator.phase(), CoordinatorPhase::Fresh);
    assert!(coordinator.agents().is_empty());

    let step = coordinator.handle_support_request_at(Event::Begin, 1001);
    assert!(matches!(step.action, Action::AskGateway(_)));
    assert_eq!(coordinator.phase(), CoordinatorPhase::Classifying);
    assert_eq!(coordinator.agents().len(), 1);
    assert_eq!(coordinator.agents()[0].category, "Customer Feedback and Complaints");

    let step = coordinator.handle_support_request_at(text("Customer Feedback and Complaints"), 1002);
    assert_eq!(step.notices.len(), 2);
    assert_eq!(step.notices[0].role, "Intent Classifier");
    assert_eq!(step.notices[0].message, "Intent classified as: Customer Feedback and Complaints");
    assert_eq!(step.notices[1].message, "Initializing assistant...");
    assert!(matches!(step.action, Action::CreateAssistant { .. }));
    assert_eq!(coordinator.phase(), CoordinatorPhase::Serving);

    let step = coordinator.handle_support_request_at(text("asst_1"), 1003);
    assert!(matches!(step.action, Action::OpenThread { .. }));
    let step = coordinator.handle_support_request_at(text("thread_1"), 1004);
    assert!(matches!(step.action, Action::PostMessage { .. }));
    let step = coordinator.handle_support_request_at(text("We will replace it."), 1005);
    assert_eq!(step.action, Action::AskUser(String::new()));
    assert_eq!(coordinator.phase(), CoordinatorPhase::AwaitingTurn);
    assert_eq!(
        coordinator.support_case().support_response,
        Some("We will replace it.".to_string())
    );

    let step = coordinator.handle_support_request_at(text("When?"), 1006);
    assert!(matches!(
        step.action,
        Action::PostMessage { ref thread_id, .. } if thread_id == "thread_1"
    ));
    assert_eq!(coordinator.support_case().customer_query, "When?");
    let step = coordinator.handle_support_request_at(text("Tomorrow."), 1007);
    assert_eq!(step.action, Action::AskUser(String::new()));

    let step = coordinator.handle_support_request_at(text("ok, I quit now"), 1008);
    assert_eq!(step.action, Action::EndSession);
    assert_eq!(coordinator.phase(), CoordinatorPhase::Ended);
    assert_eq!(coordinator.support_case().customer_query, "ok, I quit now");
    assert_eq!(coordinator.support_case().updated_at, 1008);
    assert!(coordinator.support_case().trace.len() >= 3);
    let step = coordinator.handle_support_request_at(Event::Begin, 1009);
    assert_eq!(step.action, Action::EndSession);
    assert_eq!(TERMINATION_TOKEN, "quit");
}

#[test]
fn intent_without_an_agent_is_fatal() {
    let case = SupportCase::opened("c".to_string(), "q".to_string(), 1, 1000);
    let mut coordinator = CoordinatorAgent::with_case(case);
    coordinator.handle_support_request_at(Event::Begin, 1001);
    let step = coordinator.handle_support_request_at(text("Security Concerns"), 1002);
    assert_eq!(step.action, Action::Halt(FatalError::UnmappedIntent));
    assert_eq!(coordinator.phase(), CoordinatorPhase::Halted(FatalError::UnmappedIntent));
    let step = coordinator.handle_support_request_at(Event::Begin, 1003);
    assert_eq!(step.action, Action::Halt(FatalError::UnmappedIntent));
}

#[test]
fn intent_that_was_not_found_is_fatal() {
    let case = SupportCase::opened("c".to_string(), "q".to_string(), 1, 1000);
    let mut coordinator = CoordinatorAgent::with_case(case);
    coordinator.handle_support_request_at(Event::Begin, 1001);
    let step = coordinator.handle_support_request_at(Event::Failed("down".to_string()), 1002);
    assert_eq!(step.action, Action::Halt(FatalError::UnmappedIntent));
    assert_eq!(coordinator.support_case().support_response, Some("down".to_string()));
}

#[test]
fn registered_agent_serves_its_intent() {
    let case = SupportCase::opened("c".to_string(), "q".to_string(), 1, 1000);
    let mut coordinator = CoordinatorAgent::with_case(case);
    coordinator.register("Order Management".to_string(), Agent::Query(AgentCustomerQuery::new()));
    coordinator.register(
        "Technical Support".to_string(),
        Agent::BackendDeveloper(AgentBackendDeveloper::new()),
    );
    coordinator.register("Order Management".to_string(), Agent::Query(AgentCustomerQuery::new()));
    assert_eq!(coordinator.agents().len(), 2);
    let categories: Vec<&String> =
        coordinator.agents().iter().map(|entry| &entry.category).collect();
    assert_eq!(categories, vec!["Order Management", "Technical Support"]);
    assert_eq!(find_agent(coordinator.agents(), &"Technical Support".to_string()), Some(1));
    assert_eq!(find_agent(coordinator.agents(), &"Order Management".to_string()), Some(0));
    assert_eq!(find_agent(coordinator.agents(), &"Billing".to_string()), None);

    coordinator.handle_support_request_at(Event::Begin, 1001);
    let step = coordinator.handle_support_request_at(text("Technical Support"), 1002);
    assert_eq!(step.action, Action::ReadTemplate);
    assert_eq!(step.notices.last().unwrap().role, "Backend Engineer");
    let step = coordinator.handle_support_request_at(Event::Confirmed(true), 1003);
    assert_eq!(step.action, Action::Halt(FatalError::UnexpectedEvent));
    assert_eq!(coordinator.phase(), CoordinatorPhase::Halted(FatalError::UnexpectedEvent));
}

#[test]
fn agent_registered_last_serves_the_intent() {
    let case = SupportCase::opened("c".to_string(), "q".to_string(), 1, 1000);
    let mut coordinator = CoordinatorAgent::with_case(case);
    coordinator.register(
        "Customer Feedback and Complaints".to_string(),
        Agent::Query(AgentCustomerQuery::new()),
    );
    // The agents of every session take the place of the one registered before.
    coordinator.add_agents();
    coordinator.add_agents();
    assert_eq!(coordinator.agents().len(), 1);
    assert!(matches!(coordinator.agents()[0].agent, Agent::Feedback(_)));
    coordinator.register("Billing".to_string(), Agent::Query(AgentCustomerQuery::new()));
    coordinator.register("Billing".to_string(), Agent::BackendDeveloper(AgentBackendDeveloper::new()));
    assert_eq!(coordinator.agents().len(), 2);
    assert!(matches!(coordinator.agents()[1].agent, Agent::BackendDeveloper(_)));
}

#[test]
fn new_coordinator_opens_a_case() {
    let mut coordinator = CoordinatorAgent::new("Customer Support".to_string(), "Hello".to_string());
    assert_eq!(coordinator.support_case().support_context, "Customer Support");
    assert_eq!(coordinator.support_case().customer_query, "Hello");
    coordinator.add_agents();
    assert_eq!(coordinator.agents().len(), 1);
    let step = coordinator.handle_support_request(Event::Begin);
    assert!(matches!(step.action, Action::AskGateway(_)));
    let step = coordinator.handle_support_request(Event::Done);
    assert_eq!(step.action, Action::Halt(FatalError::UnexpectedEvent));
}

#[test]
fn any_agent_answers_through_the_common_interface() {
    let mut agent = Agent::Query(AgentCustomerQuery::new());
    let mut case = SupportCase::opened("c".to_string(), "q".to_string(), 1, 1000);
    assert_eq!(agent.get_common_from_agent().role, "Customer Support");
    agent.set_assistant_id("asst_3".to_string());
    assert_eq!(agent.get_common_from_agent().assistant_id, Some("asst_3".to_string()));
    let step = agent.execute(&mut case, Event::Begin);
    assert!(matches!(step.action, Action::AskGateway(_)));
    assert_eq!(case.trace.len(), 1);
    let registration = Registration { category: "x".to_string(), agent };
    assert_eq!(registration.category, "x");
}

#[test]
fn test_call_gpt() {
    assert_eq!(
        config().chat_completions_url(),
        "https://example.openai.azure.com/openai/deployments/gpt-4o/chat/completions?api-version=2024-05-01-preview"
    );
    let choices = vec!["Hello!".to_string(), "Hi!".to_string()];
    assert_eq!(call_gpt(&choices), Some("Hello!".to_string()));
    assert_eq!(call_gpt(&Vec::new()), None);
    let headers = config().create_client();
    assert_eq!(headers.len(), 2);
    assert_eq!(headers[0].name, "Content-Type");
    assert_eq!(headers[0].value, "application/json");
    assert_eq!(headers[1].name, "api-key");
    assert_eq!(headers[1].value, "SECRET-REDACTED");
}

#[test]
fn test_create_assistant() {
    assert_eq!(
        create_assistant(&config()),
        "https://example.openai.azure.com/openai/assistants?api-version=2024-05-01-preview"
    );
    let message = Message {
        role: String::from("user"),
        content: String::from("I am not happy with my room."),
    };
    let (url, request) = create_and_run_thread(&config(), message.clone(), "asst_1");
    assert_eq!(
        url,
        "https://example.openai.azure.com/openai/threads/runs?api-version=2024-05-01-preview"
    );
    assert_eq!(request.assistant_id, "asst_1");
    assert_eq!(request.thread.messages, vec![message]);
    assert_eq!(
        create_thread_message(&config(), "thread_1"),
        "https://example.openai.azure.com/openai/threads/thread_1/messages?api-version=2024-05-01-preview"
    );
    let posted = ThreadMessageResponse::new("msg_1".to_string(), "text".to_string());
    assert_eq!(posted.id(), "msg_1");
    assert_eq!(posted.content(), "text");
}
