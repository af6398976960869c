use support_agents::helpers::command_line::CLIPrint;
use support_agents::helpers::request::prepare_message;
use support_agents::models::agents::agent_escalation::{parse_actions, AgentEscalation};
use support_agents::models::agents::agent_feedback::AgentFeedback;
use support_agents::models::agents::agent_intent::AgentIntent;
use support_agents::models::agents::agent_query::AgentCustomerQuery;
use support_agents::models::agents::agent_sentiment::AgentSentiment;
use support_agents::models::agents::agent_texts::{
    ACTIONS_PROMPT, ESCALATION_OBJECTIVE, FEEDBACK_OBJECTIVE, INTENT_OBJECTIVE, QUERY_OBJECTIVE,
    SENTIMENT_OBJECTIVE,
};
use support_agents::models::agents_common::common_agent::{AgentState, CommonAgent};
use support_agents::models::agents_common::common_traits::CommonTrait;
use support_agents::models::agents_common::protocol::{Action, Event, FatalError, Notice, Step};
use support_agents::models::ai::chatgpt::Message;
use support_agents::models::general::support_case::SupportCase;

fn text(value: &str) -> Event {
    Event::Text(value.to_string())
}

fn failed(value: &str) -> Event {
    Event::Failed(value.to_string())
}

fn note(level: CLIPrint, role: &str, message: &str) -> Notice {
    Notice { level, role: role.to_string(), message: message.to_string() }
}

fn halt() -> Step {
    Step { notices: Vec::new(), action: Action::Halt(FatalError::UnexpectedEvent) }
}

#[test]
fn common_agent_starts_waiting() {
    let mut agent = CommonAgent::new("Role".to_string(), "Objective".to_string());
    assert_eq!(agent.get_role(), "Role");
    assert_eq!(agent.get_objective(), "Objective");
    assert_eq!(agent.get_state(), &AgentState::Waiting);
    assert!(agent.get_memory().is_empty());
    assert_eq!(agent.assistant_id, None);
    assert_eq!(agent.thread_id, None);
    agent.update_state(AgentState::Testing);
    assert_eq!(agent.get_state(), &AgentState::Testing);
    assert_eq!(agent.get_role(), "Role");
}

#[test]
fn tests_intent_agent() {
    let context = String::from("E-Commerce Website");
    let query: String = String::from(
        "I cannot believe you are selling this product. Its really bad. I want my money back.",
    );
    let mut agent_intent = AgentIntent::new();
    let mut support_case = SupportCase::opened(context, query.clone(), 1, 1000);

    let step = agent_intent.execute_at(&mut support_case, Event::Begin, 1100);
    let request = prepare_message(INTENT_OBJECTIVE, "E-Commerce Website", &query);
    assert_eq!(
        step,
        Step {
            notices: vec![note(
                CLIPrint::Info,
                "Intent Classifier",
                &format!("Analyzing intent from: {}", query)
            )],
            action: Action::AskGateway(request.clone()),
        }
    );
    assert_eq!(support_case.trace, vec![request]);
    assert_eq!(agent_intent.get_common_from_agent().state, AgentState::Working);
    assert_eq!(support_case.updated_at, 1100);

    let step = agent_intent.execute_at(&mut support_case, text("Customer Feedback and Complaints"), 1200);
    assert_eq!(
        step,
        Step {
            notices: vec![note(
                CLIPrint::Info,
                "Intent Classifier",
                "Intent classified as: Customer Feedback and Complaints"
            )],
            action: Action::Complete,
        }
    );
    assert_eq!(
        support_case.intent_category.as_ref().unwrap(),
        "Customer Feedback and Complaints"
    );
    assert_eq!(support_case.updated_at, 1200);
    assert_eq!(agent_intent.get_common_from_agent().state, AgentState::Waiting);
}

#[test]
fn intent_failure_is_written_into_the_case() {
    let mut agent = AgentIntent::default();
    let mut case = SupportCase::opened("c".to_string(), "q".to_string(), 1, 1000);
    agent.execute_at(&mut case, Event::Begin, 1001);
    let step = agent.execute_at(&mut case, failed("down"), 1002);
    assert_eq!(
        step,
        Step {
            notices: vec![note(
                CLIPrint::Error,
                "Intent Classifier",
                "There was an error: Some(Some(\"down\"))"
            )],
            action: Action::Complete,
        }
    );
    assert_eq!(case.intent_category, None);
    assert_eq!(case.support_response, Some("down".to_string()));
    assert_eq!(agent.get_common_from_agent().state, AgentState::Waiting);
    assert_eq!(case.trace.len(), 1);
}

#[test]
fn intent_agent_refuses_what_it_did_not_ask_for() {
    let mut agent = AgentIntent::new();
    let mut case = SupportCase::opened("c".to_string(), "q".to_string(), 1, 1000);
    assert_eq!(agent.execute_at(&mut case, text("x"), 1), halt());
    assert_eq!(agent.get_common_from_agent().state, AgentState::Waiting);
    agent.execute_at(&mut case, Event::Begin, 2);
    assert_eq!(agent.execute_at(&mut case, Event::Begin, 3), halt());
    assert_eq!(agent.execute_at(&mut case, Event::Status(200), 3), halt());
    assert_eq!(agent.get_common_from_agent().state, AgentState::Working);
    assert_eq!(case.trace.len(), 1);
    assert_eq!(case.updated_at, 1000);
}

#[test]
fn tests_sentiment_agent() {
    let mut agent = AgentSentiment::new();
    let mut case = SupportCase::opened(
        "5 star hotel".to_string(),
        "I am not happy with my room".to_string(),
        1,
        1000,
    );
    let step = agent.execute_at(&mut case, Event::Begin, 1001);
    let request = prepare_message(SENTIMENT_OBJECTIVE, "5 star hotel", "I am not happy with my room");
    assert_eq!(
        step,
        Step {
            notices: vec![note(CLIPrint::Info, "Psychologist", "Analyzing sentiment...")],
            action: Action::AskGateway(request.clone()),
        }
    );
    assert_eq!(case.trace, vec![request]);
    let step = agent.execute_at(&mut case, text("Negative"), 1002);
    assert_eq!(
        step,
        Step {
            notices: vec![note(CLIPrint::Warning, "Psychologist", "Sentiment is 'Negative'")],
            action: Action::Complete,
        }
    );
    assert_eq!(case.sentiment, Some("Negative".to_string()));
    assert!(case.should_escalate);
    assert_eq!(case.updated_at, 1002);
    assert_eq!(agent.get_common_from_agent().state, AgentState::Finished);
    assert_eq!(
        agent.execute_at(&mut case, Event::Begin, 1003),
        Step { notices: Vec::new(), action: Action::Complete }
    );
}

#[test]
fn positive_sentiment_does_not_escalate() {
    let mut agent = AgentSentiment::new();
    let mut case = SupportCase::opened("c".to_string(), "great stay".to_string(), 1, 1000);
    agent.execute_at(&mut case, Event::Begin, 1001);
    let step = agent.execute_at(&mut case, text("Positive"), 1002);
    assert_eq!(
        step.notices,
        vec![note(CLIPrint::Info, "Psychologist", "Sentiment is 'Positive'")]
    );
    assert!(!case.should_escalate);
    assert_eq!(case.sentiment, Some("Positive".to_string()));

}

#[test]
fn answer_that_is_no_sentiment_is_a_failure() {
    for answer in ["Mixed", "negative", "Negative.", "", "The customer is Negative"] {
        let mut agent = AgentSentiment::new();
        let mut case = SupportCase::opened("c".to_string(), "hm".to_string(), 1, 1000);
        agent.execute_at(&mut case, Event::Begin, 1001);
        let step = agent.execute_at(&mut case, text(answer), 1002);
        let failure = format!("Sentiment not recognised: {}", answer);
        assert_eq!(
            step,
            Step {
                notices: vec![note(
                    CLIPrint::Error,
                    "Psychologist",
                    &format!("There was an error: Some(Some({:?}))", failure)
                )],
                action: Action::Complete,
            }
        );
        assert_eq!(case.sentiment, None);
        assert!(!case.should_escalate);
        assert_eq!(case.support_response, Some(failure));
        assert_eq!(case.updated_at, 1002);
        assert_eq!(agent.get_common_from_agent().state, AgentState::Finished);
    }
}

#[test]
fn answer_that_is_no_sentiment_leaves_sentiment_and_mark_as_they_were() {
    let mut agent = AgentSentiment::new();
    let mut case = SupportCase::opened("c".to_string(), "hm".to_string(), 1, 1000);
    case.sentiment = Some("Negative".to_string());
    case.should_escalate = true;
    agent.execute_at(&mut case, Event::Begin, 1001);
    agent.execute_at(&mut case, text("Unsure"), 1002);
    assert_eq!(case.sentiment, Some("Negative".to_string()));
    assert!(case.should_escalate);
    assert_eq!(case.support_response, Some("Sentiment not recognised: Unsure".to_string()));
}

#[test]
fn sentiment_failure_is_reported() {
    let mut agent = AgentSentiment::new();
    let mut case = SupportCase::opened("c".to_string(), "q".to_string(), 1, 1000);
    agent.execute_at(&mut case, Event::Begin, 1001);
    let step = agent.execute_at(&mut case, failed("down"), 1002);
    assert_eq!(
        step.notices,
        vec![note(CLIPrint::Error, "Psychologist", "There was an error: Some(Some(\"down\"))")]
    );
    assert_eq!(case.support_response, Some("down".to_string()));
    assert_eq!(case.sentiment, None);
    assert!(!case.should_escalate);
}

#[test]
fn tests_query_agent() {
    let mut agent: AgentCustomerQuery = AgentCustomerQuery::new();
    let mut support_case: SupportCase = SupportCase::opened(
        "Working at a very large successful 5 start Hotel group.".to_string(),
        "I don't like this room you gave me.".to_string(),
        1,
        1000,
    );
    let step = agent.execute_at(&mut support_case, Event::Begin, 1001);
    let request = prepare_message(
        QUERY_OBJECTIVE,
        "Working at a very large successful 5 start Hotel group.",
        "I don't like this room you gave me.",
    );
    assert_eq!(
        step,
        Step {
            notices: vec![note(
                CLIPrint::Info,
                "Customer Support",
                "Handling initial query: I don't like this room you gave me."
            )],
            action: Action::AskGateway(request.clone()),
        }
    );
    let step = agent.execute_at(&mut support_case, text("We are sorry."), 1002);
    assert_eq!(
        step,
        Step {
            notices: vec![note(CLIPrint::Default, "Customer Support", "We are sorry.")],
            action: Action::Complete,
        }
    );
    assert_eq!(support_case.support_response, Some("We are sorry.".to_string()));
    assert_eq!(
        support_case.trace,
        vec![
            request,
            Message { role: "assistant".to_string(), content: "We are sorry.".to_string() }
        ]
    );
    assert_eq!(agent.get_common_from_agent().state, AgentState::Finished);
    let again = agent.execute_at(&mut support_case, Event::Begin, 1003);
    assert_eq!(
        again,
        Step {
            notices: vec![note(CLIPrint::Default, "Customer Support", "We are sorry.")],
            action: Action::Complete,
        }
    );
}

#[test]
fn query_failure_is_the_response() {
    let mut agent = AgentCustomerQuery::new();
    let mut case = SupportCase::opened("c".to_string(), "q".to_string(), 1, 1000);
    agent.execute_at(&mut case, Event::Begin, 1001);
    let step = agent.execute_at(&mut case, failed("down"), 1002);
    assert_eq!(
        step.notices,
        vec![
            note(CLIPrint::Error, "Customer Support", "There was an error: Some(Some(\"down\"))"),
            note(CLIPrint::Default, "Customer Support", "down"),
        ]
    );
    assert_eq!(case.support_response, Some("down".to_string()));
    assert_eq!(case.trace.len(), 1);
}

#[test]
fn tests_feedback_agent() {
    let mut agent = AgentFeedback::new();
    let mut case = SupportCase::opened("Hotel".to_string(), "The room is cold".to_string(), 1, 1000);
    case.record(Message { role: "system".to_string(), content: "earlier".to_string() });

    let step = agent.execute_at(&mut case, Event::Begin, 1001);
    assert_eq!(
        step,
        Step {
            notices: vec![note(
                CLIPrint::Info,
                "Feedback and Complaints Agent",
                "Initializing assistant..."
            )],
            action: Action::CreateAssistant {
                name: "Feedback and Complaints Agent".to_string(),
                instructions: FEEDBACK_OBJECTIVE.to_string(),
            },
        }
    );
    let step = agent.execute_at(&mut case, text("asst_1"), 1002);
    assert_eq!(
        step,
        Step {
            notices: Vec::new(),
            action: Action::OpenThread {
                assistant_id: "asst_1".to_string(),
                message: Message { role: "user".to_string(), content: "The room is cold".to_string() },
            },
        }
    );
    assert_eq!(agent.get_common_from_agent().assistant_id, Some("asst_1".to_string()));
    let step = agent.execute_at(&mut case, text("thread_9"), 1003);
    let posted = prepare_message(
        FEEDBACK_OBJECTIVE,
        "Hotel",
        "The room is cold CHAT HISTORY: system: earlier\n",
    );
    assert_eq!(
        step,
        Step {
            notices: vec![note(
                CLIPrint::Info,
                "Feedback and Complaints Agent",
                "Handling Feedback and Complaints"
            )],
            action: Action::PostMessage {
                assistant_id: "asst_1".to_string(),
                thread_id: "thread_9".to_string(),
                message: posted.clone(),
            },
        }
    );
    assert_eq!(agent.get_common_from_agent().thread_id, Some("thread_9".to_string()));
    assert_eq!(case.trace.len(), 2);
    assert_eq!(case.trace[1], posted);
    let step = agent.execute_at(&mut case, text("I hear you."), 1004);
    assert_eq!(
        step,
        Step {
            notices: vec![note(CLIPrint::Info, "Feedback and Complaints Agent", "I hear you.")],
            action: Action::Complete,
        }
    );
    assert_eq!(case.support_response, Some("I hear you.".to_string()));
    assert_eq!(agent.get_common_from_agent().state, AgentState::Waiting);

    // The next turn goes straight to the conversation that is open.
    case.customer_query = "Still cold".to_string();
    let step = agent.execute_at(&mut case, Event::Begin, 1005);
    assert!(matches!(
        step.action,
        Action::PostMessage { ref assistant_id, ref thread_id, .. }
            if assistant_id == "asst_1" && thread_id == "thread_9"
    ));
}

#[test]
fn feedback_failure_is_the_response() {
    let mut agent = AgentFeedback::new();
    let mut case = SupportCase::opened("c".to_string(), "q".to_string(), 1, 1000);
    agent.set_assistant_id("asst_7".to_string());
    let step = agent.execute_at(&mut case, Event::Begin, 1001);
    assert!(matches!(step.action, Action::OpenThread { ref assistant_id, .. } if assistant_id == "asst_7"));
    let step = agent.execute_at(&mut case, failed("no thread"), 1002);
    assert_eq!(step.action, Action::Complete);
    assert_eq!(
        step.notices,
        vec![
            note(
                CLIPrint::Error,
                "Feedback and Complaints Agent",
                "There was an error: Some(Some(\"no thread\"))"
            ),
            note(CLIPrint::Info, "Feedback and Complaints Agent", "no thread"),
        ]
    );
    assert_eq!(case.support_response, Some("no thread".to_string()));
    assert_eq!(case.updated_at, 1002);
    assert_eq!(agent.get_common_from_agent().thread_id, None);
}

#[test]
fn action_list_is_read_as_json() {
    assert_eq!(
        parse_actions("[\"Change room\",\"Call room service\"]"),
        Some(vec!["Change room".to_string(), "Call room service".to_string()])
    );
    assert_eq!(parse_actions(" [ \"a\\n\\\"b\\\"\" ] "), Some(vec!["a\n\"b\"".to_string()]));
    assert_eq!(parse_actions("[]"), Some(Vec::new()));
    assert_eq!(parse_actions("Change room"), None);
    assert_eq!(parse_actions("[\"a\",]"), None);
    assert_eq!(parse_actions("[1,2]"), None);
    assert_eq!(parse_actions("[\"a\"] tail"), None);
    assert_eq!(parse_actions(""), None);
}

fn escalated_case() -> SupportCase {
    let mut case = SupportCase::opened(
        "5 star hotel".to_string(),
        "I am not happy with my room".to_string(),
        1,
        1000,
    );
    let mut sentiment = AgentSentiment::new();
    sentiment.execute_at(&mut case, Event::Begin, 1001);
    sentiment.execute_at(&mut case, text("Negative"), 1002);
    assert!(case.should_escalate);
    case
}

#[test]
fn unhappy_guest_is_escalated_and_gets_an_action() {
    let mut case = escalated_case();
    let mut agent = AgentEscalation::new();
    let step = agent.execute_at(&mut case, Event::Begin, 1003);
    let proposal = prepare_message(ACTIONS_PROMPT, "5 star hotel", "I am not happy with my room");
    assert_eq!(
        step,
        Step {
            notices: vec![note(CLIPrint::Info, "Escalation Manager", "Preparing action items...")],
            action: Action::AskGateway(proposal),
        }
    );
    let step = agent.execute_at(&mut case, text("[\"Change room\",\"Call room service\"]"), 1004);
    assert_eq!(
        case.supported_actions,
        vec!["Change room".to_string(), "Call room service".to_string()]
    );
    let decision = prepare_message(
        &format!("{} ONLY AVAILABLE ACTIONS:Change room,Call room service", ESCALATION_OBJECTIVE),
        "5 star hotel",
        "I am not happy with my room",
    );
    assert_eq!(
        step,
        Step {
            notices: vec![note(CLIPrint::Info, "Escalation Manager", "Handling escalation...")],
            action: Action::AskGateway(decision),
        }
    );
    let step = agent.execute_at(&mut case, text("Change room"), 1005);
    assert_eq!(
        step,
        Step {
            notices: vec![
                note(
                    CLIPrint::Info,
                    "Escalation Manager",
                    "Possible actions to choose from: Change room,Call room service"
                ),
                note(CLIPrint::Default, "Escalation Manager", "Change room"),
            ],
            action: Action::Complete,
        }
    );
    assert!(!case.supported_actions.is_empty());
    assert_eq!(case.support_response, Some("Change room".to_string()));
    assert!(!case.needs_upper_management_attention);
    assert_eq!(case.updated_at, 1005);
    assert_eq!(case.trace.len(), 3);
    assert_eq!(agent.get_common_from_agent().state, AgentState::Finished);
}

#[test]
fn very_unhappy_guest_goes_to_upper_management() {
    let mut case = escalated_case();
    case.support_response = Some("an earlier answer".to_string());
    let mut agent = AgentEscalation::new();
    agent.execute_at(&mut case, Event::Begin, 1003);
    agent.execute_at(&mut case, text("[\"Change room\"]"), 1004);
    let step = agent.execute_at(&mut case, text("upper management"), 1005);
    assert_eq!(
        step,
        Step {
            notices: vec![note(
                CLIPrint::Warning,
                "Escalation Manager",
                "Upper management will be with you shortly."
            )],
            action: Action::Complete,
        }
    );
    assert!(case.needs_upper_management_attention);
    assert!(case.escalated);
    assert_eq!(case.support_response, None);
    assert!(!case.supported_actions.is_empty());
}

#[test]
fn escalation_that_the_gateway_fails_holds_the_failure() {
    let mut case = escalated_case();
    let mut agent = AgentEscalation::new();
    agent.execute_at(&mut case, Event::Begin, 1003);
    let step = agent.execute_at(&mut case, failed("down"), 1004);
    assert_eq!(
        step,
        Step {
            notices: vec![
                note(
                    CLIPrint::Error,
                    "Escalation Manager",
                    "There was an error: Some(Some(\"down\"))"
                ),
                note(CLIPrint::Info, "Escalation Manager", "Possible actions to choose from: "),
                note(CLIPrint::Default, "Escalation Manager", "down"),
            ],
            action: Action::Complete,
        }
    );
    assert_eq!(case.support_response, Some("down".to_string()));
    assert!(!case.needs_upper_management_attention);
    assert!(!case.escalated);
    assert_eq!(case.updated_at, 1004);
    assert_eq!(agent.get_common_from_agent().state, AgentState::Finished);

    let mut second = escalated_case();
    let mut other = AgentEscalation::new();
    other.execute_at(&mut second, Event::Begin, 1003);
    other.execute_at(&mut second, text("[\"Change room\",\"Call room service\"]"), 1004);
    let step = other.execute_at(&mut second, failed("still down"), 1005);
    assert_eq!(step.action, Action::Complete);
    assert_eq!(second.support_response, Some("still down".to_string()));
    assert!(!second.needs_upper_management_attention);
    assert!(!second.escalated);
    assert_eq!(
        second.supported_actions,
        vec!["Change room".to_string(), "Call room service".to_string()]
    );
    assert_eq!(second.trace.len(), 3);

    // A call for upper management that stood before the failure stands after it.
    let mut third = escalated_case();
    third.needs_upper_management_attention = true;
    third.escalated = true;
    let mut last = AgentEscalation::new();
    last.execute_at(&mut third, Event::Begin, 1003);
    last.execute_at(&mut third, failed("down"), 1004);
    assert!(third.needs_upper_management_attention);
    assert!(third.escalated);
    assert_eq!(third.support_response, Some("down".to_string()));
}

#[test]
fn action_list_that_cannot_be_read_is_fatal() {
    let mut case = escalated_case();
    let mut agent = AgentEscalation::new();
    agent.execute_at(&mut case, Event::Begin, 1003);
    let step = agent.execute_at(&mut case, text("Change room, Call room service"), 1004);
    assert_eq!(
        step,
        Step { notices: Vec::new(), action: Action::Halt(FatalError::MalformedActions) }
    );
    assert_eq!(agent.get_common_from_agent().state, AgentState::Error);
    assert!(case.supported_actions.is_empty());
}

#[test]
fn case_that_is_not_escalated_is_left_alone() {
    let mut case = SupportCase::opened("c".to_string(), "all fine".to_string(), 1, 1000);
    let mut agent = AgentEscalation::new();
    let step = agent.execute_at(&mut case, Event::Begin, 1001);
    assert_eq!(step, Step { notices: Vec::new(), action: Action::Complete });
    assert!(case.trace.is_empty());
    assert_eq!(case.updated_at, 1000);
    assert_eq!(agent.get_common_from_agent().state, AgentState::Waiting);
}

#[test]
fn agents_keep_trace_and_time_in_order() {
    let mut case = SupportCase::opened("c".to_string(), "q".to_string(), 1, 5000);
    let mut intent = AgentIntent::new();
    intent.execute_at(&mut case, Event::Begin, 10);
    let length = case.trace.len();
    // The clock stepped back: the time of update stays where it was.
    intent.execute_at(&mut case, text("Billing and Payments"), 10);
    assert_eq!(case.updated_at, 5000);
    assert!(case.updated_at >= case.created_at);
    assert!(case.trace.len() >= length);
    let mut query = AgentCustomerQuery::new();
    query.execute(&mut case, Event::Begin);
    query.execute(&mut case, text("reply"));
    assert!(case.updated_at >= 5000);
    assert!(case.updated_at >= case.created_at);
    assert_eq!(case.trace.len(), length + 2);
}

#[test]
fn objectives_are_the_instructions_of_the_agents() {
    assert_eq!(AgentIntent::new().get_common_from_agent().objective, INTENT_OBJECTIVE);
    assert_eq!(AgentSentiment::new().get_common_from_agent().objective, SENTIMENT_OBJECTIVE);
    assert_eq!(AgentCustomerQuery::new().get_common_from_agent().objective, QUERY_OBJECTIVE);
    assert_eq!(AgentEscalation::new().get_common_from_agent().objective, ESCALATION_OBJECTIVE);
    assert_eq!(AgentFeedback::new().get_common_from_agent().objective, FEEDBACK_OBJECTIVE);
    assert!(INTENT_OBJECTIVE.contains("'Customer Feedback and Complaints'"));
    assert!(SENTIMENT_OBJECTIVE.starts_with("You are a Psychologist helping out Customer Support."));
    assert!(ESCALATION_OBJECTIVE.contains("'upper management'"));
    assert!(ACTIONS_PROMPT.contains("VALID JSON array"));
}
