use support_agents::helpers::command_line::CLIPrint;
use support_agents::helpers::request::prepare_message;
use support_agents::models::agents::agent_backend::{
    extract_api_request, fix_code_request, frame_fix_request, improved_code_request,
    initial_code_request, AgentBackendDeveloper, BackendPhase, MAX_BUILD_RETRIES,
};
use support_agents::models::agents::backend_prompts::{
    PROMPT_EXTRACT_API, PROMPT_FIX_CODE, PROMPT_GENERATE_BACKEND, PROMPT_IMPROVE_CODE,
};
use support_agents::models::agents_common::common_agent::AgentState;
use support_agents::models::agents_common::protocol::{Action, Event, FatalError, Notice, Step};
use support_agents::models::general::route::Route;
use support_agents::models::general::support_case::SupportCase;

const ROLE: &str = "Backend Engineer";
const OBJECTIVE: &str = "Develops backend code for webserver and JSON database.";

fn case() -> SupportCase {
    let mut case = SupportCase::opened("5 star hotel".to_string(), "q".to_string(), 1, 1000);
    case.supported_actions = vec!["Change room".to_string(), "Call room service".to_string()];
    case
}

fn route(path: &str, method: &str, dynamic: &str) -> Route {
    Route {
        is_route_dynamic: dynamic.to_string(),
        method: method.to_string(),
        request_body: "\"None\"".to_string(),
        response: "\"None\"".to_string(),
        route: path.to_string(),
    }
}

fn routes() -> Vec<Route> {
    vec![
        route("/tasks", "post", "false"),
        route("/tasks", "get", "false"),
        route("/tasks/{id}", "get", "true"),
        route("/health", "get", "false"),
    ]
}

fn text(value: &str) -> Event {
    Event::Text(value.to_string())
}

fn note(level: CLIPrint, message: &str) -> Notice {
    Notice { level, role: ROLE.to_string(), message: message.to_string() }
}

fn silent(action: Action) -> Step {
    Step { notices: Vec::new(), action }
}

fn saying(level: CLIPrint, message: &str, action: Action) -> Step {
    Step { notices: vec![note(level, message)], action }
}

fn ask(case: &SupportCase, body: &str) -> Action {
    Action::AskGateway(prepare_message(OBJECTIVE, &case.support_context, body))
}

fn state(agent: &AgentBackendDeveloper) -> AgentState {
    agent.get_common_from_agent().state
}

/// Drives a fresh agent up to the point where the first build is pending.
fn up_to_first_build(agent: &mut AgentBackendDeveloper, case: &mut SupportCase) {
    agent.execute_at(case, Event::Begin, 1);
    agent.execute_at(case, text("TEMPLATE"), 2);
    agent.execute_at(case, text("fn main() {}"), 3);
    agent.execute_at(case, Event::Done, 4);
    agent.execute_at(case, text("TEMPLATE"), 5);
    agent.execute_at(case, text("fn main() { improved }"), 6);
    agent.execute_at(case, Event::Done, 7);
    let step = agent.execute_at(case, Event::Confirmed(true), 8);
    assert_eq!(step.action, Action::Build);
    assert_eq!(agent.phase(), BackendPhase::Building);
}

/// Drives an agent whose build just failed through the repair, up to the
/// next build.
fn repair_up_to_build(agent: &mut AgentBackendDeveloper, case: &mut SupportCase, source: &str) {
    assert_eq!(agent.phase(), BackendPhase::ReadingSourceForFix);
    let step = agent.execute_at(case, text(source), 20);
    let body = fix_code_request(source, agent.bug_errors());
    assert_eq!(step, silent(ask(case, &body)));
    assert_eq!(agent.execute_at(case, text("fixed"), 21), silent(Action::SaveSource("fixed".to_string())));
    assert_eq!(agent.execute_at(case, Event::Done, 22).action, Action::Confirm);
    assert_eq!(agent.execute_at(case, Event::Confirmed(true), 23).action, Action::Build);
}

fn built(success: bool, diagnostics: &str) -> Event {
    Event::Built { success, diagnostics: diagnostics.to_string() }
}

#[test]
fn new_agent_waits() {
    let agent = AgentBackendDeveloper::new();
    let common = agent.get_common_from_agent();
    assert_eq!(common.role, ROLE);
    assert_eq!(common.objective, OBJECTIVE);
    assert_eq!(common.state, AgentState::Waiting);
    assert!(common.memory.is_empty());
    assert_eq!(agent.phase(), BackendPhase::Fresh);
    assert_eq!(agent.bug_count(), 0);
    assert_eq!(agent.bug_errors(), &None);
    assert!(agent.probe_queue().is_empty());
    assert_eq!(MAX_BUILD_RETRIES, 2);
}

#[test]
fn generation_then_improvement_then_testing() {
    let mut agent = AgentBackendDeveloper::new();
    let mut case = case();
    let before = case.trace.len();

    let step = agent.execute_at(&mut case, Event::Begin, 1);
    assert_eq!(step, saying(CLIPrint::Info, "Starting to generate backend code...", Action::ReadTemplate));
    assert_eq!(state(&agent), AgentState::Waiting);

    let step = agent.execute_at(&mut case, text("TEMPLATE"), 2);
    let body = format!(
        "{} CODE_TEMPLATE: TEMPLATE \n ACTIONS_DESCRIPTION: Change room,Call room service \n",
        PROMPT_GENERATE_BACKEND
    );
    assert_eq!(step, silent(ask(&case, &body)));

    let step = agent.execute_at(&mut case, text("fn main() {}"), 3);
    assert_eq!(step, silent(Action::SaveSource("fn main() {}".to_string())));
    assert_eq!(state(&agent), AgentState::Waiting);

    let step = agent.execute_at(&mut case, Event::Done, 4);
    assert_eq!(step, silent(Action::ReadTemplate));
    assert_eq!(state(&agent), AgentState::Working);
    assert_eq!(agent.phase(), BackendPhase::ReadingTemplateForImprovement);

    let step = agent.execute_at(&mut case, text("TEMPLATE"), 5);
    let body = format!(
        "{} CODE_TEMPLATE: TEMPLATE \n ACTIONS_DESCRIPTION: Change room,Call room service \n",
        PROMPT_IMPROVE_CODE
    );
    assert_eq!(step, silent(ask(&case, &body)));

    let step = agent.execute_at(&mut case, text("better"), 6);
    assert_eq!(step, silent(Action::SaveSource("better".to_string())));

    let step = agent.execute_at(&mut case, Event::Done, 7);
    assert_eq!(
        step,
        saying(CLIPrint::Info, "Backend Code Unit Testing: Requesting user input.", Action::Confirm)
    );
    assert_eq!(state(&agent), AgentState::Testing);

    let step = agent.execute_at(&mut case, Event::Confirmed(true), 8);
    assert_eq!(
        step,
        saying(CLIPrint::Info, "Backend Code Unit Testing: Building Project...", Action::Build)
    );
    assert_eq!(case.trace.len(), before);
    assert_eq!(case.updated_at, 1000);
}

#[test]
fn clean_run_ends_finished_with_the_service_stopped() {
    let mut agent = AgentBackendDeveloper::new();
    let mut case = case();
    up_to_first_build(&mut agent, &mut case);

    let step = agent.execute_at(&mut case, built(true, ""), 9);
    assert_eq!(
        step,
        saying(
            CLIPrint::Info,
            "Backend Code Unit Testing: Test server build successful.",
            Action::ReadSource
        )
    );
    let step = agent.execute_at(&mut case, text("SOURCE"), 10);
    assert_eq!(step, silent(ask(&case, &format!("{} CODE INPUT: SOURCE", PROMPT_EXTRACT_API))));
    let step = agent.execute_at(&mut case, text("[schema]"), 11);
    assert_eq!(step, silent(Action::SaveSchema("[schema]".to_string())));
    let step = agent.execute_at(&mut case, Event::Done, 12);
    assert_eq!(step, silent(Action::DecodeRoutes("[schema]".to_string())));
    let step = agent.execute_at(&mut case, Event::Routes(routes()), 13);
    assert_eq!(
        step,
        saying(CLIPrint::Info, "Backend Code Unit Testing: Starting Web Server...", Action::Launch)
    );
    assert_eq!(
        agent.probe_queue(),
        &vec![route("/tasks", "get", "false"), route("/health", "get", "false")]
    );
    let step = agent.execute_at(&mut case, Event::Done, 14);
    assert_eq!(
        step,
        saying(
            CLIPrint::Info,
            "Backend Code Unit Testing: Launching tests on server in couple seconds...",
            Action::WarmUp { seconds: 5 }
        )
    );
    let step = agent.execute_at(&mut case, Event::Done, 15);
    assert_eq!(
        step,
        saying(
            CLIPrint::Info,
            "Testing endpoint '/tasks'...",
            Action::Probe { url: "http://localhost:8080/tasks".to_string(), timeout_seconds: 5 }
        )
    );
    let step = agent.execute_at(&mut case, Event::Status(200), 16);
    assert_eq!(
        step,
        saying(
            CLIPrint::Info,
            "Testing endpoint '/health'...",
            Action::Probe { url: "http://localhost:8080/health".to_string(), timeout_seconds: 5 }
        )
    );
    let step = agent.execute_at(&mut case, Event::Status(200), 17);
    assert_eq!(step, saying(CLIPrint::Info, "Backend testing complete.", Action::Terminate));
    assert_eq!(agent.phase(), BackendPhase::Stopping);
    let step = agent.execute_at(&mut case, Event::Done, 18);
    assert_eq!(step, silent(Action::Complete));
    assert_eq!(agent.phase(), BackendPhase::Finished);
    assert_eq!(state(&agent), AgentState::Finished);
    assert!(!agent.phase().may_serve());
    assert_eq!(agent.bug_count(), 0);

    // A finished agent has nothing left to do.
    assert_eq!(agent.execute_at(&mut case, Event::Begin, 19), silent(Action::Complete));
    assert_eq!(state(&agent), AgentState::Finished);
}

#[test]
fn service_without_static_get_routes_is_started_and_stopped() {
    let mut agent = AgentBackendDeveloper::new();
    let mut case = case();
    up_to_first_build(&mut agent, &mut case);
    agent.execute_at(&mut case, built(true, ""), 9);
    agent.execute_at(&mut case, text("SOURCE"), 10);
    agent.execute_at(&mut case, text("[]"), 11);
    agent.execute_at(&mut case, Event::Done, 12);
    let only_mutating = vec![route("/a", "post", "false"), route("/b/{id}", "get", "true")];
    assert_eq!(agent.execute_at(&mut case, Event::Routes(only_mutating), 13).action, Action::Launch);
    agent.execute_at(&mut case, Event::Done, 14);
    let step = agent.execute_at(&mut case, Event::Done, 15);
    assert_eq!(step, saying(CLIPrint::Info, "Backend testing complete.", Action::Terminate));
    assert_eq!(agent.execute_at(&mut case, Event::Done, 16).action, Action::Complete);
    assert_eq!(state(&agent), AgentState::Finished);
}

#[test]
fn two_failed_builds_are_repaired_and_the_third_build_resets_the_count() {
    let mut agent = AgentBackendDeveloper::new();
    let mut case = case();
    up_to_first_build(&mut agent, &mut case);

    let step = agent.execute_at(&mut case, built(false, "error[E0425]: first"), 9);
    assert_eq!(step, silent(Action::ReadSource));
    assert_eq!(agent.bug_count(), 1);
    assert_eq!(agent.bug_errors(), &Some("error[E0425]: first".to_string()));
    assert_eq!(state(&agent), AgentState::Working);
    repair_up_to_build(&mut agent, &mut case, "broken one");

    let step = agent.execute_at(&mut case, built(false, "error[E0308]: second"), 24);
    assert_eq!(step, silent(Action::ReadSource));
    assert_eq!(agent.bug_count(), 2);
    assert_eq!(agent.bug_errors(), &Some("error[E0308]: second".to_string()));
    repair_up_to_build(&mut agent, &mut case, "broken two");

    let step = agent.execute_at(&mut case, built(true, ""), 30);
    assert_eq!(step.action, Action::ReadSource);
    assert_eq!(agent.bug_count(), 0);
    assert_eq!(agent.bug_errors(), &None);
    assert_eq!(agent.phase(), BackendPhase::ReadingSourceForSchema);

    // The schema is asked for once, and only static get routes are probed.
    let mut asked_for_schema = 0;
    let mut probed: Vec<String> = Vec::new();
    let mut pending = agent.execute_at(&mut case, text("SOURCE"), 31);
    let mut clock = 32;
    while !pending.action.is_final() {
        let event = match &pending.action {
            Action::AskGateway(message) => {
                assert!(message.content.contains("CODE INPUT: SOURCE"));
                asked_for_schema += 1;
                text("[schema]")
            }
            Action::SaveSchema(_) | Action::Launch | Action::WarmUp { .. } | Action::Terminate => {
                Event::Done
            }
            Action::DecodeRoutes(_) => Event::Routes(routes()),
            Action::Probe { url, .. } => {
                probed.push(url.clone());
                Event::Status(200)
            }
            other => panic!("unexpected action {:?}", other),
        };
        pending = agent.execute_at(&mut case, event, clock);
        clock += 1;
    }
    assert_eq!(pending.action, Action::Complete);
    assert_eq!(asked_for_schema, 1);
    assert_eq!(probed, vec!["http://localhost:8080/tasks", "http://localhost:8080/health"]);
    assert_eq!(state(&agent), AgentState::Finished);
    assert_eq!(agent.bug_count(), 0);
}

#[test]
fn third_failed_build_in_a_row_is_fatal() {
    let mut agent = AgentBackendDeveloper::new();
    let mut case = case();
    up_to_first_build(&mut agent, &mut case);
    agent.execute_at(&mut case, built(false, "one"), 9);
    repair_up_to_build(&mut agent, &mut case, "s1");
    agent.execute_at(&mut case, built(false, "two"), 24);
    assert_eq!(agent.bug_count(), MAX_BUILD_RETRIES);
    repair_up_to_build(&mut agent, &mut case, "s2");

    let step = agent.execute_at(&mut case, built(false, "three"), 30);
    assert_eq!(
        step,
        saying(
            CLIPrint::Error,
            "Backend Code Unit Testing: Too many bugs found in code.",
            Action::Halt(FatalError::TooManyBugs)
        )
    );
    assert_eq!(agent.bug_count(), 3);
    assert_eq!(agent.bug_errors(), &Some("three".to_string()));
    assert_eq!(agent.phase(), BackendPhase::Halted(FatalError::TooManyBugs));
    assert_eq!(state(&agent), AgentState::Error);

    // Nothing brings a halted agent back, not even a build that succeeds.
    for event in [built(true, ""), Event::Begin, Event::Done, Event::Confirmed(true), text("x")] {
        assert_eq!(agent.execute_at(&mut case, event, 31), silent(Action::Halt(FatalError::TooManyBugs)));
        assert_eq!(state(&agent), AgentState::Error);
        assert_eq!(agent.bug_count(), 3);
    }
}

#[test]
fn declined_confirmation_is_fatal() {
    let mut agent = AgentBackendDeveloper::new();
    let mut case = case();
    agent.execute_at(&mut case, Event::Begin, 1);
    agent.execute_at(&mut case, text("TEMPLATE"), 2);
    agent.execute_at(&mut case, text("code"), 3);
    agent.execute_at(&mut case, Event::Done, 4);
    agent.execute_at(&mut case, text("TEMPLATE"), 5);
    agent.execute_at(&mut case, text("code"), 6);
    assert_eq!(agent.execute_at(&mut case, Event::Done, 7).action, Action::Confirm);
    let step = agent.execute_at(&mut case, Event::Confirmed(false), 8);
    assert_eq!(step, silent(Action::Halt(FatalError::UnsafeCodeDeclined)));
    assert_eq!(state(&agent), AgentState::Error);
    assert_eq!(
        agent.execute_at(&mut case, Event::Confirmed(true), 9),
        silent(Action::Halt(FatalError::UnsafeCodeDeclined))
    );
}

fn up_to_first_probe(agent: &mut AgentBackendDeveloper, case: &mut SupportCase) {
    up_to_first_build(agent, case);
    agent.execute_at(case, built(true, ""), 9);
    agent.execute_at(case, text("SOURCE"), 10);
    agent.execute_at(case, text("[schema]"), 11);
    agent.execute_at(case, Event::Done, 12);
    agent.execute_at(case, Event::Routes(routes()), 13);
    agent.execute_at(case, Event::Done, 14);
    let step = agent.execute_at(case, Event::Done, 15);
    assert!(matches!(step.action, Action::Probe { .. }));
    assert_eq!(agent.phase(), BackendPhase::Probing);
}

#[test]
fn probe_without_answer_stops_the_service_and_the_sweep() {
    let mut agent = AgentBackendDeveloper::new();
    let mut case = case();
    up_to_first_probe(&mut agent, &mut case);
    let step = agent.execute_at(&mut case, Event::Failed("connection refused".to_string()), 16);
    assert_eq!(step, saying(CLIPrint::Error, "connection refused", Action::Terminate));
    assert_eq!(state(&agent), AgentState::Error);
    assert!(!agent.phase().may_serve());
    let step = agent.execute_at(&mut case, Event::Done, 17);
    assert_eq!(step, silent(Action::Halt(FatalError::ProbeTransport)));
    assert_eq!(agent.phase(), BackendPhase::Halted(FatalError::ProbeTransport));
    for event in [Event::Status(200), Event::Done, Event::Begin] {
        let step = agent.execute_at(&mut case, event, 18);
        assert_eq!(step, silent(Action::Halt(FatalError::ProbeTransport)));
    }
    assert_eq!(state(&agent), AgentState::Error);
}

#[test]
fn unhealthy_status_is_a_warning_and_the_sweep_goes_on() {
    let mut agent = AgentBackendDeveloper::new();
    let mut case = case();
    up_to_first_probe(&mut agent, &mut case);
    let step = agent.execute_at(&mut case, Event::Status(500), 16);
    assert_eq!(
        step,
        Step {
            notices: vec![
                note(CLIPrint::Warning, "WARNING: Failed to call endpoint: /tasks"),
                note(CLIPrint::Info, "Testing endpoint '/health'..."),
            ],
            action: Action::Probe {
                url: "http://localhost:8080/health".to_string(),
                timeout_seconds: 5
            },
        }
    );
    let step = agent.execute_at(&mut case, Event::Status(404), 17);
    assert_eq!(
        step,
        Step {
            notices: vec![
                note(CLIPrint::Warning, "WARNING: Failed to call endpoint: /health"),
                note(CLIPrint::Info, "Backend testing complete."),
            ],
            action: Action::Terminate,
        }
    );
    assert_eq!(agent.execute_at(&mut case, Event::Done, 18).action, Action::Complete);
    assert_eq!(state(&agent), AgentState::Finished);
}

#[test]
fn schema_that_cannot_be_read_is_fatal() {
    let mut agent = AgentBackendDeveloper::new();
    let mut case = case();
    up_to_first_build(&mut agent, &mut case);
    agent.execute_at(&mut case, built(true, ""), 9);
    agent.execute_at(&mut case, text("SOURCE"), 10);
    agent.execute_at(&mut case, text("not json"), 11);
    assert_eq!(
        agent.execute_at(&mut case, Event::Done, 12),
        silent(Action::DecodeRoutes("not json".to_string()))
    );
    let step = agent.execute_at(&mut case, Event::Failed("expected value".to_string()), 13);
    assert_eq!(
        step,
        saying(CLIPrint::Error, "expected value", Action::Halt(FatalError::MalformedSchema))
    );
    assert_eq!(state(&agent), AgentState::Error);
}

#[test]
fn gateway_failure_is_written_into_the_case() {
    let mut agent = AgentBackendDeveloper::new();
    let mut case = case();
    agent.execute_at(&mut case, Event::Begin, 1);
    agent.execute_at(&mut case, text("TEMPLATE"), 2);
    let step = agent.execute_at(&mut case, Event::Failed("gateway down".to_string()), 2000);
    assert_eq!(step, saying(CLIPrint::Error, "gateway down", Action::Complete));
    assert_eq!(case.support_response, Some("gateway down".to_string()));
    assert_eq!(case.updated_at, 2000);
    assert_eq!(case.created_at, 1000);
    assert_eq!(state(&agent), AgentState::Error);
    assert_eq!(agent.phase(), BackendPhase::Stopped);
    assert_eq!(agent.execute_at(&mut case, Event::Begin, 2001), silent(Action::Complete));
    assert_eq!(state(&agent), AgentState::Error);
}

#[test]
fn event_that_answers_nothing_is_fatal() {
    let mut agent = AgentBackendDeveloper::new();
    let mut case = case();
    let step = agent.execute_at(&mut case, Event::Done, 1);
    assert_eq!(step, silent(Action::Halt(FatalError::UnexpectedEvent)));
    assert_eq!(state(&agent), AgentState::Error);

    let mut serving = AgentBackendDeveloper::new();
    up_to_first_probe(&mut serving, &mut case);
    let step = serving.execute_at(&mut case, Event::Begin, 16);
    assert_eq!(step, silent(Action::Terminate));
    assert!(!serving.phase().may_serve());
    let step = serving.execute_at(&mut case, Event::Done, 17);
    assert_eq!(step, silent(Action::Halt(FatalError::UnexpectedEvent)));
}

#[test]
fn execute_reads_the_clock_on_failure() {
    let mut agent = AgentBackendDeveloper::new();
    let mut case = case();
    assert_eq!(agent.execute(&mut case, Event::Begin).action, Action::ReadTemplate);
    assert!(matches!(agent.execute(&mut case, text("T")).action, Action::AskGateway(_)));
    let step = agent.execute(&mut case, Event::Failed("down".to_string()));
    assert_eq!(step.action, Action::Complete);
    assert!(case.updated_at > 1_577_836_800_000);
    assert!(case.updated_at >= case.created_at);
}

#[test]
fn requests_are_made_of_prompt_and_material() {
    let actions = vec!["a".to_string(), "b".to_string()];
    assert_eq!(
        initial_code_request("T", &actions),
        format!("{} CODE_TEMPLATE: T \n ACTIONS_DESCRIPTION: a,b \n", PROMPT_GENERATE_BACKEND)
    );
    assert_eq!(
        improved_code_request("T", &Vec::new()),
        format!("{} CODE_TEMPLATE: T \n ACTIONS_DESCRIPTION:  \n", PROMPT_IMPROVE_CODE)
    );
    assert_eq!(
        frame_fix_request("S", "E"),
        format!(
            "{} BACKEND_CODE: S \n ERROR_BUGS: E \n THIS FUNCTION ONLY OUTPUTS CODE. JUST OUTPUT THE CODE.",
            PROMPT_FIX_CODE
        )
    );
    let errors = Some("error: \"x\"\n".to_string());
    assert_eq!(
        fix_code_request("fn main() {\n}", &errors),
        format!(
            "{} BACKEND_CODE: {:?} \n ERROR_BUGS: {:?} \n THIS FUNCTION ONLY OUTPUTS CODE. JUST OUTPUT THE CODE.",
            PROMPT_FIX_CODE, "fn main() {\n}", errors
        )
    );
    assert_eq!(
        fix_code_request("s", &None),
        format!(
            "{} BACKEND_CODE: \"s\" \n ERROR_BUGS: None \n THIS FUNCTION ONLY OUTPUTS CODE. JUST OUTPUT THE CODE.",
            PROMPT_FIX_CODE
        )
    );
    assert_eq!(extract_api_request("S"), format!("{} CODE INPUT: S", PROMPT_EXTRACT_API));
    assert!(PROMPT_GENERATE_BACKEND.starts_with("INPUT: Takes in a ACTIONS_DESCRIPTION"));
    assert!(PROMPT_EXTRACT_API.ends_with("... // etc\n ]"));
}

#[test]
fn phases_show_their_state() {
    assert_eq!(BackendPhase::Fresh.shown_state(), AgentState::Waiting);
    assert_eq!(BackendPhase::SavingDraft.shown_state(), AgentState::Waiting);
    assert_eq!(BackendPhase::FixingCode.shown_state(), AgentState::Working);
    assert_eq!(BackendPhase::Building.shown_state(), AgentState::Testing);
    assert_eq!(BackendPhase::Probing.shown_state(), AgentState::Testing);
    assert_eq!(BackendPhase::Finished.shown_state(), AgentState::Finished);
    assert_eq!(BackendPhase::Stopped.shown_state(), AgentState::Error);
    assert_eq!(BackendPhase::Aborting(FatalError::ProbeTransport).shown_state(), AgentState::Error);
    assert_eq!(BackendPhase::Halted(FatalError::TooManyBugs).shown_state(), AgentState::Error);
    assert!(BackendPhase::Launching.may_serve());
    assert!(BackendPhase::WarmingUp.may_serve());
    assert!(BackendPhase::Probing.may_serve());
    assert!(!BackendPhase::Stopping.may_serve());
    assert!(!BackendPhase::Finished.may_serve());
}
