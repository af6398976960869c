use support_agents::helpers::backend::{
    extend_ai_function, probe_url, API_SCHEMA_PATH, CODE_TEMPLATE_PATH, EXEC_MAIN_PATH,
    PROBE_TIMEOUT_SECONDS, WARM_UP_SECONDS, WEB_SERVER_PROJECT_PATH,
};
use support_agents::helpers::command_line::{
    confirm_safe_code, get_user_response, read_confirmation, CLIPrint, Confirmation,
};
use support_agents::helpers::request::{ai_request, frame_message, prepare_message, Delivery};
use support_agents::helpers::text::{debug_quote_optional, join};
use support_agents::models::ai::chatgpt::Message;

#[test]
fn join_puts_separator_between_items() {
    let items = vec!["a".to_string(), "b".to_string(), "c".to_string()];
    assert_eq!(join(&items, ","), "a,b,c");
    assert_eq!(join(&Vec::new(), ","), "");
    assert_eq!(join(&vec!["only".to_string()], ","), "only");
    assert_eq!(join(&items, ", "), items.join(", "));
}

#[test]
fn optional_text_is_quoted_as_debug_does() {
    let some = Some("a \"b\"\n".to_string());
    assert_eq!(debug_quote_optional(&some), format!("{:?}", some));
    assert_eq!(debug_quote_optional(&some), "Some(\"a \\\"b\\\"\\n\")");
    let none: Option<String> = None;
    assert_eq!(debug_quote_optional(&none), "None");
}

#[test]
fn prepare_message_quotes_its_three_parts() {
    let message = prepare_message("obj", "ctx", "q");
    assert_eq!(message.role, "system");
    assert_eq!(
        message.content,
        "\n  YOUR INSTRUCTIONS: \"obj\"\n  CONTEXT: \"ctx\"\n  QUERY: \"q\"\n  "
    );
}

#[test]
fn prepare_message_escapes_quotes_and_line_ends() {
    let message = prepare_message("say \"hi\"", "line\nbreak", "tab\there");
    assert_eq!(
        message.content,
        "\n  YOUR INSTRUCTIONS: \"say \\\"hi\\\"\"\n  CONTEXT: \"line\\nbreak\"\n  QUERY: \"tab\\there\"\n  "
    );
    assert_eq!(
        message.content,
        format!(
            "\n  YOUR INSTRUCTIONS: {:?}\n  CONTEXT: {:?}\n  QUERY: {:?}\n  ",
            "say \"hi\"", "line\nbreak", "tab\there"
        )
    );
}

#[test]
fn frame_message_takes_the_parts_as_they_are() {
    let message = frame_message("A", "B", "C");
    assert_eq!(
        message,
        Message {
            role: "system".to_string(),
            content: "\n  YOUR INSTRUCTIONS: A\n  CONTEXT: B\n  QUERY: C\n  ".to_string(),
        }
    );
}

fn describe(_input: &str) -> &'static str {
    "fn double(x) -> 2 * x"
}

#[test]
fn extend_ai_function_wraps_description_and_input() {
    let message = extend_ai_function(describe, "21");
    assert_eq!(message.role, "system");
    assert_eq!(
        message.content,
        "FUNCTION: fn double(x) -> 2 * x\n    INSTRUCTION: You are a function printer. You ONLY print the results of functions.\n    Nothing else. No commentary. Here is the input to the function: 21.\n    Print out what the function will return"
    );
}

#[test]
fn status_lines_carry_role_and_kind() {
    assert_eq!(CLIPrint::Error.prefix(), "ERROR: ");
    assert_eq!(CLIPrint::Warning.prefix(), "WARNING: ");
    assert_eq!(CLIPrint::Info.prefix(), "INFO: ");
    assert_eq!(CLIPrint::Default.prefix(), "");
    assert_eq!(CLIPrint::Info.out("System", "ready"), "|System|INFO: ready");
    assert_eq!(CLIPrint::Default.out("System", "ready"), "|System|ready");
    assert_eq!(CLIPrint::Error.out("A", ""), "|A|ERROR: ");
}

#[test]
fn confirmation_reads_yes_and_no() {
    for yes in ["1", "ok", "y", "yes"] {
        assert_eq!(read_confirmation(yes), Confirmation::Approved);
    }
    for no in ["2", "n", "no"] {
        assert_eq!(read_confirmation(no), Confirmation::Declined);
    }
    for other in ["", "3", "yes!", "YES", " y", "maybe"] {
        assert_eq!(read_confirmation(other), Confirmation::Invalid);
    }
    assert!(Confirmation::Approved.is_approved());
    assert!(!Confirmation::Declined.is_approved());
    assert!(!Confirmation::Invalid.is_approved());
}

#[test]
fn confirmation_trims_and_lowers_the_line() {
    assert_eq!(confirm_safe_code("  YES \n"), Confirmation::Approved);
    assert_eq!(confirm_safe_code("Ok\r\n"), Confirmation::Approved);
    assert_eq!(confirm_safe_code("1\n"), Confirmation::Approved);
    assert_eq!(confirm_safe_code("\tNo\n"), Confirmation::Declined);
    assert_eq!(confirm_safe_code("2"), Confirmation::Declined);
    assert_eq!(confirm_safe_code("\n"), Confirmation::Invalid);
    assert_eq!(confirm_safe_code("y e s"), Confirmation::Invalid);
}

#[test]
fn user_response_is_trimmed() {
    assert_eq!(get_user_response("  my order is late \n"), "my order is late");
    assert_eq!(get_user_response("\n"), "");
    assert_eq!(get_user_response("quit"), "quit");
}

#[test]
fn gateway_request_is_sent_again_once() {
    let message = Message { role: "user".to_string(), content: "Hi there".to_string() };
    let mut call = ai_request(message.clone());
    assert_eq!(call.message(), &message);
    assert!(!call.retried());
    assert_eq!(call.settle(Err("down".to_string())), Delivery::Resend(message.clone()));
    assert!(call.retried());
    assert_eq!(call.settle(Err("still down".to_string())), Delivery::GiveUp("still down".to_string()));
    assert_eq!(call.settle(Err("again".to_string())), Delivery::GiveUp("again".to_string()));
}

#[test]
fn gateway_reply_is_delivered() {
    let message = Message { role: "user".to_string(), content: "Hi there".to_string() };
    let mut call = ai_request(message.clone());
    assert_eq!(call.settle(Ok("Hello".to_string())), Delivery::Reply("Hello".to_string()));
    assert!(!call.retried());
    let mut second = ai_request(message);
    assert!(matches!(second.settle(Err("e".to_string())), Delivery::Resend(_)));
    assert_eq!(second.settle(Ok("late".to_string())), Delivery::Reply("late".to_string()));
}

#[test]
fn probe_url_is_under_the_local_service() {
    assert_eq!(probe_url("/tasks"), "http://localhost:8080/tasks");
    assert_eq!(probe_url(""), "http://localhost:8080");
}

#[test]
fn artifact_paths_and_delays_are_fixed() {
    assert_eq!(CODE_TEMPLATE_PATH, "template/code_template.rs");
    assert_eq!(EXEC_MAIN_PATH, "template/main.rs");
    assert_eq!(API_SCHEMA_PATH, "template/api_schema.json");
    assert_eq!(WEB_SERVER_PROJECT_PATH, "template");
    assert_eq!(WARM_UP_SECONDS, 5);
    assert_eq!(PROBE_TIMEOUT_SECONDS, 5);
}
