use support_agents::models::ai::chatgpt::Message;
use support_agents::models::general::support_case::SupportCase;

#[test]
fn new_case_is_empty_and_timed() {
    let case = SupportCase::new("5 star hotel".to_string(), "I am not happy with my room".to_string());
    assert_eq!(case.support_context, "5 star hotel");
    assert_eq!(case.customer_query, "I am not happy with my room");
    assert_eq!(case.intent_category, None);
    assert_eq!(case.support_response, None);
    assert_eq!(case.sentiment, None);
    assert!(!case.should_escalate);
    assert!(!case.escalated);
    assert!(!case.needs_upper_management_attention);
    assert!(case.trace.is_empty());
    assert!(case.supported_actions.is_empty());
    assert_eq!(case.created_at, case.updated_at);
    // 2020-01-01 in milliseconds: the clock was read, not made up.
    assert!(case.created_at > 1_577_836_800_000);
}

#[test]
fn new_case_has_a_random_uuid() {
    let first = SupportCase::new("c".to_string(), "q".to_string());
    let second = SupportCase::new("c".to_string(), "q".to_string());
    assert_ne!(first.case_id, second.case_id);
    for id in [first.case_id, second.case_id] {
        assert_eq!((id >> 76) & 0xf, 4);
        assert_eq!((id >> 62) & 0x3, 2);
        assert_eq!(
            id & 0x0000_0000_0000_f000_c000_0000_0000_0000u128,
            0x0000_0000_0000_4000_8000_0000_0000_0000u128
        );
    }
}

#[test]
fn opened_case_takes_identity_and_time() {
    let case = SupportCase::opened("c".to_string(), "q".to_string(), 7, 1000);
    assert_eq!(case.case_id, 7);
    assert_eq!(case.created_at, 1000);
    assert_eq!(case.updated_at, 1000);
}

#[test]
fn time_of_update_never_goes_back() {
    let mut case = SupportCase::opened("c".to_string(), "q".to_string(), 7, 1000);
    case.touch(1500);
    assert_eq!(case.updated_at, 1500);
    case.touch(1200);
    assert_eq!(case.updated_at, 1500);
    case.touch(1500);
    assert_eq!(case.updated_at, 1500);
    case.touch(i64::MIN);
    assert_eq!(case.updated_at, 1500);
    case.touch(i64::MAX);
    assert_eq!(case.updated_at, i64::MAX);
    assert_eq!(case.created_at, 1000);
}

#[test]
fn updated_reads_the_clock() {
    let mut case = SupportCase::opened("c".to_string(), "q".to_string(), 7, 1000);
    case.updated();
    assert!(case.updated_at > 1_577_836_800_000);
    assert!(case.updated_at >= case.created_at);
    let mut late = SupportCase::opened("c".to_string(), "q".to_string(), 7, i64::MAX);
    late.updated();
    assert_eq!(late.updated_at, i64::MAX);
}

#[test]
fn trace_grows_at_its_end() {
    let mut case = SupportCase::opened("c".to_string(), "q".to_string(), 7, 1000);
    let first = Message { role: "system".to_string(), content: "one".to_string() };
    let second = Message { role: "assistant".to_string(), content: "two".to_string() };
    case.record(first.clone());
    case.record(second.clone());
    assert_eq!(case.trace, vec![first, second]);
}

#[test]
fn message_recorded_at_a_time_marks_the_case() {
    let mut case = SupportCase::opened("c".to_string(), "q".to_string(), 7, 1000);
    let message = Message { role: "system".to_string(), content: "one".to_string() };
    case.record_at(message.clone(), 1300);
    assert_eq!(case.trace, vec![message.clone()]);
    assert_eq!(case.updated_at, 1300);
    case.record_at(message, 900);
    assert_eq!(case.trace.len(), 2);
    assert_eq!(case.updated_at, 1300);
}

#[test]
fn history_has_a_line_for_each_message() {
    let mut case = SupportCase::opened("c".to_string(), "q".to_string(), 7, 1000);
    assert_eq!(case.get_history(), "");
    case.record(Message { role: "system".to_string(), content: "one".to_string() });
    case.record(Message { role: "assistant".to_string(), content: "two".to_string() });
    assert_eq!(case.get_history(), "system: one\nassistant: two\n");
}
