use langchain_bridge::message::{
    messages_from_records, parse_role, role_label, ConversationMessage, Role,
};
use langchain_bridge::Message;

fn record(content: &str, message_type: &str) -> Message {
    Message { content: content.to_string(), message_type: message_type.to_string() }
}

fn round_trip(role: Role, content: &str) {
    let message = ConversationMessage::new(role, content);
    let back = ConversationMessage::from(Message::from(message.clone()));
    assert_eq!(back, message);
    assert_eq!(back.role, role);
    assert_eq!(back.content, content);
}

#[test]
fn the_three_inbound_roles_round_trip() {
    for role in [Role::Human, Role::Assistant, Role::System] {
        round_trip(role, "");
        round_trip(role, "hello");
        round_trip(role, "human");
        round_trip(role, "ai");
        round_trip(role, "system");
        round_trip(role, "tool");
        round_trip(role, "the human asked the ai about the system");
        round_trip(role, "line one\nline two \u{1f600}");
    }
}

#[test]
fn an_unknown_role_reads_as_human() {
    let message = ConversationMessage::from(record("c", "unknown-xyz"));
    assert_eq!(message, ConversationMessage { role: Role::Human, content: "c".to_string() });
    let empty = ConversationMessage::from(record("", ""));
    assert_eq!(empty, ConversationMessage { role: Role::Human, content: String::new() });
}

#[test]
fn an_inbound_tool_reads_as_human() {
    let message = ConversationMessage::from(record("result", "tool"));
    assert_eq!(message.role, Role::Human);
    assert_eq!(message.content, "result");
}

#[test]
fn role_spellings_are_read_exactly() {
    assert_eq!(parse_role("human"), Role::Human);
    assert_eq!(parse_role("ai"), Role::Assistant);
    assert_eq!(parse_role("system"), Role::System);
    assert_eq!(parse_role("AI"), Role::Human);
    assert_eq!(parse_role("System"), Role::Human);
    assert_eq!(parse_role(" ai"), Role::Human);
    assert_eq!(parse_role("ai "), Role::Human);
    assert_eq!(parse_role("assistant"), Role::Human);
}

#[test]
fn every_role_has_its_spelling() {
    assert_eq!(role_label(Role::Human), "human");
    assert_eq!(role_label(Role::Assistant), "ai");
    assert_eq!(role_label(Role::System), "system");
    assert_eq!(role_label(Role::Tool), "tool");
}

#[test]
fn a_tool_message_is_written_as_tool_and_read_back_as_human() {
    let written = Message::from(ConversationMessage { role: Role::Tool, content: "42".to_string() });
    assert_eq!(written, record("42", "tool"));
    let back = ConversationMessage::from(written);
    assert_eq!(back, ConversationMessage { role: Role::Human, content: "42".to_string() });
}

#[test]
fn records_are_written_with_content_and_spelling() {
    assert_eq!(Message::from(ConversationMessage::new_human_message("q")), record("q", "human"));
    assert_eq!(Message::from(ConversationMessage::new_ai_message("a")), record("a", "ai"));
    assert_eq!(Message::from(ConversationMessage::new_system_message("s")), record("s", "system"));
}

#[test]
fn into_reads_a_record_too() {
    let message: ConversationMessage = record("x", "system").into();
    assert_eq!(message, ConversationMessage::new(Role::System, "x"));
}

#[test]
fn a_conversation_is_read_turn_by_turn_in_order() {
    let records = vec![
        record("be brief", "system"),
        record("hi", "human"),
        record("hello", "ai"),
        record("lookup", "tool"),
    ];
    assert_eq!(
        messages_from_records(records),
        vec![
            ConversationMessage::new(Role::System, "be brief"),
            ConversationMessage::new(Role::Human, "hi"),
            ConversationMessage::new(Role::Assistant, "hello"),
            ConversationMessage::new(Role::Human, "lookup"),
        ]
    );
    assert_eq!(messages_from_records(Vec::new()), Vec::<ConversationMessage>::new());
}
