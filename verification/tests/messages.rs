use codex_mcp_server::ids::{RequestId, ThreadId};
use codex_mcp_server::messages::{
    busy_message, runtime_error_message, start_failure_message, submit_failure_message,
};

#[test]
fn start_failure_text() {
    assert_eq!(
        start_failure_message(&"no auth".to_string()),
        "Failed to start Codex session: no auth"
    );
}

#[test]
fn busy_text_names_conversation_and_owner() {
    let thread = ThreadId::from_u128(0xff);
    assert_eq!(
        busy_message(thread, &RequestId::Number(12)),
        "Conversation busy for conversation_id: 00000000-0000-0000-0000-0000000000ff (in-flight request: 12)"
    );
    assert_eq!(
        busy_message(thread, &RequestId::Text("abc".to_string())),
        "Conversation busy for conversation_id: 00000000-0000-0000-0000-0000000000ff (in-flight request: abc)"
    );
}

#[test]
fn submit_failure_texts() {
    assert_eq!(
        submit_failure_message(true, &"closed".to_string()),
        "Failed to submit initial prompt: closed"
    );
    assert_eq!(
        submit_failure_message(false, &"closed".to_string()),
        "Failed to submit user input: closed"
    );
}

#[test]
fn runtime_error_text() {
    assert_eq!(runtime_error_message(&"eof".to_string()), "Codex runtime error: eof");
}
