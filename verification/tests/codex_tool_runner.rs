use codex_mcp_server::ids::ThreadId;
use codex_mcp_server::tool_response_format::ToolResponseFormat;
use codex_mcp_server::tool_result::{
    create_call_tool_result_with_thread_id, create_error_result_without_thread,
    StructuredContent,
};

fn structured(thread_id: ThreadId, text: &str) -> Option<StructuredContent> {
    Some(StructuredContent { thread_id, content: text.to_string() })
}

#[test]
fn dual_format_includes_text_and_structured_content() {
    let thread_id = ThreadId::new();
    let result = create_call_tool_result_with_thread_id(
        thread_id,
        "done".to_string(),
        None,
        ToolResponseFormat::Dual,
    );
    assert_eq!(result.content, vec!["done".to_string()]);
    assert_eq!(result.structured_content, structured(thread_id, "done"));
}

#[test]
fn structured_only_format_omits_text_content() {
    let thread_id = ThreadId::new();
    let result = create_call_tool_result_with_thread_id(
        thread_id,
        "done".to_string(),
        None,
        ToolResponseFormat::StructuredOnly,
    );
    assert_eq!(result.content, Vec::<String>::new());
    assert_eq!(result.structured_content, structured(thread_id, "done"));
}

#[test]
fn content_only_format_omits_structured_content() {
    let thread_id = ThreadId::new();
    let result = create_call_tool_result_with_thread_id(
        thread_id,
        "done".to_string(),
        None,
        ToolResponseFormat::ContentOnly,
    );
    assert_eq!(result.content, vec!["done".to_string()]);
    assert_eq!(result.structured_content, None);
}

#[test]
fn result_keeps_the_error_flag() {
    let thread_id = ThreadId::from_u128(5);
    let flagged = create_call_tool_result_with_thread_id(
        thread_id,
        "oops".to_string(),
        Some(true),
        ToolResponseFormat::Dual,
    );
    assert_eq!(flagged.is_error, Some(true));
    let cleared = create_call_tool_result_with_thread_id(
        thread_id,
        "fine".to_string(),
        Some(false),
        ToolResponseFormat::ContentOnly,
    );
    assert_eq!(cleared.is_error, Some(false));
}

#[test]
fn every_format_carries_the_text_somewhere() {
    let thread_id = ThreadId::from_u128(9);
    for format in [
        ToolResponseFormat::Dual,
        ToolResponseFormat::StructuredOnly,
        ToolResponseFormat::ContentOnly,
    ] {
        let result =
            create_call_tool_result_with_thread_id(thread_id, "x".to_string(), None, format);
        assert!(!result.content.is_empty() || result.structured_content.is_some());
        if let Some(s) = &result.structured_content {
            assert_eq!(s.content, "x");
            assert_eq!(s.thread_id, thread_id);
        }
        for block in &result.content {
            assert_eq!(block, "x");
        }
    }
}

#[test]
fn error_result_without_thread_ignores_the_format() {
    let result = create_error_result_without_thread("boom".to_string());
    assert_eq!(result.content, vec!["boom".to_string()]);
    assert_eq!(result.is_error, Some(true));
    assert_eq!(result.structured_content, None);
}
