use codex_mcp_server::tool_response_format::ToolResponseFormat;

#[test]
fn dual_includes_both_parts() {
    assert!(ToolResponseFormat::Dual.includes_text_content());
    assert!(ToolResponseFormat::Dual.includes_structured_content());
}

#[test]
fn structured_only_includes_only_structured_content() {
    assert!(!ToolResponseFormat::StructuredOnly.includes_text_content());
    assert!(ToolResponseFormat::StructuredOnly.includes_structured_content());
}

#[test]
fn content_only_includes_only_text_content() {
    assert!(ToolResponseFormat::ContentOnly.includes_text_content());
    assert!(!ToolResponseFormat::ContentOnly.includes_structured_content());
}

#[test]
fn default_format_is_dual() {
    assert_eq!(ToolResponseFormat::default(), ToolResponseFormat::Dual);
}
