use vstd::prelude::*;

use crate::ids::ThreadId;
use crate::tool_response_format::ToolResponseFormat;

verus! {

/// The structured content of a tool result: the JSON object
/// `{"threadId": <thread id>, "content": <text>}`.
#[derive(Debug, PartialEq, Eq)]
pub struct StructuredContent {
    pub thread_id: ThreadId,
    pub content: String,
}

/// A `tools/call` result: its text content blocks, its error flag and its
/// structured content.
#[derive(Debug, PartialEq, Eq)]
pub struct CallToolResult {
    pub content: Vec<String>,
    pub is_error: Option<bool>,
    pub structured_content: Option<StructuredContent>,
}

/// The mathematical value of a structured content object.
pub struct StructuredContentView {
    pub thread_id: ThreadId,
    pub content: Seq<char>,
}

/// The mathematical value of a tool result.
pub struct CallToolResultView {
    pub content: Seq<Seq<char>>,
    pub is_error: Option<bool>,
    pub structured_content: Option<StructuredContentView>,
}

impl View for StructuredContent {
    type V = StructuredContentView;

    open spec fn view(&self) -> StructuredContentView {
        StructuredContentView { thread_id: self.thread_id, content: self.content@ }
    }
}

impl View for CallToolResult {
    type V = CallToolResultView;

    open spec fn view(&self) -> CallToolResultView {
        CallToolResultView {
            content: self.content@.map_values(|block: String| block@),
            is_error: self.is_error,
            structured_content: match self.structured_content {
                Some(s) => Some(s@),
                None => None,
            },
        }
    }
}

/// The result that reports `text` for the conversation `thread_id` in
/// `format`: the text as a content block when the format carries content, and
/// the object `{"threadId", "content"}` holding the same text when it carries
/// structured content.
pub open spec fn thread_result(
    thread_id: ThreadId,
    text: Seq<char>,
    is_error: Option<bool>,
    format: ToolResponseFormat,
) -> CallToolResultView {
    CallToolResultView {
        content: if format.includes_text_content() {
            seq![text]
        } else {
            Seq::empty()
        },
        is_error,
        structured_content: if format.includes_structured_content() {
            Some(StructuredContentView { thread_id, content: text })
        } else {
            None
        },
    }
}

/// Builds the result that reports `text` for the conversation `thread_id`.
/// Some MCP clients ignore the content blocks when structured content is
/// present, so the structured content mirrors the text.
pub fn create_call_tool_result_with_thread_id(
    thread_id: ThreadId,
    text: String,
    is_error: Option<bool>,
    tool_response_format: ToolResponseFormat,
) -> (result: CallToolResult)
    ensures
        result@ == thread_result(thread_id, text@, is_error, tool_response_format),
{
    let ghost text_view = text@;
    let mut content: Vec<String> = Vec::new();
    if tool_response_format.includes_text_content() {
        content.push(text.clone());
    }
    let structured_content = if tool_response_format.includes_structured_content() {
        Some(StructuredContent { thread_id, content: text })
    } else {
        None
    };
    let result = CallToolResult { content, is_error, structured_content };
    assert(result@.content =~= thread_result(
        thread_id,
        text_view,
        is_error,
        tool_response_format,
    ).content);
    result
}

/// A result for a request that has no conversation: the text as a content
/// block, flagged as an error, with no structured content, whatever the
/// response format.
pub open spec fn error_result_without_thread(text: Seq<char>) -> CallToolResultView {
    CallToolResultView { content: seq![text], is_error: Some(true), structured_content: None }
}

pub fn create_error_result_without_thread(text: String) -> (result: CallToolResult)
    ensures
        result@ == error_result_without_thread(text@),
{
    let ghost text_view = text@;
    let mut content: Vec<String> = Vec::new();
    content.push(text);
    let result = CallToolResult { content, is_error: Some(true), structured_content: None };
    assert(result@.content =~= seq![text_view]);
    result
}

/// A result for a conversation is never empty: the text is in the content
/// blocks or in the structured content, and where it is in both it is the
/// same text, under the conversation's own id.
pub proof fn law_thread_result_carries_the_text(
    thread_id: ThreadId,
    text: Seq<char>,
    is_error: Option<bool>,
    format: ToolResponseFormat,
)
    ensures
        ({
            let r = thread_result(thread_id, text, is_error, format);
            &&& r.content.len() > 0 || r.structured_content is Some
            &&& r.content.len() > 0 ==> r.content == seq![text]
            &&& r.structured_content matches Some(s) ==> s.thread_id == thread_id && s.content
                == text
            &&& r.is_error == is_error
        }),
{
}


/// Whether `r` answers with `text` for conversation `thread_id` in `format`:
/// one text content block holding `text` exactly when the format includes
/// text content, and the object `{threadId: thread_id, content: text}`
/// exactly when the format includes structured content.
pub open spec fn parts_follow_format(
    r: CallToolResultView,
    thread_id: ThreadId,
    text: Seq<char>,
    format: ToolResponseFormat,
) -> bool {
    &&& (r.content.len() > 0 <==> format.includes_text_content())
    &&& r.content.len() <= 1
    &&& (r.content.len() > 0 ==> r.content[0] == text)
    &&& (r.structured_content is Some <==> format.includes_structured_content())
    &&& (r.structured_content matches Some(sc) ==> sc.thread_id == thread_id && sc.content
        == text)
}

/// Which parts a result for a conversation has is decided by the format
/// alone: a text block iff the format includes text content, structured
/// content iff it includes structured content, whatever the error flag; the
/// flag is carried as given. Two results that differ only in the error flag
/// have the same parts.
pub proof fn law_result_parts_follow_format(
    thread_id: ThreadId,
    text: Seq<char>,
    is_error: Option<bool>,
    other_is_error: Option<bool>,
    format: ToolResponseFormat,
)
    ensures
        parts_follow_format(thread_result(thread_id, text, is_error, format), thread_id, text, format),
        thread_result(thread_id, text, is_error, format).is_error == is_error,
        thread_result(thread_id, text, is_error, format).content == thread_result(
            thread_id,
            text,
            other_is_error,
            format,
        ).content,
        thread_result(thread_id, text, is_error, format).structured_content == thread_result(
            thread_id,
            text,
            other_is_error,
            format,
        ).structured_content,
        format == ToolResponseFormat::ContentOnly ==> thread_result(
            thread_id,
            text,
            is_error,
            format,
        ).structured_content is None,
        format == ToolResponseFormat::StructuredOnly ==> thread_result(
            thread_id,
            text,
            is_error,
            format,
        ).content.len() == 0,
{
}

} // verus!
