//! Verified core of an MCP server that runs Codex sessions as `tools/call`
//! requests: the shape of tool-call results, the table of busy
//! conversations, and the decision logic of a tool session.

pub mod tool_response_format;
pub mod ids;
pub mod busy_conversations;
pub mod tool_result;
pub mod messages;
pub mod codex_tool_runner;
pub mod session_laws;
