# codex_mcp_server

The verified core of the Codex MCP server's `codex` tool: how a tool-call
result is shaped, which request holds which conversation, and what a tool
session decides at each step.

- `src/tool_response_format.rs`: which parts of a result a format fills in.
- `src/ids.rs`: thread and request identifiers and their text forms.
- `src/tool_result.rs`: the `tools/call` result and how it is built.
- `src/messages.rs`: the texts of the error responses.
- `src/busy_conversations.rs`: the table of busy conversations.
- `src/codex_tool_runner.rs`: the tool session as a state machine, from
  what came of the last action to the next actions.
- `src/session_laws.rs`: what holds of every run of a session.
- `app/`: command-line options, conversion to the MCP wire types, and the
  asynchronous loop that performs a session's actions.
