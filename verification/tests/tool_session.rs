use codex_mcp_server::codex_tool_runner::{
    run_codex_tool_session, run_codex_tool_session_reply, CodexEvent, SessionAction,
    SessionEvent, SessionOutcome, SessionPhase, ToolSession,
};
use codex_mcp_server::ids::{RequestId, ThreadId};
use codex_mcp_server::tool_response_format::ToolResponseFormat;
use codex_mcp_server::tool_result::{
    create_call_tool_result_with_thread_id, create_error_result_without_thread,
};

const THREAD: u128 = 0x0190_0000_0000_7000_8000_0000_0000_0001;

fn thread() -> ThreadId {
    ThreadId::from_u128(THREAD)
}

fn response(text: &str, is_error: Option<bool>, format: ToolResponseFormat) -> SessionAction {
    SessionAction::SendResponse(create_call_tool_result_with_thread_id(
        thread(),
        text.to_string(),
        is_error,
        format,
    ))
}

/// A new session that got its thread and conversation and submitted its
/// prompt, with the actions of those steps.
fn streaming_session(format: ToolResponseFormat) -> (ToolSession, Vec<SessionAction>) {
    let (mut session, mut all) = run_codex_tool_session(RequestId::Number(7), format);
    all.extend(session.handle_event(SessionEvent::ThreadStarted(thread())));
    all.extend(session.handle_event(SessionEvent::ConversationAcquired));
    all.extend(session.handle_event(SessionEvent::SubmitSucceeded));
    (session, all)
}

fn count_responses(actions: &[SessionAction]) -> usize {
    actions.iter().filter(|a| matches!(a, SessionAction::SendResponse(_))).count()
}

fn count_releases(actions: &[SessionAction]) -> usize {
    actions.iter().filter(|a| matches!(a, SessionAction::ReleaseConversation(_))).count()
}

#[test]
fn new_session_asks_for_a_thread() {
    let (session, actions) = run_codex_tool_session(RequestId::Number(1), ToolResponseFormat::Dual);
    assert_eq!(actions, vec![SessionAction::StartThread]);
    assert_eq!(session.phase, SessionPhase::StartingThread);
    assert!(!session.holds_conversation);
    assert!(!session.is_finished());
}

#[test]
fn started_thread_leads_to_submission() {
    let (mut session, _) = run_codex_tool_session(RequestId::Number(7), ToolResponseFormat::Dual);
    assert_eq!(
        session.handle_event(SessionEvent::ThreadStarted(thread())),
        vec![SessionAction::AcquireConversation(thread())]
    );
    assert_eq!(
        session.handle_event(SessionEvent::ConversationAcquired),
        vec![
            SessionAction::NotifySessionConfigured(thread()),
            SessionAction::RegisterRunning(thread()),
            SessionAction::SubmitInitialPrompt("7".to_string()),
        ]
    );
    assert!(session.holds_conversation);
    assert!(session.registered_running);
    assert_eq!(session.handle_event(SessionEvent::SubmitSucceeded), vec![SessionAction::AwaitEvent]);
    assert_eq!(session.phase, SessionPhase::Streaming(thread()));
}

#[test]
fn failed_start_answers_with_plain_error() {
    let (mut session, _) =
        run_codex_tool_session(RequestId::Number(1), ToolResponseFormat::StructuredOnly);
    let actions = session.handle_event(SessionEvent::ThreadStartFailed("no model".to_string()));
    assert_eq!(
        actions,
        vec![SessionAction::SendResponse(create_error_result_without_thread(
            "Failed to start Codex session: no model".to_string()
        ))]
    );
    assert_eq!(session.phase, SessionPhase::Finished(SessionOutcome::StartFailed));
}

#[test]
fn busy_conversation_answers_and_drops_the_thread() {
    let (mut session, _) =
        run_codex_tool_session(RequestId::Number(7), ToolResponseFormat::ContentOnly);
    session.handle_event(SessionEvent::ThreadStarted(thread()));
    let actions =
        session.handle_event(SessionEvent::ConversationBusy(RequestId::Text("r9".to_string())));
    let text = format!(
        "Conversation busy for conversation_id: {} (in-flight request: r9)",
        thread().to_text()
    );
    assert_eq!(
        actions,
        vec![
            response(&text, Some(true), ToolResponseFormat::ContentOnly),
            SessionAction::RemoveThread(thread()),
        ]
    );
    assert_eq!(session.phase, SessionPhase::Finished(SessionOutcome::Busy));
    assert!(!session.holds_conversation);
    assert!(!session.registered_running);
}

#[test]
fn failed_initial_submission_frees_everything() {
    let (mut session, _) = run_codex_tool_session(RequestId::Number(7), ToolResponseFormat::Dual);
    session.handle_event(SessionEvent::ThreadStarted(thread()));
    session.handle_event(SessionEvent::ConversationAcquired);
    let actions = session.handle_event(SessionEvent::SubmitFailed("queue closed".to_string()));
    assert_eq!(
        actions,
        vec![
            response(
                "Failed to submit initial prompt: queue closed",
                Some(true),
                ToolResponseFormat::Dual
            ),
            SessionAction::UnregisterRunning,
            SessionAction::ReleaseConversation(thread()),
        ]
    );
    assert_eq!(session.phase, SessionPhase::Finished(SessionOutcome::SubmitFailed));
    assert!(!session.holds_conversation);
    assert!(!session.registered_running);
}

#[test]
fn reply_session_submits_user_input() {
    let (mut session, actions) = run_codex_tool_session_reply(
        thread(),
        RequestId::Text("next".to_string()),
        ToolResponseFormat::Dual,
    );
    assert_eq!(
        actions,
        vec![SessionAction::RegisterRunning(thread()), SessionAction::SubmitUserInput]
    );
    assert!(session.holds_conversation);
    let failed = session.handle_event(SessionEvent::SubmitFailed("gone".to_string()));
    assert_eq!(
        failed[0],
        response("Failed to submit user input: gone", Some(true), ToolResponseFormat::Dual)
    );
    assert_eq!(count_releases(&failed), 1);
}

#[test]
fn turn_complete_answers_with_last_message() {
    let (mut session, _) = streaming_session(ToolResponseFormat::Dual);
    let actions = session.handle_event(SessionEvent::Codex(CodexEvent::TurnComplete(Some(
        "all done".to_string(),
    ))));
    assert_eq!(
        actions,
        vec![
            SessionAction::ForwardEvent(thread()),
            response("all done", None, ToolResponseFormat::Dual),
            SessionAction::UnregisterRunning,
            SessionAction::ReleaseConversation(thread()),
        ]
    );
    assert_eq!(session.phase, SessionPhase::Finished(SessionOutcome::Completed));
    assert!(!session.registered_running);
}

#[test]
fn turn_complete_without_message_answers_empty_text() {
    let (mut session, _) = streaming_session(ToolResponseFormat::StructuredOnly);
    let actions = session.handle_event(SessionEvent::Codex(CodexEvent::TurnComplete(None)));
    assert_eq!(actions[1], response("", None, ToolResponseFormat::StructuredOnly));
}

#[test]
fn codex_error_answers_and_keeps_running_record() {
    let (mut session, _) = streaming_session(ToolResponseFormat::Dual);
    let actions =
        session.handle_event(SessionEvent::Codex(CodexEvent::Error("rate limited".to_string())));
    assert_eq!(
        actions,
        vec![
            SessionAction::ForwardEvent(thread()),
            response("rate limited", Some(true), ToolResponseFormat::Dual),
            SessionAction::ReleaseConversation(thread()),
        ]
    );
    assert_eq!(session.phase, SessionPhase::Finished(SessionOutcome::Failed));
    assert!(!session.holds_conversation);
    assert!(session.registered_running);
}

#[test]
fn event_stream_failure_answers_with_runtime_error() {
    let (mut session, _) = streaming_session(ToolResponseFormat::ContentOnly);
    let actions = session.handle_event(SessionEvent::CodexFailed("channel closed".to_string()));
    assert_eq!(
        actions,
        vec![
            response(
                "Codex runtime error: channel closed",
                Some(true),
                ToolResponseFormat::ContentOnly
            ),
            SessionAction::ReleaseConversation(thread()),
        ]
    );
    assert_eq!(session.phase, SessionPhase::Finished(SessionOutcome::RuntimeError));
    assert!(session.registered_running);
}

#[test]
fn approvals_are_handed_on_and_the_turn_goes_on() {
    let (mut session, _) = streaming_session(ToolResponseFormat::Dual);
    assert_eq!(
        session.handle_event(SessionEvent::Codex(CodexEvent::ExecApprovalRequest)),
        vec![
            SessionAction::ForwardEvent(thread()),
            SessionAction::HandleExecApproval("7".to_string()),
            SessionAction::AwaitEvent,
        ]
    );
    assert_eq!(
        session.handle_event(SessionEvent::Codex(CodexEvent::ApplyPatchApprovalRequest)),
        vec![
            SessionAction::ForwardEvent(thread()),
            SessionAction::HandlePatchApproval("7".to_string()),
            SessionAction::AwaitEvent,
        ]
    );
    assert_eq!(
        session.handle_event(SessionEvent::Codex(CodexEvent::Other)),
        vec![SessionAction::ForwardEvent(thread()), SessionAction::AwaitEvent]
    );
    assert_eq!(session.phase, SessionPhase::Streaming(thread()));
}

#[test]
fn finished_session_ignores_further_events() {
    let (mut session, _) = streaming_session(ToolResponseFormat::Dual);
    session.handle_event(SessionEvent::Codex(CodexEvent::TurnComplete(None)));
    assert_eq!(session.handle_event(SessionEvent::Codex(CodexEvent::Other)), vec![]);
    assert_eq!(session.handle_event(SessionEvent::CodexFailed("late".to_string())), vec![]);
    assert_eq!(session.phase, SessionPhase::Finished(SessionOutcome::Completed));
}

#[test]
fn unexpected_event_changes_nothing() {
    let (mut session, _) = run_codex_tool_session(RequestId::Number(1), ToolResponseFormat::Dual);
    assert_eq!(session.handle_event(SessionEvent::SubmitSucceeded), vec![]);
    assert_eq!(session.phase, SessionPhase::StartingThread);
}

#[test]
fn whole_run_sends_one_response_and_frees_once() {
    let (mut session, mut all) = streaming_session(ToolResponseFormat::Dual);
    assert_eq!(count_responses(&all), 0);
    all.extend(session.handle_event(SessionEvent::Codex(CodexEvent::Other)));
    all.extend(session.handle_event(SessionEvent::Codex(CodexEvent::ExecApprovalRequest)));
    all.extend(session.handle_event(SessionEvent::Codex(CodexEvent::Error("x".to_string()))));
    all.extend(session.handle_event(SessionEvent::Codex(CodexEvent::Other)));
    assert_eq!(count_responses(&all), 1);
    assert_eq!(count_releases(&all), 1);
}

#[test]
fn busy_run_sends_one_response_and_frees_nothing() {
    let (mut session, mut all) =
        run_codex_tool_session(RequestId::Number(2), ToolResponseFormat::Dual);
    all.extend(session.handle_event(SessionEvent::ThreadStarted(thread())));
    all.extend(session.handle_event(SessionEvent::ConversationBusy(RequestId::Number(1))));
    all.extend(session.handle_event(SessionEvent::ConversationAcquired));
    assert_eq!(count_responses(&all), 1);
    assert_eq!(count_releases(&all), 0);
}
