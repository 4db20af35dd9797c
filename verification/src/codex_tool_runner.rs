//! The decisions of a Codex tool session, as a state machine. The caller
//! performs each action that a step returns (starting the thread, submitting
//! the prompt, reading and forwarding events, sending the `tools/call`
//! response) and hands back what came of it as the next event.

use vstd::prelude::*;

use crate::ids::{RequestId, RequestIdView, ThreadId};
use crate::messages::{
    busy_message, busy_text, runtime_error_message, runtime_error_text, start_failure_message,
    start_failure_text, submit_failure_message, submit_failure_text,
};
use crate::tool_response_format::ToolResponseFormat;
use crate::tool_result::{
    create_call_tool_result_with_thread_id, create_error_result_without_thread, error_result_without_thread,
    thread_result, CallToolResult, CallToolResultView,
};

verus! {

/// How a session ended.
#[derive(Clone, Copy, Debug, PartialEq, Eq, Structural)]
pub enum SessionOutcome {
    /// The Codex thread could not be started.
    StartFailed,
    /// Another request was already running a turn on the conversation.
    Busy,
    /// The prompt could not be submitted.
    SubmitFailed,
    /// The turn completed.
    Completed,
    /// Codex reported an error for the turn.
    Failed,
    /// The next event could not be read.
    RuntimeError,
}

/// Where a session stands, with the conversation it runs on once known.
#[derive(Clone, Copy, Debug, PartialEq, Eq, Structural)]
pub enum SessionPhase {
    /// Waiting for the Codex thread to start.
    StartingThread,
    /// Waiting to learn whether the conversation is free.
    AcquiringConversation(ThreadId),
    /// Waiting for the prompt to be submitted.
    Submitting(ThreadId),
    /// Waiting for the next event of the turn.
    Streaming(ThreadId),
    Finished(SessionOutcome),
}

/// An event of a Codex turn, as far as a tool session tells them apart.
#[derive(Debug, PartialEq, Eq)]
pub enum CodexEvent {
    ExecApprovalRequest,
    ApplyPatchApprovalRequest,
    /// An error, with its message.
    Error(String),
    /// The end of the turn, with the last message of the agent, if any.
    TurnComplete(Option<String>),
    /// Any other event; it is forwarded and nothing more.
    Other,
}

/// What came of the action a session last asked for.
#[derive(Debug, PartialEq, Eq)]
pub enum SessionEvent {
    ThreadStarted(ThreadId),
    /// Starting the thread failed, with the error's text.
    ThreadStartFailed(String),
    ConversationAcquired,
    /// The conversation is held by this other request.
    ConversationBusy(RequestId),
    SubmitSucceeded,
    /// Submitting failed, with the error's text.
    SubmitFailed(String),
    /// The next event of the turn.
    Codex(CodexEvent),
    /// Reading the next event failed, with the error's text.
    CodexFailed(String),
}

/// What a session asks its caller to do, in order.
#[derive(Debug, PartialEq, Eq)]
pub enum SessionAction {
    /// Start a new Codex thread.
    StartThread,
    /// Try to take the conversation for this request.
    AcquireConversation(ThreadId),
    /// Drop the thread that was started.
    RemoveThread(ThreadId),
    /// Send the session-configured event as a notification for this request
    /// and conversation.
    NotifySessionConfigured(ThreadId),
    /// Record that this request runs on the conversation.
    RegisterRunning(ThreadId),
    /// Submit the initial prompt under this submission id.
    SubmitInitialPrompt(String),
    /// Submit the user input of a reply.
    SubmitUserInput,
    /// Read the next event of the turn.
    AwaitEvent,
    /// Send the event just read as a notification for this request and
    /// conversation.
    ForwardEvent(ThreadId),
    /// Ask the client to approve a command; the request id's text is given.
    HandleExecApproval(String),
    /// Ask the client to approve a patch; the request id's text is given.
    HandlePatchApproval(String),
    /// Send this `tools/call` response for the request.
    SendResponse(CallToolResult),
    /// Forget that this request runs on its conversation.
    UnregisterRunning,
    /// Free the conversation if this request holds it.
    ReleaseConversation(ThreadId),
}

/// A tool session for one `tools/call` request.
#[derive(Debug)]
pub struct ToolSession {
    pub request_id: RequestId,
    pub format: ToolResponseFormat,
    /// The session started its own thread and submits the first prompt.
    pub first_turn: bool,
    pub phase: SessionPhase,
    /// The session holds its conversation in the table of busy conversations.
    pub holds_conversation: bool,
    /// The request is recorded as running on its conversation.
    pub registered_running: bool,
}

pub enum CodexEventView {
    ExecApprovalRequest,
    ApplyPatchApprovalRequest,
    Error(Seq<char>),
    TurnComplete(Option<Seq<char>>),
    Other,
}

pub enum SessionEventView {
    ThreadStarted(ThreadId),
    ThreadStartFailed(Seq<char>),
    ConversationAcquired,
    ConversationBusy(RequestIdView),
    SubmitSucceeded,
    SubmitFailed(Seq<char>),
    Codex(CodexEventView),
    CodexFailed(Seq<char>),
}

pub enum SessionActionView {
    StartThread,
    AcquireConversation(ThreadId),
    RemoveThread(ThreadId),
    NotifySessionConfigured(ThreadId),
    RegisterRunning(ThreadId),
    SubmitInitialPrompt(Seq<char>),
    SubmitUserInput,
    AwaitEvent,
    ForwardEvent(ThreadId),
    HandleExecApproval(Seq<char>),
    HandlePatchApproval(Seq<char>),
    SendResponse(CallToolResultView),
    UnregisterRunning,
    ReleaseConversation(ThreadId),
}

pub struct ToolSessionView {
    pub request_id: RequestIdView,
    pub format: ToolResponseFormat,
    pub first_turn: bool,
    pub phase: SessionPhase,
    pub holds_conversation: bool,
    pub registered_running: bool,
}

impl View for CodexEvent {
    type V = CodexEventView;

    open spec fn view(&self) -> CodexEventView {
        match self {
            CodexEvent::ExecApprovalRequest => CodexEventView::ExecApprovalRequest,
            CodexEvent::ApplyPatchApprovalRequest => CodexEventView::ApplyPatchApprovalRequest,
            CodexEvent::Error(m) => CodexEventView::Error(m@),
            CodexEvent::TurnComplete(last) => CodexEventView::TurnComplete(
                match last {
                    Some(m) => Some(m@),
                    None => None,
                },
            ),
            CodexEvent::Other => CodexEventView::Other,
        }
    }
}

impl View for SessionEvent {
    type V = SessionEventView;

    open spec fn view(&self) -> SessionEventView {
        match self {
            SessionEvent::ThreadStarted(t) => SessionEventView::ThreadStarted(*t),
            SessionEvent::ThreadStartFailed(e) => SessionEventView::ThreadStartFailed(e@),
            SessionEvent::ConversationAcquired => SessionEventView::ConversationAcquired,
            SessionEvent::ConversationBusy(owner) => SessionEventView::ConversationBusy(owner@),
            SessionEvent::SubmitSucceeded => SessionEventView::SubmitSucceeded,
            SessionEvent::SubmitFailed(e) => SessionEventView::SubmitFailed(e@),
            SessionEvent::Codex(ev) => SessionEventView::Codex(ev@),
            SessionEvent::CodexFailed(e) => SessionEventView::CodexFailed(e@),
        }
    }
}

impl View for SessionAction {
    type V = SessionActionView;

    open spec fn view(&self) -> SessionActionView {
        match self {
            SessionAction::StartThread => SessionActionView::StartThread,
            SessionAction::AcquireConversation(t) => SessionActionView::AcquireConversation(*t),
            SessionAction::RemoveThread(t) => SessionActionView::RemoveThread(*t),
            SessionAction::NotifySessionConfigured(t) => SessionActionView::NotifySessionConfigured(
                *t,
            ),
            SessionAction::RegisterRunning(t) => SessionActionView::RegisterRunning(*t),
            SessionAction::SubmitInitialPrompt(id) => SessionActionView::SubmitInitialPrompt(id@),
            SessionAction::SubmitUserInput => SessionActionView::SubmitUserInput,
            SessionAction::AwaitEvent => SessionActionView::AwaitEvent,
            SessionAction::ForwardEvent(t) => SessionActionView::ForwardEvent(*t),
            SessionAction::HandleExecApproval(id) => SessionActionView::HandleExecApproval(id@),
            SessionAction::HandlePatchApproval(id) => SessionActionView::HandlePatchApproval(id@),
            SessionAction::SendResponse(r) => SessionActionView::SendResponse(r@),
            SessionAction::UnregisterRunning => SessionActionView::UnregisterRunning,
            SessionAction::ReleaseConversation(t) => SessionActionView::ReleaseConversation(*t),
        }
    }
}

impl View for ToolSession {
    type V = ToolSessionView;

    open spec fn view(&self) -> ToolSessionView {
        ToolSessionView {
            request_id: self.request_id@,
            format: self.format,
            first_turn: self.first_turn,
            phase: self.phase,
            holds_conversation: self.holds_conversation,
            registered_running: self.registered_running,
        }
    }
}

/// The views of a list of actions.
pub open spec fn actions_view(actions: Seq<SessionAction>) -> Seq<SessionActionView> {
    actions.map_values(|a: SessionAction| a@)
}

impl ToolSessionView {
    pub open spec fn with_phase(self, phase: SessionPhase) -> ToolSessionView {
        ToolSessionView { phase, ..self }
    }

    /// The session after it ends with `outcome`, holding the conversation and
    /// registered as running as given.
    pub open spec fn finish(self, outcome: SessionOutcome, holds: bool, registered: bool)
        -> ToolSessionView {
        ToolSessionView {
            phase: SessionPhase::Finished(outcome),
            holds_conversation: holds,
            registered_running: registered,
            ..self
        }
    }

    pub open spec fn is_finished(self) -> bool {
        self.phase is Finished
    }
}

/// A new session for a request: it first asks for a thread.
pub open spec fn new_session(request_id: RequestIdView, format: ToolResponseFormat)
    -> ToolSessionView {
    ToolSessionView {
        request_id,
        format,
        first_turn: true,
        phase: SessionPhase::StartingThread,
        holds_conversation: false,
        registered_running: false,
    }
}

/// A session that replies on an existing conversation, which the request
/// already holds: it registers the request and submits the user input.
pub open spec fn reply_session(
    thread_id: ThreadId,
    request_id: RequestIdView,
    format: ToolResponseFormat,
) -> ToolSessionView {
    ToolSessionView {
        request_id,
        format,
        first_turn: false,
        phase: SessionPhase::Submitting(thread_id),
        holds_conversation: true,
        registered_running: true,
    }
}

/// What a session does with a Codex event of its turn on conversation `t`:
/// each event is forwarded to the client first; approval requests are handed
/// on; an error or the end of the turn answers the request, and the
/// conversation is freed; anything else only waits for the next event.
pub open spec fn streaming_step(s: ToolSessionView, t: ThreadId, ev: CodexEventView) -> (
    ToolSessionView,
    Seq<SessionActionView>,
) {
    let forward = SessionActionView::ForwardEvent(t);
    match ev {
        CodexEventView::ExecApprovalRequest => (
            s,
            seq![
                forward,
                SessionActionView::HandleExecApproval(s.request_id.text()),
                SessionActionView::AwaitEvent,
            ],
        ),
        CodexEventView::ApplyPatchApprovalRequest => (
            s,
            seq![
                forward,
                SessionActionView::HandlePatchApproval(s.request_id.text()),
                SessionActionView::AwaitEvent,
            ],
        ),
        CodexEventView::Error(message) => (
            s.finish(SessionOutcome::Failed, false, s.registered_running),
            seq![
                forward,
                SessionActionView::SendResponse(
                    thread_result(t, message, Some(true), s.format),
                ),
                SessionActionView::ReleaseConversation(t),
            ],
        ),
        CodexEventView::TurnComplete(last) => (
            s.finish(SessionOutcome::Completed, false, false),
            seq![
                forward,
                SessionActionView::SendResponse(
                    thread_result(
                        t,
                        match last {
                            Some(m) => m,
                            None => Seq::empty(),
                        },
                        None,
                        s.format,
                    ),
                ),
                SessionActionView::UnregisterRunning,
                SessionActionView::ReleaseConversation(t),
            ],
        ),
        CodexEventView::Other => (s, seq![forward, SessionActionView::AwaitEvent]),
    }
}

/// One step of a session: its state after `e` and the actions it asks for.
/// An event that does not answer what the session waits for, and any event
/// after the session finished, changes nothing and asks for nothing.
pub open spec fn session_step(s: ToolSessionView, e: SessionEventView) -> (
    ToolSessionView,
    Seq<SessionActionView>,
) {
    match (s.phase, e) {
        (SessionPhase::StartingThread, SessionEventView::ThreadStarted(t)) => (
            s.with_phase(SessionPhase::AcquiringConversation(t)),
            seq![SessionActionView::AcquireConversation(t)],
        ),
        (SessionPhase::StartingThread, SessionEventView::ThreadStartFailed(error)) => (
            s.finish(SessionOutcome::StartFailed, s.holds_conversation, s.registered_running),
            seq![SessionActionView::SendResponse(error_result_without_thread(start_failure_text(error)))],
        ),
        (SessionPhase::AcquiringConversation(t), SessionEventView::ConversationAcquired) => (
            ToolSessionView {
                phase: SessionPhase::Submitting(t),
                holds_conversation: true,
                registered_running: true,
                ..s
            },
            seq![
                SessionActionView::NotifySessionConfigured(t),
                SessionActionView::RegisterRunning(t),
                SessionActionView::SubmitInitialPrompt(s.request_id.text()),
            ],
        ),
        (SessionPhase::AcquiringConversation(t), SessionEventView::ConversationBusy(owner)) => (
            s.finish(SessionOutcome::Busy, s.holds_conversation, s.registered_running),
            seq![
                SessionActionView::SendResponse(
                    thread_result(t, busy_text(t, owner), Some(true), s.format),
                ),
                SessionActionView::RemoveThread(t),
            ],
        ),
        (SessionPhase::Submitting(t), SessionEventView::SubmitSucceeded) => (
            s.with_phase(SessionPhase::Streaming(t)),
            seq![SessionActionView::AwaitEvent],
        ),
        (SessionPhase::Submitting(t), SessionEventView::SubmitFailed(error)) => (
            s.finish(SessionOutcome::SubmitFailed, false, false),
            seq![
                SessionActionView::SendResponse(
                    thread_result(
                        t,
                        submit_failure_text(s.first_turn, error),
                        Some(true),
                        s.format,
                    ),
                ),
                SessionActionView::UnregisterRunning,
                SessionActionView::ReleaseConversation(t),
            ],
        ),
        (SessionPhase::Streaming(t), SessionEventView::Codex(ev)) => streaming_step(s, t, ev),
        (SessionPhase::Streaming(t), SessionEventView::CodexFailed(error)) => (
            s.finish(SessionOutcome::RuntimeError, false, s.registered_running),
            seq![
                SessionActionView::SendResponse(
                    thread_result(t, runtime_error_text(error), Some(true), s.format),
                ),
                SessionActionView::ReleaseConversation(t),
            ],
        ),
        _ => (s, Seq::empty()),
    }
}


/// Starts a session that runs `tools/call` request `id` on a new Codex thread:
/// the session asks for the thread first.
pub fn run_codex_tool_session(id: RequestId, tool_response_format: ToolResponseFormat) -> (res: (
    ToolSession,
    Vec<SessionAction>,
))
    ensures
        res.0@ == new_session(id@, tool_response_format),
        actions_view(res.1@) == seq![SessionActionView::StartThread],
{
    let session = ToolSession {
        request_id: id,
        format: tool_response_format,
        first_turn: true,
        phase: SessionPhase::StartingThread,
        holds_conversation: false,
        registered_running: false,
    };
    let mut actions: Vec<SessionAction> = Vec::new();
    actions.push(SessionAction::StartThread);
    assert(actions_view(actions@) =~= seq![SessionActionView::StartThread]);
    (session, actions)
}

/// Starts a session that replies on conversation `thread_id` for request
/// `request_id`, which already holds the conversation: the request is
/// recorded as running and the user input is submitted.
pub fn run_codex_tool_session_reply(
    thread_id: ThreadId,
    request_id: RequestId,
    tool_response_format: ToolResponseFormat,
) -> (res: (ToolSession, Vec<SessionAction>))
    ensures
        res.0@ == reply_session(thread_id, request_id@, tool_response_format),
        actions_view(res.1@) == seq![
            SessionActionView::RegisterRunning(thread_id),
            SessionActionView::SubmitUserInput,
        ],
{
    let session = ToolSession {
        request_id,
        format: tool_response_format,
        first_turn: false,
        phase: SessionPhase::Submitting(thread_id),
        holds_conversation: true,
        registered_running: true,
    };
    let mut actions: Vec<SessionAction> = Vec::new();
    actions.push(SessionAction::RegisterRunning(thread_id));
    actions.push(SessionAction::SubmitUserInput);
    assert(actions_view(actions@) =~= seq![
        SessionActionView::RegisterRunning(thread_id),
        SessionActionView::SubmitUserInput,
    ]);
    (session, actions)
}

impl ToolSession {
    pub fn is_finished(&self) -> (finished: bool)
        ensures
            finished == self@.is_finished(),
    {
        matches!(self.phase, SessionPhase::Finished(_))
    }

    /// Takes one event of the turn on conversation `t`.
    fn handle_codex_event(&mut self, t: ThreadId, ev: CodexEvent) -> (actions: Vec<
        SessionAction,
    >)
        ensures
            final(self)@ == streaming_step(old(self)@, t, ev@).0,
            actions_view(actions@) == streaming_step(old(self)@, t, ev@).1,
    {
        let ghost s = self@;
        let ghost spec = streaming_step(s, t, ev@);
        let mut actions: Vec<SessionAction> = Vec::new();
        actions.push(SessionAction::ForwardEvent(t));
        match ev {
            CodexEvent::ExecApprovalRequest => {
                actions.push(SessionAction::HandleExecApproval(self.request_id.to_text()));
                actions.push(SessionAction::AwaitEvent);
            },
            CodexEvent::ApplyPatchApprovalRequest => {
                actions.push(SessionAction::HandlePatchApproval(self.request_id.to_text()));
                actions.push(SessionAction::AwaitEvent);
            },
            CodexEvent::Error(message) => {
                let result = create_call_tool_result_with_thread_id(
                    t,
                    message,
                    Some(true),
                    self.format,
                );
                actions.push(SessionAction::SendResponse(result));
                actions.push(SessionAction::ReleaseConversation(t));
                self.phase = SessionPhase::Finished(SessionOutcome::Failed);
                self.holds_conversation = false;
            },
            CodexEvent::TurnComplete(last) => {
                let text = match last {
                    Some(m) => m,
                    None => String::new(),
                };
                let result = create_call_tool_result_with_thread_id(t, text, None, self.format);
                actions.push(SessionAction::SendResponse(result));
                actions.push(SessionAction::UnregisterRunning);
                actions.push(SessionAction::ReleaseConversation(t));
                self.phase = SessionPhase::Finished(SessionOutcome::Completed);
                self.holds_conversation = false;
                self.registered_running = false;
            },
            CodexEvent::Other => {
                actions.push(SessionAction::AwaitEvent);
            },
        }
        assert(actions_view(actions@) =~= spec.1);
        actions
    }

    /// Takes what came of the last action and decides what to do next.
    pub fn handle_event(&mut self, event: SessionEvent) -> (actions: Vec<SessionAction>)
        ensures
            final(self)@ == session_step(old(self)@, event@).0,
            actions_view(actions@) == session_step(old(self)@, event@).1,
    {
        let ghost s = self@;
        let ghost spec = session_step(s, event@);
        let mut actions: Vec<SessionAction> = Vec::new();
        match (self.phase, event) {
            (SessionPhase::StartingThread, SessionEvent::ThreadStarted(t)) => {
                self.phase = SessionPhase::AcquiringConversation(t);
                actions.push(SessionAction::AcquireConversation(t));
            },
            (SessionPhase::StartingThread, SessionEvent::ThreadStartFailed(error)) => {
                let result = create_error_result_without_thread(start_failure_message(&error));
                actions.push(SessionAction::SendResponse(result));
                self.phase = SessionPhase::Finished(SessionOutcome::StartFailed);
            },
            (SessionPhase::AcquiringConversation(t), SessionEvent::ConversationAcquired) => {
                self.phase = SessionPhase::Submitting(t);
                self.holds_conversation = true;
                self.registered_running = true;
                actions.push(SessionAction::NotifySessionConfigured(t));
                actions.push(SessionAction::RegisterRunning(t));
                actions.push(SessionAction::SubmitInitialPrompt(self.request_id.to_text()));
            },
            (SessionPhase::AcquiringConversation(t), SessionEvent::ConversationBusy(owner)) => {
                let result = create_call_tool_result_with_thread_id(
                    t,
                    busy_message(t, &owner),
                    Some(true),
                    self.format,
                );
                actions.push(SessionAction::SendResponse(result));
                actions.push(SessionAction::RemoveThread(t));
                self.phase = SessionPhase::Finished(SessionOutcome::Busy);
            },
            (SessionPhase::Submitting(t), SessionEvent::SubmitSucceeded) => {
                self.phase = SessionPhase::Streaming(t);
                actions.push(SessionAction::AwaitEvent);
            },
            (SessionPhase::Submitting(t), SessionEvent::SubmitFailed(error)) => {
                let result = create_call_tool_result_with_thread_id(
                    t,
                    submit_failure_message(self.first_turn, &error),
                    Some(true),
                    self.format,
                );
                actions.push(SessionAction::SendResponse(result));
                actions.push(SessionAction::UnregisterRunning);
                actions.push(SessionAction::ReleaseConversation(t));
                self.phase = SessionPhase::Finished(SessionOutcome::SubmitFailed);
                self.holds_conversation = false;
                self.registered_running = false;
            },
            (SessionPhase::Streaming(t), SessionEvent::Codex(ev)) => {
                return self.handle_codex_event(t, ev);
            },
            (SessionPhase::Streaming(t), SessionEvent::CodexFailed(error)) => {
                let result = create_call_tool_result_with_thread_id(
                    t,
                    runtime_error_message(&error),
                    Some(true),
                    self.format,
                );
                actions.push(SessionAction::SendResponse(result));
                actions.push(SessionAction::ReleaseConversation(t));
                self.phase = SessionPhase::Finished(SessionOutcome::RuntimeError);
                self.holds_conversation = false;
            },
            _ => {},
        }
        assert(actions_view(actions@) =~= spec.1);
        actions
    }
}

} // verus!
