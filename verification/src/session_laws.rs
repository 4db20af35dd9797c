//! What holds of every run of a tool session, whatever events it is fed.

use vstd::prelude::*;

use crate::codex_tool_runner::{
    new_session, reply_session, session_step, streaming_step, CodexEventView, SessionActionView,
    SessionEventView, SessionOutcome, SessionPhase, ToolSessionView,
};
use crate::ids::{RequestIdView, ThreadId};
use crate::tool_response_format::ToolResponseFormat;
use crate::tool_result::CallToolResultView;

verus! {

/// The state a session reaches on `events`, and every action it asks for on
/// the way, in order.
pub open spec fn run_session(s: ToolSessionView, events: Seq<SessionEventView>) -> (
    ToolSessionView,
    Seq<SessionActionView>,
)
    decreases events.len(),
{
    if events.len() == 0 {
        (s, Seq::empty())
    } else {
        let (next, first) = session_step(s, events[0]);
        let (last, rest) = run_session(next, events.drop_first());
        (last, first + rest)
    }
}

/// How many `tools/call` responses a list of actions sends.
pub open spec fn responses_sent(actions: Seq<SessionActionView>) -> nat
    decreases actions.len(),
{
    if actions.len() == 0 {
        0
    } else {
        (if actions[0] is SendResponse {
            1nat
        } else {
            0nat
        }) + responses_sent(actions.drop_first())
    }
}

/// How many times a list of actions frees a conversation.
pub open spec fn conversations_released(actions: Seq<SessionActionView>) -> nat
    decreases actions.len(),
{
    if actions.len() == 0 {
        0
    } else {
        (if actions[0] is ReleaseConversation {
            1nat
        } else {
            0nat
        }) + conversations_released(actions.drop_first())
    }
}

/// Whether a session that ends this way had got hold of its conversation,
/// and so frees it.
pub open spec fn outcome_frees_conversation(outcome: SessionOutcome) -> bool {
    !(outcome is StartFailed || outcome is Busy)
}

/// Whether the session ends in `s2` having not ended in `s1`.
pub open spec fn ends_between(s1: ToolSessionView, s2: ToolSessionView) -> bool {
    !s1.is_finished() && s2.is_finished()
}

/// What a session holds at each stage: nothing before it has its
/// conversation; the conversation and the running record while it submits or
/// streams; at the end no conversation, and the running record only when the
/// turn ended in an error (Codex's or the event stream's).
pub open spec fn session_bookkeeping(s: ToolSessionView) -> bool {
    match s.phase {
        SessionPhase::StartingThread => !s.holds_conversation && !s.registered_running,
        SessionPhase::AcquiringConversation(_) => !s.holds_conversation
            && !s.registered_running,
        SessionPhase::Submitting(_) => s.holds_conversation && s.registered_running,
        SessionPhase::Streaming(_) => s.holds_conversation && s.registered_running,
        SessionPhase::Finished(o) => !s.holds_conversation && (s.registered_running <==> (
        o is Failed || o is RuntimeError)),
    }
}

proof fn lemma_counts_add(a: Seq<SessionActionView>, b: Seq<SessionActionView>)
    ensures
        responses_sent(a + b) == responses_sent(a) + responses_sent(b),
        conversations_released(a + b) == conversations_released(a) + conversations_released(b),
    decreases a.len(),
{
    if a.len() == 0 {
        assert(a + b =~= b);
    } else {
        assert((a + b).drop_first() =~= a.drop_first() + b);
        lemma_counts_add(a.drop_first(), b);
    }
}

proof fn lemma_step_counts(s: ToolSessionView, e: SessionEventView)
    ensures
        ({
            let (next, actions) = session_step(s, e);
            &&& responses_sent(actions) == (if ends_between(s, next) {
                1nat
            } else {
                0nat
            })
            &&& conversations_released(actions) == (if ends_between(s, next)
                && outcome_frees_conversation(next.phase->Finished_0) {
                1nat
            } else {
                0nat
            })
            &&& s.is_finished() ==> next == s && actions.len() == 0
            &&& next.request_id == s.request_id
            &&& next.format == s.format
            &&& session_bookkeeping(s) ==> session_bookkeeping(next)
        }),
{
    reveal_with_fuel(responses_sent, 5);
    reveal_with_fuel(conversations_released, 5);
    match (s.phase, e) {
        (SessionPhase::Streaming(t), SessionEventView::Codex(ev)) => {
            let (next, actions) = streaming_step(s, t, ev);
        },
        _ => {},
    }
}

/// However a session runs, it sends exactly one `tools/call` response for
/// its request: one when the run takes it to its end, none while it has not
/// ended, and none after it has ended.
pub proof fn law_one_response_per_session(s: ToolSessionView, events: Seq<SessionEventView>)
    ensures
        responses_sent(run_session(s, events).1) == (if ends_between(
            s,
            run_session(s, events).0,
        ) {
            1nat
        } else {
            0nat
        }),
    decreases events.len(),
{
    if events.len() > 0 {
        let (next, first) = session_step(s, events[0]);
        lemma_step_counts(s, events[0]);
        law_one_response_per_session(next, events.drop_first());
        lemma_counts_add(first, run_session(next, events.drop_first()).1);
        if s.is_finished() {
            lemma_run_from_finished(s, events.drop_first());
        } else if next.is_finished() {
            lemma_run_from_finished(next, events.drop_first());
        }
    }
}

proof fn lemma_run_from_finished(s: ToolSessionView, events: Seq<SessionEventView>)
    requires
        s.is_finished(),
    ensures
        run_session(s, events).0 == s,
        run_session(s, events).1.len() == 0,
    decreases events.len(),
{
    if events.len() > 0 {
        lemma_step_counts(s, events[0]);
        lemma_run_from_finished(s, events.drop_first());
    }
}

/// A session frees its conversation exactly once, when it ends after having
/// got hold of it; it never frees one while it runs, and never when it ended
/// without it (the thread did not start, or another request held the
/// conversation).
pub proof fn law_conversation_freed_once(s: ToolSessionView, events: Seq<SessionEventView>)
    ensures
        ({
            let (last, actions) = run_session(s, events);
            conversations_released(actions) == (if ends_between(s, last)
                && outcome_frees_conversation(last.phase->Finished_0) {
                1nat
            } else {
                0nat
            })
        }),
    decreases events.len(),
{
    if events.len() > 0 {
        let (next, first) = session_step(s, events[0]);
        lemma_step_counts(s, events[0]);
        law_conversation_freed_once(next, events.drop_first());
        lemma_counts_add(first, run_session(next, events.drop_first()).1);
        if s.is_finished() {
            lemma_run_from_finished(s, events.drop_first());
        } else if next.is_finished() {
            lemma_run_from_finished(next, events.drop_first());
        }
    }
}

proof fn lemma_run_keeps_bookkeeping(s: ToolSessionView, events: Seq<SessionEventView>)
    requires
        session_bookkeeping(s),
    ensures
        session_bookkeeping(run_session(s, events).0),
        run_session(s, events).0.request_id == s.request_id,
        run_session(s, events).0.format == s.format,
    decreases events.len(),
{
    if events.len() > 0 {
        lemma_step_counts(s, events[0]);
        lemma_run_keeps_bookkeeping(session_step(s, events[0]).0, events.drop_first());
    }
}

/// Every session, new or reply, keeps its request and its format and its
/// bookkeeping straight: when it has ended it no longer holds its
/// conversation, and it is still recorded as running only when the turn
/// ended in an error reported by Codex or in a failure to read the next
/// event.
pub proof fn law_session_bookkeeping(
    first_turn: bool,
    thread_id: ThreadId,
    request_id: RequestIdView,
    format: ToolResponseFormat,
    events: Seq<SessionEventView>,
)
    ensures
        ({
            let start = if first_turn {
                new_session(request_id, format)
            } else {
                reply_session(thread_id, request_id, format)
            };
            let last = run_session(start, events).0;
            &&& session_bookkeeping(last)
            &&& last.request_id == request_id
            &&& last.format == format
            &&& last.is_finished() ==> !last.holds_conversation
        }),
{
    let start = if first_turn {
        new_session(request_id, format)
    } else {
        reply_session(thread_id, request_id, format)
    };
    lemma_run_keeps_bookkeeping(start, events);
}


/// Whether `r` is a response for conversation `t` in `format`: one text
/// block exactly when the format includes text content, the structured
/// object exactly when it includes structured content, that object naming
/// conversation `t`, and the same text in both parts when both are there.
pub open spec fn response_in_format(r: CallToolResultView, t: ThreadId, format: ToolResponseFormat)
    -> bool {
    &&& (r.content.len() > 0 <==> format.includes_text_content())
    &&& r.content.len() <= 1
    &&& (r.structured_content is Some <==> format.includes_structured_content())
    &&& (r.structured_content matches Some(sc) ==> sc.thread_id == t && (r.content.len() > 0
        ==> r.content[0] == sc.content))
}

/// Every `tools/call` response a session sends once it knows its
/// conversation `t` is in the session's own format, and is flagged as an
/// error unless it answers a completed turn, which carries no flag. A
/// response sent before any conversation exists (the thread did not start)
/// is a single text block flagged as an error, in every format.
pub proof fn law_responses_in_session_format(s: ToolSessionView, e: SessionEventView)
    ensures
        ({
            let actions = session_step(s, e).1;
            forall|i: int|
                0 <= i < actions.len() && #[trigger] actions[i] is SendResponse ==> {
                    let r = actions[i]->SendResponse_0;
                    &&& (match s.phase {
                        SessionPhase::AcquiringConversation(t) => response_in_format(
                            r,
                            t,
                            s.format,
                        ),
                        SessionPhase::Submitting(t) => response_in_format(r, t, s.format),
                        SessionPhase::Streaming(t) => response_in_format(r, t, s.format),
                        _ => r.content.len() == 1 && r.structured_content is None,
                    })
                    &&& r.is_error == (if e matches SessionEventView::Codex(
                        CodexEventView::TurnComplete(_),
                    ) {
                        None::<bool>
                    } else {
                        Some(true)
                    })
                }
        }),
{
}


/// The text a response carries: its text block, or else its structured
/// content.
pub open spec fn response_text(r: CallToolResultView) -> Seq<char> {
    if r.content.len() > 0 {
        r.content[0]
    } else {
        match r.structured_content {
            Some(sc) => sc.content,
            None => Seq::empty(),
        }
    }
}

/// What each response says: a Codex error answers with its message, a
/// completed turn with the agent's last message (empty when there is none),
/// and each failure with its own prefix before the error's text; a busy
/// conversation names itself and the request that holds it.
pub proof fn law_response_texts(s: ToolSessionView, e: SessionEventView)
    ensures
        ({
            let actions = session_step(s, e).1;
            forall|i: int|
                0 <= i < actions.len() && #[trigger] actions[i] is SendResponse ==> {
                    let text = response_text(actions[i]->SendResponse_0);
                    match e {
                        SessionEventView::ThreadStartFailed(err) => text
                            == "Failed to start Codex session: "@ + err,
                        SessionEventView::ConversationBusy(owner) => exists|t: ThreadId|
                            s.phase == SessionPhase::AcquiringConversation(t) && text
                                == "Conversation busy for conversation_id: "@ + t.spec_text()
                                + " (in-flight request: "@ + owner.text() + ")"@,
                        SessionEventView::SubmitFailed(err) => text == (if s.first_turn {
                            "Failed to submit initial prompt: "@
                        } else {
                            "Failed to submit user input: "@
                        }) + err,
                        SessionEventView::CodexFailed(err) => text == "Codex runtime error: "@
                            + err,
                        SessionEventView::Codex(CodexEventView::Error(message)) => text
                            == message,
                        SessionEventView::Codex(CodexEventView::TurnComplete(last)) => text
                            == (match last {
                            Some(m) => m,
                            None => Seq::empty(),
                        }),
                        _ => false,
                    }
                }
        }),
{
}

/// While a turn streams on conversation `t`, each Codex event is forwarded to
/// the client before anything else; an error or the end of the turn finishes
/// the session, and any other event leaves it as it was and waits for the
/// next one; approval requests are handed on under the request's text.
pub proof fn law_streaming_events(s: ToolSessionView, t: ThreadId, ev: CodexEventView)
    requires
        s.phase == SessionPhase::Streaming(t),
    ensures
        ({
            let (next, actions) = session_step(s, SessionEventView::Codex(ev));
            &&& actions.len() > 0
            &&& actions[0] == SessionActionView::ForwardEvent(t)
            &&& (next.is_finished() <==> (ev is Error || ev is TurnComplete))
            &&& !next.is_finished() ==> next == s && actions.last()
                == SessionActionView::AwaitEvent
            &&& ev is ExecApprovalRequest ==> actions.contains(
                SessionActionView::HandleExecApproval(s.request_id.text()),
            )
            &&& ev is ApplyPatchApprovalRequest ==> actions.contains(
                SessionActionView::HandlePatchApproval(s.request_id.text()),
            )
        }),
{
    let actions = session_step(s, SessionEventView::Codex(ev)).1;
    if ev is ExecApprovalRequest {
        assert(actions[1] == SessionActionView::HandleExecApproval(s.request_id.text()));
    }
    if ev is ApplyPatchApprovalRequest {
        assert(actions[1] == SessionActionView::HandlePatchApproval(s.request_id.text()));
    }
}

} // verus!
