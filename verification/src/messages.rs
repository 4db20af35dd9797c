use vstd::prelude::*;

use crate::ids::{RequestId, RequestIdView, ThreadId};

verus! {

/// The text of a failure to start a Codex session.
pub open spec fn start_failure_text(error: Seq<char>) -> Seq<char> {
    "Failed to start Codex session: "@ + error
}

/// The text that reports a conversation already running a turn for `owner`.
pub open spec fn busy_text(thread_id: ThreadId, owner: RequestIdView) -> Seq<char> {
    "Conversation busy for conversation_id: "@ + thread_id.spec_text() + " (in-flight request: "@
        + owner.text() + ")"@
}

/// The text of a failure to submit the prompt: the first prompt of a new
/// session, or the user input of a reply.
pub open spec fn submit_failure_text(first_turn: bool, error: Seq<char>) -> Seq<char> {
    if first_turn {
        "Failed to submit initial prompt: "@ + error
    } else {
        "Failed to submit user input: "@ + error
    }
}

/// The text of a failure to read the next event of a session.
pub open spec fn runtime_error_text(error: Seq<char>) -> Seq<char> {
    "Codex runtime error: "@ + error
}

pub fn start_failure_message(error: &String) -> (text: String)
    ensures
        text@ == start_failure_text(error@),
{
    let mut text = "Failed to start Codex session: ".to_string();
    text.append(error.as_str());
    text
}

pub fn busy_message(thread_id: ThreadId, owner: &RequestId) -> (text: String)
    ensures
        text@ == busy_text(thread_id, owner@),
{
    let mut text = "Conversation busy for conversation_id: ".to_string();
    let thread_text = thread_id.to_text();
    text.append(thread_text.as_str());
    text.append(" (in-flight request: ");
    let owner_text = owner.to_text();
    text.append(owner_text.as_str());
    text.append(")");
    text
}

pub fn submit_failure_message(first_turn: bool, error: &String) -> (text: String)
    ensures
        text@ == submit_failure_text(first_turn, error@),
{
    let mut text = if first_turn {
        "Failed to submit initial prompt: ".to_string()
    } else {
        "Failed to submit user input: ".to_string()
    };
    text.append(error.as_str());
    text
}

pub fn runtime_error_message(error: &String) -> (text: String)
    ensures
        text@ == runtime_error_text(error@),
{
    let mut text = "Codex runtime error: ".to_string();
    text.append(error.as_str());
    text
}

} // verus!
