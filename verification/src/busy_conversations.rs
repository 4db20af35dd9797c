use std::collections::HashMap;
use vstd::prelude::*;

use crate::ids::{RequestId, ThreadId};

verus! {

broadcast use vstd::std_specs::hash::group_hash_axioms;

/// The table after `request` tries to take `conversation`, and the outcome:
/// a free conversation is taken; a taken one stays with its owner, who is
/// reported.
pub open spec fn acquire_outcome(
    table: Map<u128, RequestId>,
    conversation: u128,
    request: RequestId,
) -> (Map<u128, RequestId>, Result<(), RequestId>) {
    if table.contains_key(conversation) {
        (table, Err(table[conversation]))
    } else {
        (table.insert(conversation, request), Ok(()))
    }
}

/// The table after `request` lets go of `conversation`: the entry goes only
/// when `request` is its owner.
pub open spec fn release_outcome(
    table: Map<u128, RequestId>,
    conversation: u128,
    request: RequestId,
) -> Map<u128, RequestId> {
    if table.contains_key(conversation) && table[conversation]@ == request@ {
        table.remove(conversation)
    } else {
        table
    }
}

/// Which request, if any, is running a turn on each conversation.
pub struct BusyConversations {
    owners: HashMap<u128, RequestId>,
}

impl View for BusyConversations {
    type V = Map<u128, RequestId>;

    /// The owner of each busy conversation, keyed by the conversation's UUID.
    closed spec fn view(&self) -> Map<u128, RequestId> {
        self.owners@
    }
}

impl BusyConversations {
    pub fn new() -> (table: BusyConversations)
        ensures
            table@ == Map::<u128, RequestId>::empty(),
    {
        BusyConversations { owners: HashMap::new() }
    }

    /// Takes `conversation_id` for `request_id` when no request holds it;
    /// otherwise leaves the table as it is and returns the current owner.
    pub fn try_acquire(&mut self, conversation_id: ThreadId, request_id: &RequestId) -> (res:
        Result<(), RequestId>)
        ensures
            (final(self)@, res) == acquire_outcome(
                old(self)@,
                conversation_id.uuid,
                *request_id,
            ),
    {
        let key = conversation_id.as_u128();
        match self.owners.get(&key) {
            Some(owner) => {
                return Err(owner.duplicate());
            },
            None => {},
        }
        self.owners.insert(key, request_id.duplicate());
        Ok(())
    }

    /// Frees `conversation_id` when `request_id` is the request that holds it.
    pub fn release(&mut self, conversation_id: ThreadId, request_id: &RequestId)
        ensures
            final(self)@ == release_outcome(old(self)@, conversation_id.uuid, *request_id),
    {
        let key = conversation_id.as_u128();
        let owned = match self.owners.get(&key) {
            Some(owner) => owner.same_as(request_id),
            None => false,
        };
        if owned {
            self.owners.remove(&key);
        }
    }
}

impl Default for BusyConversations {
    fn default() -> (table: Self)
        ensures
            table@ == Map::<u128, RequestId>::empty(),
    {
        BusyConversations::new()
    }
}

/// While one request holds a conversation, another request cannot take it:
/// it is told who holds it, and the table does not change.
pub proof fn law_held_conversation_is_refused(
    table: Map<u128, RequestId>,
    conversation: u128,
    first: RequestId,
    second: RequestId,
)
    requires
        !table.contains_key(conversation),
    ensures
        ({
            let (taken, first_outcome) = acquire_outcome(table, conversation, first);
            let (after, second_outcome) = acquire_outcome(taken, conversation, second);
            &&& first_outcome == Ok::<(), RequestId>(())
            &&& second_outcome == Err::<(), RequestId>(first)
            &&& after == taken
        }),
{
}

/// Taking a free conversation and letting it go again restores the table.
pub proof fn law_release_undoes_acquire(
    table: Map<u128, RequestId>,
    conversation: u128,
    request: RequestId,
)
    requires
        !table.contains_key(conversation),
    ensures
        release_outcome(acquire_outcome(table, conversation, request).0, conversation, request)
            == table,
{
    assert(table.insert(conversation, request).remove(conversation) =~= table);
}

/// A request that does not hold a conversation cannot free it.
pub proof fn law_only_the_owner_releases(
    table: Map<u128, RequestId>,
    conversation: u128,
    request: RequestId,
)
    requires
        table.contains_key(conversation),
        table[conversation]@ != request@,
    ensures
        release_outcome(table, conversation, request) == table,
{
}

} // verus!
