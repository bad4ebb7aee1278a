//! The worker: its life as its callers see it, and what it decides for each
//! request. Both front ends share these decisions; they differ only in the
//! channels that requests and answers travel on.

use vstd::prelude::*;
use crate::data::{Ticket, TicketDraft, TicketId, TicketView};
use crate::model::{Reply, Request};
use crate::store::TicketStore;

verus! {

/// The two states of the worker. It starts `Running` and never leaves
/// `Stopped`.
#[derive(Clone, Copy, Debug, PartialEq, Eq, Structural)]
pub enum WorkerState {
    /// The worker waits for the next request.
    Running,
    /// No client handle is left, so no request can arrive any more.
    Stopped,
}

/// No answer will come: the worker has terminated, or it has let the
/// request go because the store had no identifier left. The library has no
/// way to start another worker: the caller can only give up.
#[derive(Clone, Copy, Debug, PartialEq, Eq, Structural)]
pub struct WorkerGone;

/// The reply that the answer to an `Insert` stands for: the identifier, or
/// nothing where there was none left.
pub open spec fn insert_reply(id: Option<TicketId>) -> Reply {
    match id {
        Some(id) => Reply::Id(id),
        None => Reply::Nothing,
    }
}

/// The reply that the answer to a `Get` stands for.
pub open spec fn get_reply(found: Option<Ticket>) -> Reply {
    Reply::Ticket(
        match found {
            Some(ticket) => Some(ticket@),
            None => None::<TicketView>,
        },
    )
}

/// Serves an `Insert`: files `draft` in `store` and returns the new ticket's
/// identifier. Where the store has no identifier left, nothing is filed and
/// there is no answer.
pub fn serve_insert(store: &mut TicketStore, draft: TicketDraft) -> (id: Option<TicketId>)
    ensures
        (final(store)@, insert_reply(id)) == old(store)@.serve(Request::Insert(draft@)),
        final(store)@.well_formed(),
{
    if store.is_full() {
        None
    } else {
        Some(store.add_ticket(draft))
    }
}

/// Serves a `Get`: returns a copy of the ticket that `store` holds under
/// `id`, or `None` where it holds none.
pub fn serve_get(store: &TicketStore, id: TicketId) -> (found: Option<Ticket>)
    ensures
        (store@, get_reply(found)) == store@.serve(Request::Get(id)),
        store@.well_formed(),
{
    match store.get(id) {
        Some(ticket) => Some(ticket.clone()),
        None => None,
    }
}

} // verus!
