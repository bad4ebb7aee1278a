//! The worker as mathematics: what the store holds, and what serving a
//! request does to it and answers.

use vstd::prelude::*;
use crate::data::{filed, DraftView, TicketId, TicketView};

verus! {

/// What a store holds: its tickets in the order in which they were filed.
pub struct StoreModel {
    pub tickets: Seq<TicketView>,
}

/// A request as the worker sees it, without the channel that the answer
/// travels back on.
pub enum Request {
    /// File a new ticket from this draft.
    Insert(DraftView),
    /// Look up the ticket with this identifier.
    Get(TicketId),
}

/// What the worker sends back for one request.
pub enum Reply {
    /// The identifier under which an `Insert` was filed.
    Id(TicketId),
    /// The result of a `Get`: the ticket, or `None` where there is none.
    Ticket(Option<TicketView>),
    /// Nothing is sent: the identifiers are used up, and the response channel
    /// closes without a value.
    Nothing,
}

impl StoreModel {
    /// The store without any ticket.
    pub open spec fn empty() -> StoreModel {
        StoreModel { tickets: Seq::empty() }
    }

    /// The ticket at position `i` carries the identifier `i + 1`, and every
    /// identifier fits in a `u64`.
    pub open spec fn well_formed(self) -> bool {
        &&& self.tickets.len() <= u64::MAX
        &&& forall|i: int|
            0 <= i < self.tickets.len() ==> (#[trigger] self.tickets[i]).id.0 == i + 1
    }

    /// No identifier is left for another ticket.
    pub open spec fn is_full(self) -> bool {
        self.tickets.len() >= u64::MAX
    }

    /// The identifier that the next ticket gets.
    pub open spec fn next_id(self) -> TicketId {
        TicketId((self.tickets.len() + 1) as u64)
    }

    /// `id` has been handed out by this store.
    pub open spec fn issued(self, id: TicketId) -> bool {
        1 <= id.0 <= self.tickets.len()
    }

    /// The ticket stored under `id`, if `id` has been handed out.
    pub open spec fn lookup(self, id: TicketId) -> Option<TicketView> {
        if self.issued(id) {
            Some(self.tickets[id.0 - 1])
        } else {
            None
        }
    }

    /// The store after `draft` has been filed under the next identifier.
    pub open spec fn insert(self, draft: DraftView) -> StoreModel {
        StoreModel { tickets: self.tickets.push(filed(draft, self.next_id())) }
    }

    /// Serving one request: the store afterwards, and the reply.
    ///
    /// An `Insert` files the draft and answers with its identifier, unless the
    /// identifiers are used up: then the store stays as it is and nothing is
    /// sent. A `Get` leaves the store as it is and answers with what `lookup`
    /// finds.
    pub open spec fn serve(self, request: Request) -> (StoreModel, Reply) {
        match request {
            Request::Insert(draft) => if self.is_full() {
                (self, Reply::Nothing)
            } else {
                (self.insert(draft), Reply::Id(self.next_id()))
            },
            Request::Get(id) => (self, Reply::Ticket(self.lookup(id))),
        }
    }

    /// The store after the worker has served `requests`, first to last.
    pub open spec fn run(self, requests: Seq<Request>) -> StoreModel
        decreases requests.len(),
    {
        if requests.len() == 0 {
            self
        } else {
            self.run(requests.drop_last()).serve(requests.last()).0
        }
    }

    /// The reply to `requests[i]` when the worker serves `requests`, first to
    /// last, starting from this store.
    pub open spec fn reply_at(self, requests: Seq<Request>, i: int) -> Reply {
        self.run(requests.take(i)).serve(requests[i]).1
    }
}

} // verus!
