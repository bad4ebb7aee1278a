//! The ticket store that the worker owns.

use vstd::prelude::*;
use crate::data::{filed, Ticket, TicketDraft, TicketId};
use crate::model::StoreModel;

verus! {

/// The tickets that have been filed, each under its own identifier.
///
/// Only the worker ever holds a store, so nothing here synchronises.
pub struct TicketStore {
    tickets: Vec<Ticket>,
}

impl View for TicketStore {
    type V = StoreModel;

    closed spec fn view(&self) -> StoreModel {
        StoreModel { tickets: self.tickets@.map_values(|t: Ticket| t@) }
    }
}

impl TicketStore {
    /// What holds of every store: its tickets are numbered from 1 in the
    /// order in which they were filed.
    #[verifier::type_invariant]
    pub open spec fn well_formed(&self) -> bool {
        self@.well_formed()
    }

    /// A store without any ticket.
    pub fn new() -> (store: TicketStore)
        ensures
            store@ == StoreModel::empty(),
    {
        let store = TicketStore { tickets: Vec::new() };
        assert(store@.tickets =~= Seq::empty());
        store
    }

    /// Whether the identifiers are used up, so that no ticket can be added.
    pub fn is_full(&self) -> (full: bool)
        ensures
            full == self@.is_full(),
            self@.well_formed(),
    {
        proof {
            use_type_invariant(self);
        }
        self.tickets.len() as u64 == u64::MAX
    }

    /// Files `draft` as a new ticket and returns its identifier.
    pub fn add_ticket(&mut self, draft: TicketDraft) -> (id: TicketId)
        requires
            !old(self)@.is_full(),
        ensures
            id == old(self)@.next_id(),
            final(self)@ == old(self)@.insert(draft@),
            final(self)@.lookup(id) == Some(filed(draft@, id)),
            final(self)@.well_formed(),
    {
        proof {
            use_type_invariant(&*self);
        }
        // The vector leaves the store while it grows, so that the store is
        // well formed at every call that could unwind.
        let mut tickets: Vec<Ticket> = Vec::new();
        core::mem::swap(&mut self.tickets, &mut tickets);
        let id = TicketId(tickets.len() as u64 + 1);
        tickets.push(Ticket::file(draft, id));
        proof {
            let grown = tickets@.map_values(|t: Ticket| t@);
            assert(grown =~= old(self)@.insert(draft@).tickets);
            assert forall|i: int| 0 <= i < grown.len() implies (#[trigger] grown[i]).id.0 == i
                + 1 by {
                if i < old(self)@.tickets.len() {
                    assert(grown[i] == old(self)@.tickets[i]);
                }
            }
        }
        core::mem::swap(&mut self.tickets, &mut tickets);
        id
    }

    /// The ticket stored under `id`, if there is one.
    pub fn get(&self, id: TicketId) -> (found: Option<&Ticket>)
        ensures
            match found {
                Some(ticket) => self@.lookup(id) == Some(ticket@),
                None => self@.lookup(id) is None,
            },
            self@.well_formed(),
    {
        proof {
            use_type_invariant(self);
        }
        if id.0 == 0 || id.0 > self.tickets.len() as u64 {
            None
        } else {
            Some(&self.tickets[(id.0 - 1) as usize])
        }
    }
}

} // verus!
