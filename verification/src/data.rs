//! The records kept by the store and the drafts they are made from.

use vstd::prelude::*;

verus! {

/// The identifier of a stored ticket. The store hands them out from 1 upwards.
#[derive(Clone, Copy, Debug, PartialEq, Eq, PartialOrd, Ord, Hash, Structural)]
pub struct TicketId(pub u64);

/// How far work on a ticket has come. A new ticket starts as `ToDo`.
#[derive(Clone, Copy, Debug, PartialEq, Eq, Structural)]
pub enum Status {
    ToDo,
    InProgress,
    Done,
}

/// What a caller supplies to have a ticket created.
#[derive(Debug, PartialEq, Eq)]
pub struct TicketDraft {
    pub title: String,
    pub description: String,
}

/// A stored ticket.
#[derive(Debug, PartialEq, Eq)]
pub struct Ticket {
    pub id: TicketId,
    pub title: String,
    pub description: String,
    pub status: Status,
}

/// The mathematical content of a [`TicketDraft`].
pub struct DraftView {
    pub title: Seq<char>,
    pub description: Seq<char>,
}

/// The mathematical content of a [`Ticket`].
pub struct TicketView {
    pub id: TicketId,
    pub title: Seq<char>,
    pub description: Seq<char>,
    pub status: Status,
}

impl View for TicketDraft {
    type V = DraftView;

    open spec fn view(&self) -> DraftView {
        DraftView { title: self.title@, description: self.description@ }
    }
}

impl View for Ticket {
    type V = TicketView;

    open spec fn view(&self) -> TicketView {
        TicketView {
            id: self.id,
            title: self.title@,
            description: self.description@,
            status: self.status,
        }
    }
}

/// The ticket that a draft becomes when it is filed under `id`: the draft's
/// texts, unchanged, with the status `ToDo`.
pub open spec fn filed(draft: DraftView, id: TicketId) -> TicketView {
    TicketView { id, title: draft.title, description: draft.description, status: Status::ToDo }
}

impl Clone for TicketDraft {
    fn clone(&self) -> (copy: Self)
        ensures
            copy == *self,
    {
        TicketDraft { title: self.title.clone(), description: self.description.clone() }
    }
}

impl Clone for Ticket {
    fn clone(&self) -> (copy: Self)
        ensures
            copy == *self,
    {
        Ticket {
            id: self.id,
            title: self.title.clone(),
            description: self.description.clone(),
            status: self.status,
        }
    }
}

impl Ticket {
    /// Files `draft` under `id`.
    pub fn file(draft: TicketDraft, id: TicketId) -> (ticket: Ticket)
        ensures
            ticket@ == filed(draft@, id),
    {
        Ticket { id, title: draft.title, description: draft.description, status: Status::ToDo }
    }
}

} // verus!
