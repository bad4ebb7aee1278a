//! The request protocol. It stays inside the library: callers go through the
//! methods of the client handle and never build a command themselves.

use vstd::prelude::*;
use vstd::pervasive::unreached;
use std::sync::mpsc::Sender;
use crate::data::{Ticket, TicketDraft, TicketId};
use crate::model::{Reply, Request};
use crate::worker::{get_reply, insert_reply};
use crate::transport::send;

verus! {

/// A request on its way to the worker: the payload, and the sending half of
/// the response channel that was made for this request alone.
#[allow(inconsistent_fields)]
pub enum Command {
    Insert { draft: TicketDraft, response_channel: Sender<TicketId> },
    Get { id: TicketId, response_channel: Sender<Option<Ticket>> },
}

/// An answer on its way back to the caller: the reply, and the response
/// channel that it is to be sent on.
#[allow(inconsistent_fields)]
pub enum Outgoing {
    Id { id: TicketId, response_channel: Sender<TicketId> },
    Ticket { found: Option<Ticket>, response_channel: Sender<Option<Ticket>> },
    /// There is nothing to send.
    Nothing,
}

impl Command {
    /// The request that this command carries.
    pub open spec fn request(self) -> Request {
        match self {
            Command::Insert { draft, response_channel } => Request::Insert(draft@),
            Command::Get { id, response_channel } => Request::Get(id),
        }
    }

    /// The command that asks the worker to file `draft` and to send the new
    /// identifier on `response_channel`.
    pub fn insert(draft: TicketDraft, response_channel: Sender<TicketId>) -> (command: Command)
        ensures
            command == (Command::Insert { draft, response_channel }),
    {
        Command::Insert { draft, response_channel }
    }

    /// The command that asks the worker to look up `id` and to send what it
    /// finds on `response_channel`.
    pub fn get(id: TicketId, response_channel: Sender<Option<Ticket>>) -> (command: Command)
        ensures
            command == (Command::Get { id, response_channel }),
    {
        Command::Get { id, response_channel }
    }

    /// Takes the draft out of an `Insert` that was not sent.
    pub fn into_draft(self) -> (draft: TicketDraft)
        requires
            self is Insert,
        ensures
            draft == self->draft,
    {
        match self {
            Command::Insert { draft, response_channel } => draft,
            Command::Get { id, response_channel } => unreached(),
        }
    }

    /// Takes the identifier out of a `Get` that was not sent.
    pub fn into_id(self) -> (id: TicketId)
        requires
            self is Get,
        ensures
            id == self->id,
    {
        match self {
            Command::Insert { draft, response_channel } => unreached(),
            Command::Get { id, response_channel } => id,
        }
    }
}

/// What `send` has returned for an `Insert`, with the draft in place of the
/// command that came back.
pub fn unsent_draft(outcome: Result<(), Command>) -> (unsent: Result<(), TicketDraft>)
    requires
        outcome matches Err(command) ==> command is Insert,
    ensures
        match outcome {
            Ok(_) => unsent is Ok,
            Err(command) => unsent == Err::<(), TicketDraft>(command->draft),
        },
{
    match outcome {
        Ok(()) => Ok(()),
        Err(command) => Err(command.into_draft()),
    }
}

/// What `send` has returned for a `Get`, with the identifier in place of the
/// command that came back.
pub fn unsent_id(outcome: Result<(), Command>) -> (unsent: Result<(), TicketId>)
    requires
        outcome matches Err(command) ==> command is Get,
    ensures
        match outcome {
            Ok(_) => unsent is Ok,
            Err(command) => unsent == Err::<(), TicketId>(command->id),
        },
{
    match outcome {
        Ok(()) => Ok(()),
        Err(command) => Err(command.into_id()),
    }
}

impl Outgoing {
    /// The reply that this answer carries.
    pub open spec fn reply(self) -> Reply {
        match self {
            Outgoing::Id { id, response_channel } => insert_reply(Some(id)),
            Outgoing::Ticket { found, response_channel } => get_reply(found),
            Outgoing::Nothing => insert_reply(None),
        }
    }

    /// This answer travels on the response channel that `command` brought,
    /// and on no other.
    pub open spec fn answers(self, command: Command) -> bool {
        match self {
            Outgoing::Id { id, response_channel } => command matches Command::Insert {
                draft,
                response_channel: brought,
            } && response_channel == brought,
            Outgoing::Ticket { found, response_channel } => command matches Command::Get {
                id,
                response_channel: brought,
            } && response_channel == brought,
            Outgoing::Nothing => command is Insert,
        }
    }

    /// Sends the reply on its response channel. The channel has no limit, so
    /// this never blocks. A caller that has stopped waiting is no fault of
    /// the worker: a reply that cannot be delivered is dropped.
    pub fn deliver(self) {
        match self {
            Outgoing::Id { id, response_channel } => {
                let _ = send(&response_channel, id);
            },
            Outgoing::Ticket { found, response_channel } => {
                let _ = send(&response_channel, found);
            },
            Outgoing::Nothing => {},
        }
    }
}

} // verus!
