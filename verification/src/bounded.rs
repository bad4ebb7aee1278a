//! The front end whose inbound channel has a fixed capacity: a request that
//! finds the channel full is handed back at once instead of waiting.

use vstd::prelude::*;
use std::sync::mpsc::Receiver;
use std::sync::mpsc::SyncSender;
use crate::data::{Ticket, TicketDraft, TicketId};
use crate::model::{Request, StoreModel};
use crate::pending::Pending;
use crate::worker::{serve_get, serve_insert, WorkerGone, WorkerState};
use crate::store::TicketStore;
use crate::transport;
use crate::transport::Refused;
use crate::transport::{room_for_commands, room_for_ids, room_for_tickets};
use self::command::{refused_draft, refused_id, Command, Outgoing};

pub(crate) mod command;

verus! {

/// The inbound channel did not take a request. The input of the request is
/// inside, untouched, so the caller can try again, drop it or escalate.
///
/// The same error is given when the worker is gone: from this error alone a
/// caller cannot tell an overloaded worker from one that has terminated.
#[derive(Debug)]
pub struct ErrorChannelFull<T: Send> {
    input: T,
}

impl<T: Send> ErrorChannelFull<T> {
    /// The input that was handed back.
    pub closed spec fn payload(self) -> T {
        self.input
    }

    /// The error that hands `input` back.
    pub fn new(input: T) -> (error: Self)
        ensures
            error.payload() == input,
    {
        ErrorChannelFull { input }
    }

    /// The input that was handed back.
    pub fn input(&self) -> (input: &T)
        ensures
            *input == self.payload(),
    {
        &self.input
    }

    /// Gives the input back to the caller.
    pub fn into_input(self) -> (input: T)
        ensures
            input == self.payload(),
    {
        self.input
    }

    /// The error as a line of text.
    pub fn message(&self) -> (text: String)
        ensures
            text@ == "Channel is Full"@,
    {
        String::from_str("Channel is Full")
    }
}

/// Why a call on a bounded client handle did not return an answer.
#[derive(Debug)]
pub enum RequestError<T: Send> {
    /// The inbound channel did not take the request; the input comes back.
    /// This is the one error that a caller is meant to handle.
    ChannelFull(ErrorChannelFull<T>),
    /// The request was accepted, but the worker terminated before it
    /// answered.
    WorkerGone,
}

impl<T: Send> RequestError<T> {
    /// What a blocking call returns once its request was accepted and the
    /// wait for the answer has ended with `waited`: the answer, or
    /// `WorkerGone` where the response channel closed without one.
    pub fn after_wait<A>(waited: Result<A, WorkerGone>) -> (outcome: Result<A, RequestError<T>>)
        ensures
            match waited {
                Ok(answer) => outcome == Ok::<A, RequestError<T>>(answer),
                Err(_) => outcome == Err::<A, RequestError<T>>(RequestError::WorkerGone),
            },
    {
        match waited {
            Ok(answer) => Ok(answer),
            Err(_) => Err(RequestError::WorkerGone),
        }
    }
}

/// The capability to send requests to one worker. It holds nothing but the
/// sending half of the inbound channel, so it is cheap to clone and may be
/// shared among any number of threads.
pub struct TicketStoreClient {
    sender: SyncSender<Command>,
}

/// Makes the inbound channel of a new worker, with room for `capacity`
/// requests: the client handle, and the receiving half for the worker to
/// serve.
pub fn channel(capacity: usize) -> (ends: (TicketStoreClient, Receiver<Command>))
    ensures
        room_for_commands(ends.1) == capacity,
{
    let (sender, receiver) = transport::sync_channel_of_commands(capacity);
    (TicketStoreClient { sender }, receiver)
}

impl Clone for TicketStoreClient {
    /// Another handle to the same worker.
    fn clone(&self) -> Self {
        TicketStoreClient { sender: self.sender.clone() }
    }
}

impl TicketStoreClient {
    /// Offers the request to file `draft` to the inbound channel and returns
    /// at once, without waiting for the answer. Where the channel does not
    /// take the request, the error holds `draft` as it was given. Where it
    /// does, the response channel of the pending request has room for the
    /// one reply, so that the worker never waits to send it.
    pub fn request_insert(&self, draft: TicketDraft) -> (outcome: Result<
        Pending<TicketId>,
        ErrorChannelFull<TicketDraft>,
    >)
        ensures
            outcome matches Err(rejected) ==> rejected.payload() == draft,
            outcome matches Ok(pending) ==> room_for_ids(pending.response()) == 1,
    {
        let (tx, rx) = transport::sync_channel_of_ids(1);
        let outcome = transport::try_send(&self.sender, Command::insert(draft, tx));
        after_attempt(refused_draft(outcome), rx)
    }

    /// Offers the request to look up `id` to the inbound channel and returns
    /// at once, without waiting for the answer. Where the channel does not
    /// take the request, the error holds `id`. Where it does, the response
    /// channel of the pending request has room for the one reply.
    pub fn request_get(&self, id: TicketId) -> (outcome: Result<
        Pending<Option<Ticket>>,
        ErrorChannelFull<TicketId>,
    >)
        ensures
            outcome matches Err(rejected) ==> rejected.payload() == id,
            outcome matches Ok(pending) ==> room_for_tickets(pending.response()) == 1,
    {
        let (tx, rx) = transport::sync_channel_of_tickets(1);
        let outcome = transport::try_send(&self.sender, Command::get(id, tx));
        after_attempt(refused_id(outcome), rx)
    }

    /// Files `draft` as a new ticket and returns its identifier. Never waits
    /// for room in the inbound channel; once the request is accepted, blocks
    /// until the worker has answered.
    pub fn insert(&self, draft: TicketDraft) -> (outcome: Result<
        TicketId,
        RequestError<TicketDraft>,
    >)
        ensures
            outcome matches Err(RequestError::ChannelFull(rejected)) ==> rejected.payload()
                == draft,
    {
        match self.request_insert(draft) {
            Ok(pending) => RequestError::after_wait(pending.wait()),
            Err(rejected) => Err(RequestError::ChannelFull(rejected)),
        }
    }

    /// Looks up the ticket stored under `id`. Never waits for room in the
    /// inbound channel; once the request is accepted, blocks until the
    /// worker has answered.
    pub fn get(&self, id: TicketId) -> (outcome: Result<Option<Ticket>, RequestError<TicketId>>)
        ensures
            outcome matches Err(RequestError::ChannelFull(rejected)) ==> rejected.payload() == id,
    {
        match self.request_get(id) {
            Ok(pending) => RequestError::after_wait(pending.wait()),
            Err(rejected) => Err(RequestError::ChannelFull(rejected)),
        }
    }
}

/// What a caller holds after the inbound channel has been offered a request
/// whose answer is to arrive on `response`, and `try_send` has returned
/// `outcome`: the pending request where the request was taken; where it
/// came back, for want of room or of a worker alike, the error with the
/// input that came back. Nothing is waited for.
pub fn after_attempt<I: Send, T>(
    outcome: Result<(), Refused<I>>,
    response: Receiver<T>,
) -> (attempt: Result<Pending<T>, ErrorChannelFull<I>>)
    ensures
        match outcome {
            Ok(_) => attempt is Ok && attempt->Ok_0.response() == response,
            Err(refused) => attempt is Err && attempt->Err_0.payload() == refused.message(),
        },
{
    match outcome {
        Ok(()) => Ok(Pending::accepted(response)),
        Err(refused) => Err(ErrorChannelFull::new(refused.into_message())),
    }
}

/// Carries out one command on `store` and returns the answer, ready to be
/// sent on the response channel that the command brought.
///
/// An `Insert` files the draft and is answered with the new ticket's
/// identifier; a `Get` is answered with a copy of the ticket that was found,
/// or with `None`. Where the store has no identifier left, an `Insert` files
/// nothing and has no answer: its response channel closes unanswered.
pub fn prepare(store: &mut TicketStore, command: Command) -> (outgoing: Outgoing)
    ensures
        (final(store)@, outgoing.reply()) == old(store)@.serve(command.request()),
        outgoing.answers(command),
        final(store)@.well_formed(),
{
    match command {
        Command::Insert { draft, response_channel } => match serve_insert(store, draft) {
            Some(id) => Outgoing::Id { id, response_channel },
            None => Outgoing::Nothing,
        },
        Command::Get { id, response_channel } => Outgoing::Ticket {
            found: serve_get(store, id),
            response_channel,
        },
    }
}

/// What the worker does with what its inbound channel has yielded. A command
/// is carried out and answered, and the worker stays `Running`. `None` says
/// that every client handle is gone and nothing is left in the channel: the
/// worker is `Stopped`, and the store stays as it is. Nothing else stops the
/// worker.
pub fn step(store: &mut TicketStore, received: Option<Command>) -> (state: WorkerState)
    ensures
        match received {
            Some(command) => state is Running && final(store)@ == old(store)@.serve(
                command.request(),
            ).0,
            None => state is Stopped && final(store)@ == old(store)@,
        },
        final(store)@.well_formed(),
{
    proof {
        use_type_invariant(&*store);
    }
    match received {
        Some(command) => {
            prepare(store, command).deliver();
            WorkerState::Running
        },
        None => WorkerState::Stopped,
    }
}

/// One turn of the worker: blocks until the inbound channel yields a command
/// or reports that no client handle is left, and takes the step that
/// follows. The worker's thread calls this for as long as it returns
/// `Running`.
pub fn server(receiver: &Receiver<Command>, store: &mut TicketStore) -> (state: WorkerState)
    ensures
        state is Stopped ==> final(store)@ == old(store)@,
        state is Running ==> exists|request: Request|
            final(store)@ == #[trigger] old(store)@.serve(request).0,
        final(store)@.well_formed(),
{
    step(store, transport::recv(receiver))
}

/// The worker: the receiving half of the inbound channel, and the store,
/// which it makes for itself and which nobody else ever holds.
pub struct Worker {
    receiver: Receiver<Command>,
    store: TicketStore,
}

impl Worker {
    /// The receiving half that the worker serves.
    pub closed spec fn inbound(&self) -> Receiver<Command> {
        self.receiver
    }

    /// What the worker's store holds.
    pub closed spec fn tickets(&self) -> StoreModel {
        self.store@
    }

    /// The worker that serves `receiver`. Its store is new and holds no
    /// ticket.
    pub fn new(receiver: Receiver<Command>) -> (worker: Worker)
        ensures
            worker.inbound() == receiver,
            worker.tickets() == StoreModel::empty(),
    {
        Worker { receiver, store: TicketStore::new() }
    }

    /// The worker's store, to read.
    pub fn store(&self) -> (store: &TicketStore)
        ensures
            store@ == self.tickets(),
    {
        &self.store
    }

    /// One turn: what `server` does on the worker's own channel and store.
    /// The worker's thread takes turns for as long as they return `Running`.
    pub fn turn(&mut self) -> (state: WorkerState)
        ensures
            final(self).inbound() == old(self).inbound(),
            state is Stopped ==> final(self).tickets() == old(self).tickets(),
            state is Running ==> exists|request: Request|
                final(self).tickets() == #[trigger] old(self).tickets().serve(request).0,
            final(self).tickets().well_formed(),
    {
        let state = server(&self.receiver, &mut self.store);
        proof {
            if state is Running {
                let request = choose|request: Request|
                    self.store@ == #[trigger] old(self).store@.serve(request).0;
                assert(self.tickets() == old(self).tickets().serve(request).0);
            }
        }
        state
    }
}

} // verus!
