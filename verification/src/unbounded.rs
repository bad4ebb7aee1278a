//! The front end whose inbound channel buffers without limit: a request is
//! always accepted while the worker lives.

use vstd::prelude::*;
use std::sync::mpsc::Receiver;
use std::sync::mpsc::Sender;
use crate::data::{Ticket, TicketDraft, TicketId};
use crate::model::{Request, StoreModel};
use crate::pending::Pending;
use crate::store::TicketStore;
use crate::transport;
use crate::worker::{serve_get, serve_insert, WorkerGone, WorkerState};
use self::command::{unsent_draft, unsent_id, Command, Outgoing};

mod command;

verus! {

/// The request never left the caller: the worker was gone when it was to be
/// sent, so nobody is left to receive it. The input of the request is
/// inside, untouched.
#[derive(Debug)]
pub struct Unsent<T> {
    input: T,
}

impl<T> Unsent<T> {
    /// The input that was handed back.
    pub closed spec fn payload(self) -> T {
        self.input
    }

    /// The error that hands `input` back.
    pub fn new(input: T) -> (error: Self)
        ensures
            error.payload() == input,
    {
        Unsent { input }
    }

    /// The input that was handed back.
    pub fn input(&self) -> (input: &T)
        ensures
            *input == self.payload(),
    {
        &self.input
    }

    /// Gives the input back to the caller.
    pub fn into_input(self) -> (input: T)
        ensures
            input == self.payload(),
    {
        self.input
    }
}

/// Why a call on an unbounded client handle did not return an answer. Either
/// way the worker is gone, and the library has no way to start another.
#[derive(Debug)]
pub enum RequestError<T> {
    /// The worker was gone before the request could be sent; the input
    /// comes back.
    Unsent(Unsent<T>),
    /// The request was sent, but its response channel closed without an
    /// answer.
    WorkerGone,
}

impl<T> RequestError<T> {
    /// What a blocking call returns once its request was sent and the wait
    /// for the answer has ended with `waited`: the answer, or `WorkerGone`
    /// where the response channel closed without one.
    pub fn after_wait<A>(waited: Result<A, WorkerGone>) -> (outcome: Result<A, RequestError<T>>)
        ensures
            match waited {
                Ok(answer) => outcome == Ok::<A, RequestError<T>>(answer),
                Err(_) => outcome == Err::<A, RequestError<T>>(RequestError::WorkerGone),
            },
    {
        match waited {
            Ok(answer) => Ok(answer),
            Err(_) => Err(RequestError::WorkerGone),
        }
    }
}

/// What a caller holds after `send` has returned `outcome` for a request
/// whose answer is to arrive on `response`: the pending request where the
/// message was taken; where it came back, which happens only when nobody is
/// left to receive it, the error with the input that came back.
pub fn after_send<I, T>(outcome: Result<(), I>, response: Receiver<T>) -> (pending: Result<
    Pending<T>,
    Unsent<I>,
>)
    ensures
        match outcome {
            Ok(_) => pending is Ok && pending->Ok_0.response() == response,
            Err(input) => pending is Err && pending->Err_0.payload() == input,
        },
{
    match outcome {
        Ok(()) => Ok(Pending::accepted(response)),
        Err(input) => Err(Unsent::new(input)),
    }
}

/// The capability to send requests to one worker. It holds nothing but the
/// sending half of the inbound channel, so it is cheap to clone and may be
/// shared among any number of threads.
pub struct TicketStoreClient {
    tx_server: Sender<Command>,
}

/// Makes the inbound channel of a new worker: the client handle, and the
/// receiving half for the worker to serve.
pub fn channel() -> (TicketStoreClient, Receiver<Command>) {
    let (sender, receiver) = transport::channel::<Command>();
    (TicketStoreClient { tx_server: sender }, receiver)
}

impl Clone for TicketStoreClient {
    /// Another handle to the same worker.
    fn clone(&self) -> Self {
        TicketStoreClient { tx_server: self.tx_server.clone() }
    }
}

impl TicketStoreClient {
    /// Enqueues the request to file `draft` and returns without waiting for
    /// the answer. Where the worker is gone, so that the request cannot be
    /// sent, the error holds `draft` as it was given.
    pub fn request_insert(&self, draft: TicketDraft) -> (outcome: Result<
        Pending<TicketId>,
        Unsent<TicketDraft>,
    >)
        ensures
            outcome matches Err(unsent) ==> unsent.payload() == draft,
    {
        let (tx, rx) = transport::channel::<TicketId>();
        let outcome = transport::send(&self.tx_server, Command::insert(draft, tx));
        after_send(unsent_draft(outcome), rx)
    }

    /// Enqueues the request to look up `id` and returns without waiting for
    /// the answer. Where the worker is gone, so that the request cannot be
    /// sent, the error holds `id`.
    pub fn request_get(&self, id: TicketId) -> (outcome: Result<
        Pending<Option<Ticket>>,
        Unsent<TicketId>,
    >)
        ensures
            outcome matches Err(unsent) ==> unsent.payload() == id,
    {
        let (tx, rx) = transport::channel::<Option<Ticket>>();
        let outcome = transport::send(&self.tx_server, Command::get(id, tx));
        after_send(unsent_id(outcome), rx)
    }

    /// Files `draft` as a new ticket and returns its identifier. Blocks until
    /// the worker has answered. Fails when the worker has terminated: before
    /// the request was sent, and then the error holds `draft`; or before it
    /// answered.
    pub fn insert(&self, draft: TicketDraft) -> (outcome: Result<
        TicketId,
        RequestError<TicketDraft>,
    >)
        ensures
            outcome matches Err(RequestError::Unsent(unsent)) ==> unsent.payload() == draft,
    {
        match self.request_insert(draft) {
            Ok(pending) => RequestError::after_wait(pending.wait()),
            Err(unsent) => Err(RequestError::Unsent(unsent)),
        }
    }

    /// Looks up the ticket stored under `id`. Blocks until the worker has
    /// answered. Fails when the worker has terminated: before the request
    /// was sent, and then the error holds `id`; or before it answered.
    pub fn get(&self, id: TicketId) -> (outcome: Result<Option<Ticket>, RequestError<TicketId>>)
        ensures
            outcome matches Err(RequestError::Unsent(unsent)) ==> unsent.payload() == id,
    {
        match self.request_get(id) {
            Ok(pending) => RequestError::after_wait(pending.wait()),
            Err(unsent) => Err(RequestError::Unsent(unsent)),
        }
    }
}

/// Carries out one command on `store` and returns the answer, ready to be
/// sent on the response channel that the command brought.
///
/// An `Insert` files the draft and is answered with the new ticket's
/// identifier; a `Get` is answered with a copy of the ticket that was found,
/// or with `None`. Where the store has no identifier left, an `Insert` files
/// nothing and has no answer: its response channel closes unanswered.
pub fn prepare(store: &mut TicketStore, command: Command) -> (outgoing: Outgoing)
    ensures
        (final(store)@, outgoing.reply()) == old(store)@.serve(command.request()),
        outgoing.answers(command),
        final(store)@.well_formed(),
{
    match command {
        Command::Insert { draft, response_channel } => match serve_insert(store, draft) {
            Some(id) => Outgoing::Id { id, response_channel },
            None => Outgoing::Nothing,
        },
        Command::Get { id, response_channel } => Outgoing::Ticket {
            found: serve_get(store, id),
            response_channel,
        },
    }
}

/// What the worker does with what its inbound channel has yielded. A command
/// is carried out and answered, and the worker stays `Running`. `None` says
/// that every client handle is gone and nothing is left in the channel: the
/// worker is `Stopped`, and the store stays as it is. Nothing else stops the
/// worker.
pub fn step(store: &mut TicketStore, received: Option<Command>) -> (state: WorkerState)
    ensures
        match received {
            Some(command) => state is Running && final(store)@ == old(store)@.serve(
                command.request(),
            ).0,
            None => state is Stopped && final(store)@ == old(store)@,
        },
        final(store)@.well_formed(),
{
    proof {
        use_type_invariant(&*store);
    }
    match received {
        Some(command) => {
            prepare(store, command).deliver();
            WorkerState::Running
        },
        None => WorkerState::Stopped,
    }
}

/// One turn of the worker: blocks until the inbound channel yields a command
/// or reports that no client handle is left, and takes the step that
/// follows. The worker's thread calls this for as long as it returns
/// `Running`.
pub fn server(receiver: &Receiver<Command>, store: &mut TicketStore) -> (state: WorkerState)
    ensures
        state is Stopped ==> final(store)@ == old(store)@,
        state is Running ==> exists|request: Request|
            final(store)@ == #[trigger] old(store)@.serve(request).0,
        final(store)@.well_formed(),
{
    step(store, transport::recv(receiver))
}

/// The worker: the receiving half of the inbound channel, and the store,
/// which it makes for itself and which nobody else ever holds.
pub struct Worker {
    receiver: Receiver<Command>,
    store: TicketStore,
}

impl Worker {
    /// The receiving half that the worker serves.
    pub closed spec fn inbound(&self) -> Receiver<Command> {
        self.receiver
    }

    /// What the worker's store holds.
    pub closed spec fn tickets(&self) -> StoreModel {
        self.store@
    }

    /// The worker that serves `receiver`. Its store is new and holds no
    /// ticket.
    pub fn new(receiver: Receiver<Command>) -> (worker: Worker)
        ensures
            worker.inbound() == receiver,
            worker.tickets() == StoreModel::empty(),
    {
        Worker { receiver, store: TicketStore::new() }
    }

    /// The worker's store, to read.
    pub fn store(&self) -> (store: &TicketStore)
        ensures
            store@ == self.tickets(),
    {
        &self.store
    }

    /// One turn: what `server` does on the worker's own channel and store.
    /// The worker's thread takes turns for as long as they return `Running`.
    pub fn turn(&mut self) -> (state: WorkerState)
        ensures
            final(self).inbound() == old(self).inbound(),
            state is Stopped ==> final(self).tickets() == old(self).tickets(),
            state is Running ==> exists|request: Request|
                final(self).tickets() == #[trigger] old(self).tickets().serve(request).0,
            final(self).tickets().well_formed(),
    {
        let state = server(&self.receiver, &mut self.store);
        proof {
            if state is Running {
                let request = choose|request: Request|
                    self.store@ == #[trigger] old(self).store@.serve(request).0;
                assert(self.tickets() == old(self).tickets().serve(request).0);
            }
        }
        state
    }
}

} // verus!
