//! The caller's side of one request: the answer that is still to come.

use vstd::prelude::*;
use std::sync::mpsc::Receiver;
use crate::transport::recv;
use crate::worker::WorkerGone;

verus! {

/// A request that the inbound channel has accepted and whose answer has not
/// been read yet. It holds the receiving half of the request's own response
/// channel, which was made for this request and is read by nobody else.
#[derive(Debug)]
#[verifier::reject_recursive_types(T)]
pub struct Pending<T> {
    response: Receiver<T>,
}

impl<T> Pending<T> {
    /// The receiving half that the answer arrives on.
    pub closed spec fn response(self) -> Receiver<T> {
        self.response
    }

    /// The pending request whose answer arrives on `response`.
    pub fn accepted(response: Receiver<T>) -> (pending: Pending<T>)
        ensures
            pending.response() == response,
    {
        Pending { response }
    }

    /// What a wait ends with when the response channel has yielded
    /// `received`: the answer, or `WorkerGone` where the channel closed
    /// without one.
    pub fn settle(received: Option<T>) -> (answer: Result<T, WorkerGone>)
        ensures
            answer == match received {
                Some(value) => Ok::<T, WorkerGone>(value),
                None => Err::<T, WorkerGone>(WorkerGone),
            },
    {
        match received {
            Some(value) => Ok(value),
            None => Err(WorkerGone),
        }
    }

    /// Blocks until the worker has answered, and returns the answer. Fails
    /// with `WorkerGone` when the response channel closes without one: the
    /// worker has terminated, or it had no identifier left for a new ticket.
    pub fn wait(self) -> Result<T, WorkerGone> {
        Pending::settle(recv(&self.response))
    }
}

} // verus!
