//! The channels of `std::sync::mpsc`, as far as the library uses them.
//!
//! The channels themselves are taken on trust. Each function here that has
//! no verified body makes one call into `std::sync::mpsc`, and its contract
//! says only what the documentation of that call promises, whatever the
//! other end of the channel does. The room of a channel with a fixed
//! capacity has a name for each kind of message that the library sends on
//! one; nothing else of a channel is named, since what it holds changes
//! with every thread that uses it.

use vstd::prelude::*;
use std::sync::mpsc::Receiver;
use std::sync::mpsc::Sender;
use std::sync::mpsc::SyncSender;
use std::sync::mpsc::TrySendError;
use crate::bounded::command::Command;
use crate::data::{Ticket, TicketId};

verus! {

/// `std::sync::mpsc::Sender`: the sending half of a channel that buffers
/// without limit. Nothing is known of what is inside.
#[verifier::external_type_specification]
#[verifier::external_body]
#[verifier::reject_recursive_types(T)]
pub struct ExSender<T>(Sender<T>);

/// `std::sync::mpsc::SyncSender`: the sending half of a channel with a fixed
/// capacity. Nothing is known of what is inside.
#[verifier::external_type_specification]
#[verifier::external_body]
#[verifier::reject_recursive_types(T)]
pub struct ExSyncSender<T>(SyncSender<T>);

/// `std::sync::mpsc::Receiver`: the receiving half of either kind of channel.
/// Nothing is known of what is inside.
#[verifier::external_type_specification]
#[verifier::external_body]
#[verifier::reject_recursive_types(T)]
pub struct ExReceiver<T>(Receiver<T>);

/// Why a channel with a fixed capacity did not take a message. Either way
/// the message comes back.
pub enum Refused<T> {
    /// The channel held as many messages as it has room for.
    Full(T),
    /// The receiving half is gone.
    Disconnected(T),
}

impl<T> Refused<T> {
    /// The message that was not taken.
    pub open spec fn message(self) -> T {
        match self {
            Refused::Full(message) => message,
            Refused::Disconnected(message) => message,
        }
    }

    /// Gives the message back, whichever the reason was.
    pub fn into_message(self) -> (message: T)
        ensures
            message == self.message(),
    {
        match self {
            Refused::Full(message) => message,
            Refused::Disconnected(message) => message,
        }
    }
}

/// Calls `std::sync::mpsc::channel`: a new channel that buffers without
/// limit. Nothing is claimed of the two halves.
#[verifier::external_body]
pub(crate) fn channel<T>() -> (ends: (Sender<T>, Receiver<T>)) {
    std::sync::mpsc::channel()
}

/// The room of the channel of identifiers that `receiver` reads from: the
/// number of messages that `std::sync::mpsc::sync_channel` was asked to make
/// room for. It is fixed when the channel is made. Nothing is known of it
/// for a channel that was made in another way.
pub uninterp spec fn room_for_ids(receiver: Receiver<TicketId>) -> usize;

/// The room of the channel of lookup results that `receiver` reads from, in
/// the same sense.
pub uninterp spec fn room_for_tickets(receiver: Receiver<Option<Ticket>>) -> usize;

/// The room of the channel of commands that `receiver` reads from, in the
/// same sense.
pub uninterp spec fn room_for_commands(receiver: Receiver<Command>) -> usize;

/// Calls `std::sync::mpsc::sync_channel` for a channel of identifiers. The
/// claim is that the channel has room for `capacity` messages: that many can
/// be sent without blocking before one is received.
#[verifier::external_body]
pub(crate) fn sync_channel_of_ids(capacity: usize) -> (ends: (
    SyncSender<TicketId>,
    Receiver<TicketId>,
))
    ensures
        room_for_ids(ends.1) == capacity,
{
    std::sync::mpsc::sync_channel(capacity)
}

/// Calls `std::sync::mpsc::sync_channel` for a channel of lookup results.
/// The claim is that the channel has room for `capacity` messages.
#[verifier::external_body]
pub(crate) fn sync_channel_of_tickets(capacity: usize) -> (ends: (
    SyncSender<Option<Ticket>>,
    Receiver<Option<Ticket>>,
))
    ensures
        room_for_tickets(ends.1) == capacity,
{
    std::sync::mpsc::sync_channel(capacity)
}

/// Calls `std::sync::mpsc::sync_channel` for a channel of commands. The
/// claim is that the channel has room for `capacity` messages.
#[verifier::external_body]
pub(crate) fn sync_channel_of_commands(capacity: usize) -> (ends: (
    SyncSender<Command>,
    Receiver<Command>,
))
    ensures
        room_for_commands(ends.1) == capacity,
{
    std::sync::mpsc::sync_channel(capacity)
}

/// `Sender::clone`: another sending half of the same channel. Nothing is
/// claimed of the copy.
pub assume_specification<T>[ <Sender<T> as Clone>::clone ](sender: &Sender<T>) -> (copy: Sender<T>);

/// `SyncSender::clone`: another sending half of the same channel. Nothing is
/// claimed of the copy.
pub assume_specification<T>[ <SyncSender<T> as Clone>::clone ](sender: &SyncSender<T>) -> (copy:
    SyncSender<T>);

/// Calls `Sender::send`, which never blocks. It fails only when the receiving
/// half is gone, and the claim is that the error then holds the very message
/// that was to be sent. When the call succeeds nothing is claimed: the
/// message may still never be received.
#[verifier::external_body]
pub(crate) fn send<T>(sender: &Sender<T>, message: T) -> (outcome: Result<(), T>)
    ensures
        outcome matches Err(returned) ==> returned == message,
{
    match sender.send(message) {
        Ok(()) => Ok(()),
        Err(error) => Err(error.0),
    }
}

/// Calls `SyncSender::try_send`, which never blocks. It fails when the
/// channel is full or the receiving half is gone, and the claim is that the
/// error then holds the very message that was to be sent. Nothing is claimed
/// of when it succeeds or fails: that depends on the other threads.
#[verifier::external_body]
pub(crate) fn try_send<T>(sender: &SyncSender<T>, message: T) -> (outcome: Result<(), Refused<T>>)
    ensures
        outcome matches Err(refused) ==> refused.message() == message,
{
    match sender.try_send(message) {
        Ok(()) => Ok(()),
        Err(TrySendError::Full(message)) => Err(Refused::Full(message)),
        Err(TrySendError::Disconnected(message)) => Err(Refused::Disconnected(message)),
    }
}

/// Calls `Receiver::recv`, which blocks until a message arrives or every
/// sending half is gone and the channel is empty; `None` stands for the
/// latter. Nothing is claimed of the message: it is whatever another thread
/// sent.
#[verifier::external_body]
pub(crate) fn recv<T>(receiver: &Receiver<T>) -> (message: Option<T>) {
    match receiver.recv() {
        Ok(message) => Some(message),
        Err(_) => None,
    }
}

} // verus!
