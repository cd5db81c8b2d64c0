use vstd::prelude::*;
use vstd::string::*;
use std::sync::mpsc::{sync_channel, Receiver, SyncSender, TrySendError};
use crate::data::{Ticket, TicketDraft};
use crate::protocol::{Command, Request};
use crate::store::TicketId;

verus! {

/// The mailbox was full when a command was offered to it.
#[derive(Debug, Clone, Copy, PartialEq, Eq, Structural)]
pub struct OverloadedError;

/// Why a call on the store gave no answer.
#[derive(Debug, Clone, Copy, PartialEq, Eq, Structural)]
pub enum ClientError {
    /// The mailbox did not take the command. The caller may try again.
    Overloaded(OverloadedError),
    /// The mailbox took the command, and the server went away before it
    /// answered. A running server never does that: this is a defect.
    ServerGone,
}

/// An answer that is still to come: the receiving end of the channel that
/// a command named for it, and, for contracts, what that command asked.
#[verifier::reject_recursive_types(T)]
pub struct Pending<T> {
    reply: Receiver<T>,
    request: Ghost<Request>,
}

/// The handle through which any number of callers reach one store. A copy
/// of it feeds the same mailbox. For contracts it keeps the capacity that
/// the mailbox was made with.
pub struct TicketStoreClient {
    sender: SyncSender<Command>,
    capacity: Ghost<usize>,
}

impl Clone for TicketStoreClient {
    /// Another handle on the same mailbox. The server is not asked.
    fn clone(&self) -> (copy: Self)
        ensures
            copy.capacity() == self.capacity(),
    {
        TicketStoreClient { sender: self.sender.clone(), capacity: self.capacity }
    }
}

impl OverloadedError {
    /// The error message.
    pub fn message(&self) -> (text: String)
        ensures
            text@ == "The store is overloaded"@,
    {
        String::from_str("The store is overloaded")
    }
}

/// Whether the mailbox took a command: it is overloaded exactly when the
/// offer failed.
pub fn admission<T>(offer: Result<(), TrySendError<T>>) -> (admitted: Result<(), OverloadedError>)
    ensures
        admitted is Ok <==> offer is Ok,
{
    match offer {
        Ok(()) => Ok(()),
        Err(_) => Err(OverloadedError),
    }
}

/// What a caller gets once the wait for an answer is over: the answer, or
/// the news that the server is gone.
pub fn settle<T>(answer: Option<T>) -> (outcome: Result<T, ClientError>)
    ensures
        match answer {
            Some(value) => outcome == Ok::<T, ClientError>(value),
            None => outcome == Err::<T, ClientError>(ClientError::ServerGone),
        },
{
    match answer {
        Some(value) => Ok(value),
        None => Err(ClientError::ServerGone),
    }
}

impl<T> Pending<T> {
    /// What was asked by the command that this answer is awaited for.
    pub closed spec fn request(&self) -> Request {
        self.request@
    }

    /// Waits for the answer. There is none if the server went away without
    /// sending one.
    pub fn wait(self) -> (answer: Option<T>) {
        match self.reply.recv() {
            Ok(value) => Some(value),
            Err(_) => None,
        }
    }
}

impl TicketStoreClient {
    /// The capacity that the mailbox was made with.
    pub closed spec fn capacity(&self) -> usize {
        self.capacity@
    }

    /// Offers the mailbox a command that makes a ticket from `draft`, without
    /// waiting for room. Where the mailbox takes it, the identifier is still
    /// to come: the answer awaited is the one to the insert of this draft.
    /// Whether the mailbox takes it depends on what it holds at that moment.
    pub fn request_insert(&self, draft: TicketDraft) -> (admitted: Result<
        Pending<TicketId>,
        OverloadedError,
    >)
        ensures
            admitted matches Ok(pending) ==> pending.request() == Request::Insert(draft@),
    {
        let (response_channel, reply) = sync_channel(1);
        let command = Command::Insert { draft, response_channel };
        let request = Ghost(command@);
        match admission(self.sender.try_send(command)) {
            Ok(()) => Ok(Pending { reply, request }),
            Err(refusal) => Err(refusal),
        }
    }

    /// Offers the mailbox a command that looks up `id`, without waiting for
    /// room. Where the mailbox takes it, the ticket is still to come: the
    /// answer awaited is the one to the get of this identifier. Whether the
    /// mailbox takes it depends on what it holds at that moment.
    pub fn request_get(&self, id: TicketId) -> (admitted: Result<
        Pending<Option<Ticket>>,
        OverloadedError,
    >)
        ensures
            admitted matches Ok(pending) ==> pending.request() == Request::Get(id@),
    {
        let (response_channel, reply) = sync_channel(1);
        let command = Command::Get { id, response_channel };
        let request = Ghost(command@);
        match admission(self.sender.try_send(command)) {
            Ok(()) => Ok(Pending { reply, request }),
            Err(refusal) => Err(refusal),
        }
    }

    /// Has the store make a ticket from `draft` and returns its identifier.
    /// Fails at once when the mailbox is full; else waits for the answer.
    pub fn insert(&self, draft: TicketDraft) -> (outcome: Result<TicketId, ClientError>) {
        match self.request_insert(draft) {
            Ok(pending) => settle(pending.wait()),
            Err(refusal) => Err(ClientError::Overloaded(refusal)),
        }
    }

    /// Returns a copy of the ticket filed under `id`, or none. Fails at once
    /// when the mailbox is full; else waits for the answer.
    pub fn get(&self, id: TicketId) -> (outcome: Result<Option<Ticket>, ClientError>) {
        match self.request_get(id) {
            Ok(pending) => settle(pending.wait()),
            Err(refusal) => Err(ClientError::Overloaded(refusal)),
        }
    }
}

/// Makes a mailbox that holds up to `capacity` commands. Returns a handle
/// that feeds it and the end from which a server takes the commands.
pub fn mailbox(capacity: usize) -> (ends: (TicketStoreClient, Receiver<Command>))
    ensures
        ends.0.capacity() == capacity,
{
    let (sender, receiver) = sync_channel(capacity);
    (TicketStoreClient { sender, capacity: Ghost(capacity) }, receiver)
}

} // verus!
