use vstd::prelude::*;
use std::sync::mpsc::{Receiver, RecvError};
use crate::protocol::{Command, Request, Response};
use crate::store::TicketStore;

verus! {

/// Whether the server still waits for commands.
#[derive(Debug, Clone, Copy, PartialEq, Eq, Structural)]
pub enum ServerState {
    Running,
    Terminated,
}

/// Works out the answer to one command: an insert files a new ticket and
/// answers with its identifier, a get answers with a copy of the ticket
/// asked for, or with none. The answer is addressed to the channel that the
/// command named.
pub fn respond(store: &mut TicketStore, command: Command) -> (response: Response)
    requires
        old(store).wf(),
    ensures
        final(store).wf(),
        final(store)@ == old(store)@.after(command@),
        response@ == old(store)@.reply(command@),
        response.returns_to(command),
{
    match command {
        Command::Insert { draft, response_channel } => {
            let id = store.add_ticket(draft);
            Response::Issued { id, response_channel }
        },
        Command::Get { id, response_channel } => {
            let ticket = match store.get(id) {
                Some(found) => Some(found.clone()),
                None => None,
            };
            Response::Found { ticket, response_channel }
        },
    }
}

/// Sends a response on its channel. Returns whether the caller was still
/// there to take it.
pub fn deliver(response: Response) -> (delivered: bool) {
    match response {
        Response::Issued { id, response_channel } => response_channel.send(id).is_ok(),
        Response::Found { ticket, response_channel } => response_channel.send(ticket).is_ok(),
    }
}

/// Serves one command: answers it from the store and sends the one answer.
pub fn handle(store: &mut TicketStore, command: Command)
    requires
        old(store).wf(),
    ensures
        final(store).wf(),
        final(store)@ == old(store)@.after(command@),
{
    let response = respond(store, command);
    let _ = deliver(response);
}

/// What a server does with what its mailbox gave it: it serves the command
/// and goes on running, or, where there is none because every sender is
/// gone, it is done and leaves the store as it is.
pub fn serve_received(store: &mut TicketStore, received: Result<Command, RecvError>) -> (state:
    ServerState)
    requires
        old(store).wf(),
    ensures
        final(store).wf(),
        match received {
            Ok(command) => state == ServerState::Running && final(store)@ == old(store)@.after(
                command@,
            ),
            Err(_) => state == ServerState::Terminated && final(store)@ == old(store)@,
        },
{
    match received {
        Ok(command) => {
            handle(store, command);
            ServerState::Running
        },
        Err(_) => ServerState::Terminated,
    }
}

/// Waits for the next command and serves it. The server goes on running
/// after a command, whose request the store then has served; it is done
/// once every sender of the mailbox is gone, and the store is as it was.
pub fn serve_next(receiver: &Receiver<Command>, store: &mut TicketStore) -> (state: ServerState)
    requires
        old(store).wf(),
    ensures
        final(store).wf(),
        state == ServerState::Running ==> exists|request: Request| #[trigger]
            old(store)@.after(request) == final(store)@,
        state == ServerState::Terminated ==> final(store)@ == old(store)@,
        old(store)@.grows_to(final(store)@),
        final(store)@.issued <= old(store)@.issued + 1,
{
    let received = receiver.recv();
    proof {
        store.lemma_wf_model();
        if received is Ok {
            store@.lemma_after_grows(received->Ok_0@);
        }
    }
    serve_received(store, received)
}

/// Serves up to `limit` commands, one after the other as they arrive.
/// Stops early, and is done, once every sender of the mailbox is gone; a
/// server that stops at its limit is still running and has served `limit`
/// requests. No ticket is taken away or altered, and at most `limit`
/// identifiers are handed out.
pub fn serve(receiver: &Receiver<Command>, store: &mut TicketStore, limit: u64) -> (state:
    ServerState)
    requires
        old(store).wf(),
    ensures
        final(store).wf(),
        state == ServerState::Running ==> old(store)@.serves_to(limit as nat, final(store)@),
        state == ServerState::Terminated ==> exists|count: nat|
            count < limit && #[trigger] old(store)@.serves_to(count, final(store)@),
        old(store)@.grows_to(final(store)@),
        final(store)@.issued <= old(store)@.issued + limit,
{
    let mut served: u64 = 0;
    let ghost mut requests: Seq<Request> = Seq::empty();
    while served < limit
        invariant
            store.wf(),
            served <= limit,
            requests.len() == served,
            old(store)@.after_all(requests) == store@,
            old(store)@.grows_to(store@),
            store@.issued <= old(store)@.issued + served,
        decreases limit - served,
    {
        let ghost before = store@;
        match serve_next(receiver, store) {
            ServerState::Running => {
                proof {
                    let request = choose|request: Request| #[trigger]
                        before.after(request) == store@;
                    old(store)@.lemma_after_all_push(requests, request);
                    requests = requests.push(request);
                    old(store)@.lemma_grows_transitive(before, store@);
                }
                served = served + 1;
            },
            ServerState::Terminated => {
                assert(old(store)@.serves_to(served as nat, store@));
                return ServerState::Terminated;
            },
        }
    }
    ServerState::Running
}

/// Runs a server on a store of its own: starts from the empty store and
/// serves the commands of the mailbox in the order in which they arrive,
/// until every sender is gone. It counts what it serves in a `u64` and
/// stops when that is full, which no mailbox lives to see.
pub fn server(receiver: Receiver<Command>) {
    let mut store = TicketStore::new();
    let _ = serve(&receiver, &mut store, u64::MAX);
}

} // verus!
