use vstd::prelude::*;
use std::sync::mpsc::SyncSender;
use crate::data::{DraftView, Ticket, TicketDraft, TicketView};
use crate::store::{StoreModel, TicketId};

verus! {

/// What a caller asks of the store, with the channel on which the one
/// answer is to be sent.
#[allow(inconsistent_fields)]
pub enum Command {
    Insert { draft: TicketDraft, response_channel: SyncSender<TicketId> },
    Get { id: TicketId, response_channel: SyncSender<Option<Ticket>> },
}

/// The answer to one command, with the channel that the command named for it.
#[allow(inconsistent_fields)]
pub enum Response {
    Issued { id: TicketId, response_channel: SyncSender<TicketId> },
    Found { ticket: Option<Ticket>, response_channel: SyncSender<Option<Ticket>> },
}

/// A command as contracts speak of it: what is asked, without the channel.
pub enum Request {
    Insert(DraftView),
    Get(nat),
}

/// A response as contracts speak of it: what is answered, without the channel.
pub enum Reply {
    Issued(nat),
    Found(Option<TicketView>),
}

impl View for Command {
    type V = Request;

    open spec fn view(&self) -> Request {
        match self {
            Command::Insert { draft, .. } => Request::Insert(draft@),
            Command::Get { id, .. } => Request::Get(id@),
        }
    }
}

/// A ticket that may be absent, as contracts speak of it.
pub open spec fn ticket_view(ticket: Option<Ticket>) -> Option<TicketView> {
    match ticket {
        Some(ticket) => Some(ticket@),
        None => None,
    }
}

impl View for Response {
    type V = Reply;

    open spec fn view(&self) -> Reply {
        match self {
            Response::Issued { id, .. } => Reply::Issued(id@),
            Response::Found { ticket, .. } => Reply::Found(ticket_view(*ticket)),
        }
    }
}

impl Response {
    /// This response travels on the channel that `command` named.
    pub open spec fn returns_to(self, command: Command) -> bool {
        match (self, command) {
            (
                Response::Issued { response_channel: to, .. },
                Command::Insert { response_channel: named, .. },
            ) => to == named,
            (
                Response::Found { response_channel: to, .. },
                Command::Get { response_channel: named, .. },
            ) => to == named,
            _ => false,
        }
    }
}

impl StoreModel {
    /// The store after one request.
    pub open spec fn after(self, request: Request) -> StoreModel {
        match request {
            Request::Insert(draft) => self.insert(draft),
            Request::Get(_) => self,
        }
    }

    /// No request takes a ticket away or alters one.
    pub proof fn lemma_after_grows(self, request: Request)
        requires
            self.wf(),
        ensures
            self.after(request).wf(),
            self.grows_to(self.after(request)),
    {
    }

    /// The answer to one request.
    pub open spec fn reply(self, request: Request) -> Reply {
        match request {
            Request::Insert(_) => Reply::Issued(self.next_id()),
            Request::Get(id) => Reply::Found(self.get(id)),
        }
    }
}

} // verus!
