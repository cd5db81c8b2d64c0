use vstd::prelude::*;
use crate::status::Status;
use crate::store::TicketId;

verus! {

/// What a caller hands in to have a ticket made. Nothing in it is checked.
#[derive(Debug, PartialEq, Eq)]
pub struct TicketDraft {
    pub title: String,
    pub description: String,
}

/// A ticket of the store.
#[derive(Debug, PartialEq, Eq)]
pub struct Ticket {
    pub id: TicketId,
    pub title: String,
    pub description: String,
    pub status: Status,
}

/// A draft as contracts speak of it: its two texts.
pub struct DraftView {
    pub title: Seq<char>,
    pub description: Seq<char>,
}

/// A ticket as contracts speak of it: its identifier as a natural number,
/// its two texts and its status.
pub struct TicketView {
    pub id: nat,
    pub title: Seq<char>,
    pub description: Seq<char>,
    pub status: Status,
}

impl DraftView {
    /// The ticket that this draft becomes under the identifier `id`: the
    /// draft's texts, with the status every new ticket starts in.
    pub open spec fn ticket(self, id: nat) -> TicketView {
        TicketView { id, title: self.title, description: self.description, status: Status::ToDo }
    }
}

impl View for TicketDraft {
    type V = DraftView;

    open spec fn view(&self) -> DraftView {
        DraftView { title: self.title@, description: self.description@ }
    }
}

impl View for Ticket {
    type V = TicketView;

    open spec fn view(&self) -> TicketView {
        TicketView {
            id: self.id@,
            title: self.title@,
            description: self.description@,
            status: self.status,
        }
    }
}

impl Clone for TicketDraft {
    fn clone(&self) -> (copy: Self)
        ensures
            copy == *self,
    {
        TicketDraft { title: self.title.clone(), description: self.description.clone() }
    }
}

impl Clone for Ticket {
    fn clone(&self) -> (copy: Self)
        ensures
            copy == *self,
    {
        Ticket {
            id: self.id,
            title: self.title.clone(),
            description: self.description.clone(),
            status: self.status,
        }
    }
}

impl Ticket {
    /// The ticket that a draft becomes under the identifier `id`.
    pub fn from_draft(id: TicketId, draft: TicketDraft) -> (ticket: Ticket)
        ensures
            ticket@ == draft@.ticket(id@),
            ticket.id == id,
    {
        Ticket { id, title: draft.title, description: draft.description, status: Status::ToDo }
    }
}

} // verus!
