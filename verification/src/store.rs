use vstd::prelude::*;
use std::collections::BTreeMap;
use crate::data::{DraftView, Ticket, TicketDraft, TicketView};

verus! {

broadcast use {vstd::std_specs::btree::group_btree_axioms, vstd::laws_cmp::group_laws_cmp};

/// The name a store gives to a ticket. A store hands each one out once, in
/// increasing order, starting from zero.
#[derive(Clone, Copy, Debug, PartialEq, Eq, PartialOrd, Ord, Hash, Structural)]
pub struct TicketId(pub u64);

impl View for TicketId {
    type V = nat;

    open spec fn view(&self) -> nat {
        self.0 as nat
    }
}

/// A store as contracts speak of it: the tickets by identifier, and how many
/// identifiers were handed out so far.
pub struct StoreModel {
    pub tickets: Map<nat, TicketView>,
    pub issued: nat,
}

impl StoreModel {
    /// The store that holds nothing and has handed out no identifier.
    pub open spec fn empty() -> StoreModel {
        StoreModel { tickets: Map::empty(), issued: 0 }
    }

    /// The identifiers in use are exactly those handed out, and each ticket
    /// is filed under its own identifier.
    pub open spec fn wf(self) -> bool {
        &&& forall|id: nat| self.tickets.contains_key(id) <==> id < self.issued
        &&& forall|id: nat| self.tickets.contains_key(id) ==> (#[trigger] self.tickets[id]).id == id
    }

    /// The identifier that the next ticket gets.
    pub open spec fn next_id(self) -> nat {
        self.issued
    }

    /// The store after a ticket was made from `draft`.
    pub open spec fn insert(self, draft: DraftView) -> StoreModel {
        StoreModel {
            tickets: self.tickets.insert(self.issued, draft.ticket(self.issued)),
            issued: self.issued + 1,
        }
    }

    /// The ticket filed under `id`, if there is one.
    pub open spec fn get(self, id: nat) -> Option<TicketView> {
        if self.tickets.contains_key(id) {
            Some(self.tickets[id])
        } else {
            None
        }
    }

    /// `later` holds every ticket of this store, unchanged and under the
    /// same identifier, and has handed out at least as many identifiers.
    pub open spec fn grows_to(self, later: StoreModel) -> bool {
        &&& self.issued <= later.issued
        &&& forall|id: nat| #[trigger]
            self.tickets.contains_key(id) ==> later.tickets.contains_key(id) && later.tickets[id]
                == self.tickets[id]
    }

    /// What has grown twice has grown.
    pub proof fn lemma_grows_transitive(self, middle: StoreModel, later: StoreModel)
        requires
            self.grows_to(middle),
            middle.grows_to(later),
        ensures
            self.grows_to(later),
    {
    }
}

/// The tickets of one store, each under the identifier it was given.
pub struct TicketStore {
    tickets: BTreeMap<u64, Ticket>,
    counter: u64,
}

impl View for TicketStore {
    type V = StoreModel;

    closed spec fn view(&self) -> StoreModel {
        StoreModel {
            tickets: Map::new(
                |id: nat| id <= u64::MAX && self.tickets@.contains_key(id as u64),
                |id: nat| self.tickets@[id as u64]@,
            ),
            issued: self.counter as nat,
        }
    }
}

impl TicketStore {
    /// The store is sound: it holds a ticket under each identifier below
    /// the counter and under no other, each ticket bears the identifier it
    /// is filed under, and the counter is the number of tickets held.
    pub closed spec fn wf(&self) -> bool {
        &&& self.tickets@.len() == self.counter
        &&& forall|key: u64| #[trigger] self.tickets@.contains_key(key) <==> key < self.counter
        &&& forall|key: u64| #[trigger]
            self.tickets@.contains_key(key) ==> self.tickets@[key].id == TicketId(key)
    }

    /// A well-formed store has a well-formed model.
    pub proof fn lemma_wf_model(&self)
        requires
            self.wf(),
        ensures
            self@.wf(),
    {
    }

    /// The store that holds nothing and has handed out no identifier.
    pub fn new() -> (store: Self)
        ensures
            store.wf(),
            store@ == StoreModel::empty(),
    {
        let store = TicketStore { tickets: BTreeMap::new(), counter: 0 };
        assert(store@.tickets =~= Map::<nat, TicketView>::empty());
        store
    }

    /// Makes a ticket from `draft` under the next identifier and returns
    /// that identifier.
    pub fn add_ticket(&mut self, draft: TicketDraft) -> (id: TicketId)
        requires
            old(self).wf(),
        ensures
            final(self).wf(),
            id@ == old(self)@.next_id(),
            final(self)@ == old(self)@.insert(draft@),
    {
        let id = TicketId(self.counter);
        let ticket = Ticket::from_draft(id, draft);
        self.tickets.insert(id.0, ticket);
        proof {
            // The map holds one ticket more, and its length fits a `usize`.
            assert(vstd::std_specs::btree::spec_btree_map_len(&self.tickets) == self.counter + 1);
        }
        self.counter = self.counter + 1;
        proof {
            assert(self@.tickets =~= old(self)@.insert(draft@).tickets);
        }
        id
    }

    /// The ticket filed under `id`, if there is one.
    pub fn get(&self, id: TicketId) -> (found: Option<&Ticket>)
        requires
            self.wf(),
        ensures
            match found {
                Some(ticket) => self@.get(id@) == Some(ticket@),
                None => self@.get(id@) is None,
            },
    {
        self.tickets.get(&id.0)
    }
}

} // verus!
