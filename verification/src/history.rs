use vstd::prelude::*;
use crate::data::DraftView;
use crate::protocol::{Reply, Request};
use crate::store::StoreModel;

verus! {

impl StoreModel {
    /// The store after a sequence of requests, served in order.
    pub open spec fn after_all(self, requests: Seq<Request>) -> StoreModel
        decreases requests.len(),
    {
        if requests.len() == 0 {
            self
        } else {
            self.after_all(requests.drop_last()).after(requests.last())
        }
    }

    /// The store as the request at `index` finds it: after all the requests
    /// before that one.
    pub open spec fn before(self, requests: Seq<Request>, index: int) -> StoreModel {
        self.after_all(requests.take(index))
    }

    /// The answers to a sequence of requests served in order, one answer
    /// for each request.
    pub open spec fn replies(self, requests: Seq<Request>) -> Seq<Reply> {
        Seq::new(requests.len(), |index: int| self.before(requests, index).reply(requests[index]))
    }

    /// Whether serving `count` requests, one after the other, can lead from
    /// this store to `later`.
    pub open spec fn serves_to(self, count: nat, later: StoreModel) -> bool {
        exists|requests: Seq<Request>|
            requests.len() == count && #[trigger] self.after_all(requests) == later
    }

    /// One more request at the end is served on the store that the others
    /// left.
    pub proof fn lemma_after_all_push(self, requests: Seq<Request>, request: Request)
        ensures
            self.after_all(requests.push(request)) == self.after_all(requests).after(request),
    {
        assert(requests.push(request).drop_last() =~= requests);
    }

    /// Each request finds the store as the request before it left it.
    pub proof fn lemma_before_next(self, requests: Seq<Request>, index: int)
        requires
            0 <= index < requests.len(),
        ensures
            self.before(requests, index + 1) == self.before(requests, index).after(
                requests[index],
            ),
            self.before(requests, 0) == self,
            self.before(requests, requests.len() as int) == self.after_all(requests),
    {
        let longer = requests.take(index + 1);
        assert(longer.drop_last() =~= requests.take(index));
        assert(longer.last() == requests[index]);
        assert(requests.take(0) =~= Seq::<Request>::empty());
        assert(requests.take(requests.len() as int) =~= requests);
    }

    /// Serving requests keeps a store well formed, and takes no ticket away
    /// nor alters one: what an earlier request found is there for every
    /// later one.
    pub proof fn lemma_history_grows(self, requests: Seq<Request>, earlier: int, later: int)
        requires
            self.wf(),
            0 <= earlier <= later <= requests.len(),
        ensures
            self.before(requests, earlier).wf(),
            self.before(requests, later).wf(),
            self.before(requests, earlier).grows_to(self.before(requests, later)),
        decreases later,
    {
        if later == 0 {
            assert(requests.take(0) =~= Seq::<Request>::empty());
        } else if earlier == later {
            self.lemma_history_grows(requests, 0, later - 1);
            self.lemma_before_next(requests, later - 1);
            self.before(requests, later - 1).lemma_after_grows(requests[later - 1]);
        } else {
            self.lemma_history_grows(requests, earlier, later - 1);
            self.lemma_before_next(requests, later - 1);
            let middle = self.before(requests, later - 1);
            middle.lemma_after_grows(requests[later - 1]);
            self.before(requests, earlier).lemma_grows_transitive(
                middle,
                self.before(requests, later),
            );
        }
    }

    /// A sequence of requests leaves a well-formed store well formed, with
    /// every ticket it had.
    pub proof fn lemma_after_all_grows(self, requests: Seq<Request>)
        requires
            self.wf(),
        ensures
            self.after_all(requests).wf(),
            self.grows_to(self.after_all(requests)),
    {
        self.lemma_history_grows(requests, 0, requests.len() as int);
        assert(requests.take(0) =~= Seq::<Request>::empty());
        assert(requests.take(requests.len() as int) =~= requests);
    }

    /// The identifiers that inserts return grow strictly in the order in
    /// which the inserts are served, so no two of them are equal.
    pub proof fn lemma_identifiers_increase(self, requests: Seq<Request>, first: int, second: int)
        requires
            self.wf(),
            0 <= first < second < requests.len(),
            requests[first] is Insert,
            requests[second] is Insert,
        ensures
            self.replies(requests)[first] is Issued,
            self.replies(requests)[second] is Issued,
            self.replies(requests)[first]->Issued_0 < self.replies(requests)[second]->Issued_0,
            self.replies(requests)[first] != self.replies(requests)[second],
    {
        self.lemma_before_next(requests, first);
        self.lemma_history_grows(requests, first + 1, second);
    }

    /// A get that follows an insert on the same store, with the identifier
    /// that the insert returned, finds the ticket as it was made: the texts
    /// of the draft, under that identifier, in the first status. Whatever
    /// was served in between does not matter.
    pub proof fn lemma_get_finds_inserted(
        self,
        requests: Seq<Request>,
        insert: int,
        get: int,
        draft: DraftView,
        id: nat,
    )
        requires
            self.wf(),
            0 <= insert < get < requests.len(),
            requests[insert] == Request::Insert(draft),
            self.replies(requests)[insert] == Reply::Issued(id),
            requests[get] == Request::Get(id),
        ensures
            self.replies(requests)[get] == Reply::Found(Some(draft.ticket(id))),
    {
        self.lemma_before_next(requests, insert);
        self.lemma_history_grows(requests, insert + 1, get);
        let made = self.before(requests, insert + 1);
        assert(made.tickets.contains_key(id));
    }

    /// Every identifier that a store has handed out since it was empty was
    /// the answer to one of the inserts served so far.
    pub proof fn lemma_issued_by_insert(requests: Seq<Request>, upto: int, id: nat)
        requires
            0 <= upto <= requests.len(),
            id < StoreModel::empty().before(requests, upto).issued,
        ensures
            exists|insert: int|
                0 <= insert < upto && requests[insert] is Insert && (
                #[trigger] StoreModel::empty().replies(requests)[insert]) == Reply::Issued(id),
        decreases upto,
    {
        let start = StoreModel::empty();
        if upto == 0 {
            assert(requests.take(0) =~= Seq::<Request>::empty());
        } else {
            start.lemma_before_next(requests, upto - 1);
            let found = start.before(requests, upto - 1);
            if id < found.issued {
                Self::lemma_issued_by_insert(requests, upto - 1, id);
                let insert = choose|insert: int|
                    0 <= insert < upto - 1 && requests[insert] is Insert && (
                    #[trigger] start.replies(requests)[insert]) == Reply::Issued(id);
                assert(0 <= insert < upto && requests[insert] is Insert && start.replies(
                    requests,
                )[insert] == Reply::Issued(id));
            } else {
                assert(requests[upto - 1] is Insert);
                assert(start.replies(requests)[upto - 1] == Reply::Issued(id));
            }
        }
    }

    /// A get with an identifier that a store never handed out, since it was
    /// empty, finds nothing: the answer is that there is no such ticket.
    pub proof fn lemma_unissued_is_absent(requests: Seq<Request>, get: int, id: nat)
        requires
            0 <= get < requests.len(),
            requests[get] == Request::Get(id),
            forall|insert: int|
                0 <= insert < get ==> (#[trigger] StoreModel::empty().replies(requests)[insert])
                    != Reply::Issued(id),
        ensures
            StoreModel::empty().replies(requests)[get] == Reply::Found(None),
    {
        let start = StoreModel::empty();
        start.lemma_history_grows(requests, 0, get);
        let found = start.before(requests, get);
        if id < found.issued {
            Self::lemma_issued_by_insert(requests, get, id);
        }
    }
}

} // verus!
