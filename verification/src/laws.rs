//! What follows from the model of the worker: the properties that callers may
//! rely on, whatever requests the worker has served.

use vstd::prelude::*;
use crate::data::{filed, DraftView, TicketId, TicketView};
use crate::model::{Reply, Request, StoreModel};

verus! {

/// `shorter` is the beginning of `longer`.
pub open spec fn begins(longer: Seq<TicketView>, shorter: Seq<TicketView>) -> bool {
    &&& shorter.len() <= longer.len()
    &&& forall|i: int| 0 <= i < shorter.len() ==> longer[i] == shorter[i]
}

/// Serving a request keeps a well-formed store well formed, and keeps every
/// ticket that it held where it was.
pub proof fn serve_keeps_tickets(store: StoreModel, request: Request)
    requires
        store.well_formed(),
    ensures
        store.serve(request).0.well_formed(),
        begins(store.serve(request).0.tickets, store.tickets),
{
}

/// Serving the first `m` of `requests` leaves a well-formed store.
pub proof fn run_is_well_formed(store: StoreModel, requests: Seq<Request>, m: int)
    requires
        store.well_formed(),
        0 <= m <= requests.len(),
    ensures
        store.run(requests.take(m)).well_formed(),
    decreases m,
{
    if m > 0 {
        run_is_well_formed(store, requests, m - 1);
        unfold_run(store, requests, m);
        serve_keeps_tickets(store.run(requests.take(m - 1)), requests[m - 1]);
    }
}

/// Serving the first `m` requests is serving the first `m - 1` and then the
/// one that follows them.
pub proof fn unfold_run(store: StoreModel, requests: Seq<Request>, m: int)
    requires
        0 < m <= requests.len(),
    ensures
        store.run(requests.take(m)) == store.run(requests.take(m - 1)).serve(requests[m - 1]).0,
{
    assert(requests.take(m).drop_last() =~= requests.take(m - 1));
    assert(requests.take(m).last() == requests[m - 1]);
}

/// Turn by turn: after the requests that were served so far, serving
/// `request` leads to the store that `run` gives for the longer sequence,
/// and the reply is the one that `reply_at` gives for its last place.
pub proof fn run_one_more(store: StoreModel, requests: Seq<Request>, request: Request)
    ensures
        store.run(requests.push(request)) == store.run(requests).serve(request).0,
        store.reply_at(requests.push(request), requests.len() as int) == store.run(requests).serve(
            request,
        ).1,
{
    let longer = requests.push(request);
    assert(longer.drop_last() =~= requests);
    assert(longer.take(requests.len() as int) =~= requests);
}

/// The worker never loses or changes a ticket: what the store holds after
/// the first `a` requests is the beginning of what it holds after the first
/// `b`, for `a <= b`.
pub proof fn run_keeps_tickets(store: StoreModel, requests: Seq<Request>, a: int, b: int)
    requires
        store.well_formed(),
        0 <= a <= b <= requests.len(),
    ensures
        begins(store.run(requests.take(b)).tickets, store.run(requests.take(a)).tickets),
    decreases b - a,
{
    if a < b {
        run_keeps_tickets(store, requests, a, b - 1);
        run_is_well_formed(store, requests, b - 1);
        unfold_run(store, requests, b);
        serve_keeps_tickets(store.run(requests.take(b - 1)), requests[b - 1]);
    }
}

/// The worker leaves no request unanswered but an `Insert` that finds the
/// identifiers used up.
pub proof fn unanswered_only_when_full(store: StoreModel, request: Request)
    ensures
        store.serve(request).1 is Nothing <==> request is Insert && store.is_full(),
{
}

/// A lookup of the identifier that an insert returned finds the ticket made
/// from the inserted draft.
///
/// `store` is any store that the worker can hold. If serving `Insert(draft)`
/// answers with the identifier `id`, then serving `Get(id)` next answers with
/// the ticket that holds the draft's title and description under `id`.
pub proof fn insert_then_lookup(store: StoreModel, draft: DraftView, id: TicketId)
    requires
        store.well_formed(),
        store.serve(Request::Insert(draft)).1 == Reply::Id(id),
    ensures
        store.serve(Request::Insert(draft)).0.serve(Request::Get(id)).1 == Reply::Ticket(
            Some(filed(draft, id)),
        ),
{
}

/// The identifiers that the store holds are those that inserts have
/// returned, and no others.
///
/// The worker starts from the empty store and serves `requests`. Then the
/// store holds a ticket under `id` exactly if `id` was the reply to one of
/// the requests.
pub proof fn issued_exactly_the_returned(requests: Seq<Request>, id: TicketId)
    ensures
        StoreModel::empty().run(requests).issued(id) <==> exists|i: int|
            0 <= i < requests.len() && #[trigger] StoreModel::empty().reply_at(requests, i)
                == Reply::Id(id),
{
    let start = StoreModel::empty();
    let n = requests.len() as int;
    assert(requests.take(n) =~= requests);
    if start.run(requests).issued(id) {
        issued_was_returned(requests, n, id);
    }
    if exists|i: int| 0 <= i < n && #[trigger] start.reply_at(requests, i) == Reply::Id(id) {
        let i = choose|i: int|
            0 <= i < n && #[trigger] start.reply_at(requests, i) == Reply::Id(id);
        run_is_well_formed(start, requests, i);
        unfold_run(start, requests, i + 1);
        run_keeps_tickets(start, requests, i + 1, n);
    }
}

/// A lookup of an identifier that no insert has returned finds nothing.
///
/// The worker starts from the empty store and serves `requests`. If none of
/// its replies was the identifier `id`, then a `Get(id)` served next is
/// answered with `None`. With no requests at all this is the fresh store, in
/// which every lookup finds nothing.
pub proof fn lookup_of_unissued_is_absent(requests: Seq<Request>, id: TicketId)
    requires
        forall|i: int|
            0 <= i < requests.len() ==> #[trigger] StoreModel::empty().reply_at(requests, i)
                != Reply::Id(id),
    ensures
        StoreModel::empty().run(requests).serve(Request::Get(id)).1 == Reply::Ticket(None),
{
    issued_exactly_the_returned(requests, id);
}

/// Every identifier that the store holds after the first `m` requests was
/// the reply to one of them, when the worker started from the empty store.
proof fn issued_was_returned(requests: Seq<Request>, m: int, id: TicketId)
    requires
        0 <= m <= requests.len(),
        StoreModel::empty().run(requests.take(m)).issued(id),
    ensures
        exists|i: int|
            0 <= i < m && #[trigger] StoreModel::empty().reply_at(requests, i) == Reply::Id(id),
    decreases m,
{
    let start = StoreModel::empty();
    if m == 0 {
        assert(requests.take(0) =~= Seq::empty());
    } else {
        let before = start.run(requests.take(m - 1));
        unfold_run(start, requests, m);
        run_is_well_formed(start, requests, m - 1);
        if before.issued(id) {
            issued_was_returned(requests, m - 1, id);
        } else {
            assert(start.reply_at(requests, m - 1) == Reply::Id(id));
        }
    }
}

/// Two inserts never return the same identifier.
///
/// The worker serves `requests` from any store that it can hold. If the
/// replies to two different requests are identifiers, the later one is the
/// larger, so the two differ.
pub proof fn identifiers_are_distinct(
    store: StoreModel,
    requests: Seq<Request>,
    i: int,
    j: int,
    first: TicketId,
    second: TicketId,
)
    requires
        store.well_formed(),
        0 <= i < j < requests.len(),
        store.reply_at(requests, i) == Reply::Id(first),
        store.reply_at(requests, j) == Reply::Id(second),
    ensures
        first.0 < second.0,
        first != second,
{
    run_is_well_formed(store, requests, i);
    run_is_well_formed(store, requests, j);
    unfold_run(store, requests, i + 1);
    run_keeps_tickets(store, requests, i + 1, j);
}

/// A ticket whose insert was served earlier is seen by every later lookup,
/// whatever was served in between.
///
/// The worker serves `requests` in the order in which they were enqueued,
/// from any store that it can hold. If `requests[i]` is `Insert(draft)` and
/// was answered with `id`, then every later `Get(id)` is answered with the
/// ticket made from `draft`: inserts that were enqueued after it, and any
/// other request, leave it where it is.
pub proof fn earlier_insert_is_visible(
    store: StoreModel,
    requests: Seq<Request>,
    i: int,
    k: int,
    draft: DraftView,
    id: TicketId,
)
    requires
        store.well_formed(),
        0 <= i < k < requests.len(),
        requests[i] == Request::Insert(draft),
        store.reply_at(requests, i) == Reply::Id(id),
        requests[k] == Request::Get(id),
    ensures
        store.reply_at(requests, k) == Reply::Ticket(Some(filed(draft, id))),
{
    run_is_well_formed(store, requests, i);
    unfold_run(store, requests, i + 1);
    run_keeps_tickets(store, requests, i + 1, k);
    let filed_at = store.run(requests.take(i)).tickets.len() as int;
    assert(store.run(requests.take(i + 1)).tickets[filed_at] == filed(draft, id));
}

} // verus!
