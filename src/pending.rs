use vstd::prelude::*;

use crate::messages::{QueryKind, RequestId};

verus! {

/// A query that was sent and awaits its response.
#[derive(Clone, Copy, Debug, PartialEq, Eq, Structural)]
pub struct PendingRequest {
    pub id: RequestId,
    pub kind: QueryKind,
}

/// The kind of the entry for `id`, if there is one (the latest, should ids repeat).
pub open spec fn kind_of(s: Seq<PendingRequest>, id: RequestId) -> Option<QueryKind>
    decreases s.len(),
{
    if s.len() == 0 {
        None
    } else if s.last().id == id {
        Some(s.last().kind)
    } else {
        kind_of(s.drop_last(), id)
    }
}

/// The entries other than those for `id`, in their order.
pub open spec fn without(s: Seq<PendingRequest>, id: RequestId) -> Seq<PendingRequest>
    decreases s.len(),
{
    if s.len() == 0 {
        s
    } else if s.last().id == id {
        without(s.drop_last(), id)
    } else {
        without(s.drop_last(), id).push(s.last())
    }
}

/// The entries whose identifiers are not in `ids`, in their order.
pub open spec fn without_all(s: Seq<PendingRequest>, ids: Set<RequestId>) -> Seq<PendingRequest>
    decreases s.len(),
{
    if s.len() == 0 {
        s
    } else if ids.contains(s.last().id) {
        without_all(s.drop_last(), ids)
    } else {
        without_all(s.drop_last(), ids).push(s.last())
    }
}

/// The identifiers of the entries, in their order.
pub open spec fn ids_of(s: Seq<PendingRequest>) -> Seq<RequestId> {
    s.map_values(|p: PendingRequest| p.id)
}

/// The table after a response for `id` of kind `k` arrives: the matching entry
/// leaves, and a response that matches none leaves the table as it was.
pub open spec fn after_response(s: Seq<PendingRequest>, id: RequestId, k: QueryKind) -> Seq<PendingRequest> {
    if kind_of(s, id) == Some(k) {
        without(s, id)
    } else {
        s
    }
}

/// Adding an entry makes it the one found for its identifier.
pub broadcast proof fn lemma_kind_of_push(s: Seq<PendingRequest>, p: PendingRequest, id: RequestId)
    ensures
        #[trigger] kind_of(s.push(p), id) == (if p.id == id { Some(p.kind) } else { kind_of(s, id) }),
{
    assert(s.push(p).drop_last() =~= s);
}

/// Removing by identifier passes over a newer entry with another identifier.
pub broadcast proof fn lemma_without_push(s: Seq<PendingRequest>, p: PendingRequest, id: RequestId)
    ensures
        #[trigger] without(s.push(p), id) == (if p.id == id { without(s, id) } else { without(s, id).push(p) }),
{
    assert(s.push(p).drop_last() =~= s);
}

pub broadcast group group_pending_push {
    lemma_kind_of_push,
    lemma_without_push,
}

/// Removing an identifier that is not there changes nothing.
pub proof fn lemma_without_absent(s: Seq<PendingRequest>, id: RequestId)
    requires
        kind_of(s, id).is_none(),
    ensures
        without(s, id) == s,
    decreases s.len(),
{
    if s.len() > 0 {
        lemma_without_absent(s.drop_last(), id);
        assert(s.drop_last().push(s.last()) =~= s);
    }
}

pub proof fn lemma_kind_of_contains(s: Seq<PendingRequest>, id: RequestId)
    ensures
        kind_of(s, id).is_some() <==> ids_of(s).contains(id),
    decreases s.len(),
{
    if s.len() > 0 {
        lemma_kind_of_contains(s.drop_last(), id);
        assert(ids_of(s.drop_last()) =~= ids_of(s).drop_last());
        if s.last().id == id {
            assert(ids_of(s)[s.len() - 1] == id);
        } else if ids_of(s).contains(id) {
            let j = choose|j: int| 0 <= j < ids_of(s).len() && ids_of(s)[j] == id;
            assert(ids_of(s.drop_last())[j] == id);
        }
    }
}

pub proof fn lemma_kind_of_without(s: Seq<PendingRequest>, x: RequestId, y: RequestId)
    ensures
        kind_of(without(s, x), y) == (if y == x { None } else { kind_of(s, y) }),
    decreases s.len(),
{
    if s.len() > 0 {
        lemma_kind_of_without(s.drop_last(), x, y);
        if s.last().id != x {
            assert(without(s, x).drop_last() =~= without(s.drop_last(), x));
        }
    }
}

pub proof fn lemma_without_ids(s: Seq<PendingRequest>, x: RequestId)
    requires
        ids_of(s).no_duplicates(),
    ensures
        ids_of(without(s, x)).no_duplicates(),
        forall|y: RequestId| ids_of(without(s, x)).contains(y) ==> ids_of(s).contains(y),
    decreases s.len(),
{
    if s.len() > 0 {
        let d = s.drop_last();
        assert(ids_of(d) =~= ids_of(s).drop_last());
        lemma_without_ids(d, x);
        lemma_kind_of_contains(d, s.last().id);
        lemma_kind_of_contains(without(d, x), s.last().id);
        lemma_kind_of_without(d, x, s.last().id);
        assert forall|y: RequestId| ids_of(d).contains(y) implies ids_of(s).contains(y) by {
            let j = choose|j: int| 0 <= j < ids_of(d).len() && ids_of(d)[j] == y;
            assert(ids_of(s)[j] == y);
        }
        if s.last().id != x {
            let w = without(d, x);
            assert(ids_of(w.push(s.last())) =~= ids_of(w).push(s.last().id));
            assert(ids_of(s)[s.len() - 1] == s.last().id);
            assert forall|i: int| 0 <= i < ids_of(d).len() implies ids_of(d)[i] != s.last().id by {
                assert(ids_of(s)[i] == ids_of(d)[i]);
            }
        }
    }
}

pub proof fn lemma_push_ids(s: Seq<PendingRequest>, p: PendingRequest)
    requires
        ids_of(s).no_duplicates(),
        kind_of(s, p.id).is_none(),
    ensures
        ids_of(s.push(p)).no_duplicates(),
{
    lemma_kind_of_contains(s, p.id);
    assert(ids_of(s.push(p)) =~= ids_of(s).push(p.id));
}

/// The kind of the pending entry for `id`.
pub fn find_kind(v: &Vec<PendingRequest>, id: RequestId) -> (r: Option<QueryKind>)
    ensures
        r == kind_of(v@, id),
{
    let mut r: Option<QueryKind> = None;
    let mut i: usize = 0;
    while i < v.len()
        invariant
            i <= v@.len(),
            r == kind_of(v@.subrange(0, i as int), id),
        decreases v@.len() - i,
    {
        assert(v@.subrange(0, i as int + 1).drop_last() =~= v@.subrange(0, i as int));
        if v[i].id == id {
            r = Some(v[i].kind);
        }
        i = i + 1;
    }
    assert(v@.subrange(0, v@.len() as int) =~= v@);
    r
}

/// The entries other than those for `id`, in their order.
pub fn remove_id(v: &Vec<PendingRequest>, id: RequestId) -> (r: Vec<PendingRequest>)
    ensures
        r@ == without(v@, id),
{
    let mut r: Vec<PendingRequest> = Vec::new();
    let mut i: usize = 0;
    while i < v.len()
        invariant
            i <= v@.len(),
            r@ == without(v@.subrange(0, i as int), id),
        decreases v@.len() - i,
    {
        assert(v@.subrange(0, i as int + 1).drop_last() =~= v@.subrange(0, i as int));
        if v[i].id != id {
            r.push(v[i]);
        }
        i = i + 1;
    }
    assert(v@.subrange(0, v@.len() as int) =~= v@);
    r
}

} // verus!
