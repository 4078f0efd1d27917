use vstd::prelude::*;

use crate::controller::{
    notification_dispatch, response_dispatch, ConnectionState, Controller, Dispatch, Listeners,
    NotificationKind,
};
use crate::messages::{Query, Reply, RequestId, ToControllerMessage, ToVersoMessage};
use crate::pending::{
    after_response, group_pending_push, kind_of, lemma_kind_of_without, lemma_without_absent, without,
    without_all,
    PendingRequest,
};

verus! {

proof fn lemma_without_commute(s: Seq<PendingRequest>, x: RequestId, y: RequestId)
    ensures
        without(without(s, x), y) == without(without(s, y), x),
    decreases s.len(),
{
    if s.len() > 0 {
        let d = s.drop_last();
        let p = s.last();
        lemma_without_commute(d, x, y);
        if p.id != x {
            assert(without(d, x).push(p).drop_last() =~= without(d, x));
        }
        if p.id != y {
            assert(without(d, y).push(p).drop_last() =~= without(d, y));
        }
        if p.id != x && p.id != y {
            assert(without(without(d, x), y).push(p).drop_last() =~= without(without(d, x), y));
            assert(without(without(d, y), x).push(p).drop_last() =~= without(without(d, y), x));
        }
    }
}

/// A response settles only the query with its own identifier: every other
/// query's standing, and what a later response to it resolves, is unchanged;
/// and two responses for different queries leave the same table, whichever
/// arrives first.
pub proof fn lemma_correlation(s: Seq<PendingRequest>, a: RequestId, va: Reply, b: RequestId, vb: Reply)
    requires
        a != b,
    ensures
        kind_of(after_response(s, a, va.reply_kind()), b) == kind_of(s, b),
        response_dispatch(after_response(s, a, va.reply_kind()), b, vb) == response_dispatch(s, b, vb),
        after_response(after_response(s, a, va.reply_kind()), b, vb.reply_kind()) == after_response(
            after_response(s, b, vb.reply_kind()),
            a,
            va.reply_kind(),
        ),
{
    lemma_kind_of_without(s, a, b);
    lemma_kind_of_without(s, b, a);
    lemma_without_commute(s, a, b);
}

/// Two queries sent one after the other, with fresh distinct identifiers, are
/// each resolved with their own value when the responses come in reverse order,
/// and the table is then as it was before either was sent.
pub proof fn lemma_reversed_responses(
    s: Seq<PendingRequest>,
    a: RequestId,
    qa: Query,
    va: Reply,
    b: RequestId,
    qb: Query,
    vb: Reply,
)
    requires
        a != b,
        kind_of(s, a).is_none(),
        kind_of(s, b).is_none(),
        va.reply_kind() == qa.query_kind(),
        vb.reply_kind() == qb.query_kind(),
    ensures
        ({
            let t = s.push(PendingRequest { id: a, kind: qa.query_kind() }).push(
                PendingRequest { id: b, kind: qb.query_kind() },
            );
            let u = after_response(t, b, vb.reply_kind());
            &&& response_dispatch(t, b, vb) == Dispatch::Resolved(b, vb)
            &&& response_dispatch(u, a, va) == Dispatch::Resolved(a, va)
            &&& after_response(u, a, va.reply_kind()) == s
        }),
{
    broadcast use group_pending_push;

    let pa = PendingRequest { id: a, kind: qa.query_kind() };
    lemma_without_absent(s, a);
    lemma_without_absent(s, b);
    assert(without(s.push(pa), b) == s.push(pa));
}

/// The table after the responses `rs` arrive, first to last.
pub open spec fn after_responses(s: Seq<PendingRequest>, rs: Seq<(RequestId, Reply)>) -> Seq<PendingRequest>
    decreases rs.len(),
{
    if rs.len() == 0 {
        s
    } else {
        after_response(after_responses(s, rs.drop_last()), rs.last().0, rs.last().1.reply_kind())
    }
}

/// The identifiers that the responses `rs` carry.
pub open spec fn response_ids(rs: Seq<(RequestId, Reply)>) -> Set<RequestId>
    decreases rs.len(),
{
    if rs.len() == 0 {
        Set::empty()
    } else {
        response_ids(rs.drop_last()).insert(rs.last().0)
    }
}

proof fn lemma_without_all_empty(s: Seq<PendingRequest>)
    ensures
        without_all(s, Set::empty()) == s,
    decreases s.len(),
{
    if s.len() > 0 {
        lemma_without_all_empty(s.drop_last());
        assert(s.drop_last().push(s.last()) =~= s);
    }
}

proof fn lemma_kind_of_without_all(s: Seq<PendingRequest>, ids: Set<RequestId>, y: RequestId)
    ensures
        kind_of(without_all(s, ids), y) == (if ids.contains(y) { None } else { kind_of(s, y) }),
    decreases s.len(),
{
    broadcast use group_pending_push;

    if s.len() > 0 {
        lemma_kind_of_without_all(s.drop_last(), ids, y);
    }
}

proof fn lemma_without_without_all(s: Seq<PendingRequest>, ids: Set<RequestId>, x: RequestId)
    ensures
        without(without_all(s, ids), x) == without_all(s, ids.insert(x)),
    decreases s.len(),
{
    broadcast use group_pending_push;

    if s.len() > 0 {
        lemma_without_without_all(s.drop_last(), ids, x);
    }
}

proof fn lemma_response_ids_contains(rs: Seq<(RequestId, Reply)>, y: RequestId)
    ensures
        response_ids(rs).contains(y) <==> exists|i: int| 0 <= i < rs.len() && rs[i].0 == y,
    decreases rs.len(),
{
    if rs.len() > 0 {
        let d = rs.drop_last();
        lemma_response_ids_contains(d, y);
        if response_ids(d).contains(y) {
            let i = choose|i: int| 0 <= i < d.len() && d[i].0 == y;
            assert(rs[i].0 == y);
        }
        if exists|i: int| 0 <= i < rs.len() && rs[i].0 == y {
            let i = choose|i: int| 0 <= i < rs.len() && rs[i].0 == y;
            if i < d.len() {
                assert(d[i].0 == y);
            }
        }
    }
}

/// Responses with distinct identifiers, each answering an outstanding query of
/// its kind, arriving one by one in any order: each resolves its own query with
/// its own value, and afterwards exactly those queries have left the table,
/// which depends on which identifiers arrived and not on their order.
pub proof fn lemma_responses_any_order(s: Seq<PendingRequest>, rs: Seq<(RequestId, Reply)>)
    requires
        forall|i: int, j: int| 0 <= i < j < rs.len() ==> rs[i].0 != rs[j].0,
        forall|i: int| 0 <= i < rs.len() ==> kind_of(s, rs[i].0) == Some(rs[i].1.reply_kind()),
    ensures
        after_responses(s, rs) == without_all(s, response_ids(rs)),
        forall|k: int|
            0 <= k < rs.len() ==> response_dispatch(after_responses(s, rs.take(k)), rs[k].0, rs[k].1)
                == Dispatch::Resolved(rs[k].0, rs[k].1),
    decreases rs.len(),
{
    if rs.len() == 0 {
        lemma_without_all_empty(s);
    } else {
        let d = rs.drop_last();
        let n = d.len() as int;
        let (id, v) = rs.last();
        assert forall|i: int| 0 <= i < d.len() implies kind_of(s, d[i].0) == Some(d[i].1.reply_kind()) by {
            assert(d[i] == rs[i]);
        }
        lemma_responses_any_order(s, d);
        lemma_response_ids_contains(d, id);
        assert(!response_ids(d).contains(id)) by {
            if response_ids(d).contains(id) {
                let i = choose|i: int| 0 <= i < d.len() && d[i].0 == id;
                assert(rs[i].0 == rs[n].0);
            }
        }
        lemma_kind_of_without_all(s, response_ids(d), id);
        assert(kind_of(s, rs[n].0) == Some(rs[n].1.reply_kind()));
        lemma_without_without_all(s, response_ids(d), id);
        assert forall|k: int| 0 <= k < rs.len() implies response_dispatch(
            after_responses(s, rs.take(k)),
            rs[k].0,
            rs[k].1,
        ) == Dispatch::Resolved(rs[k].0, rs[k].1) by {
            if k < n {
                assert(rs.take(k) =~= d.take(k));
                assert(rs[k] == d[k]);
            } else {
                assert(rs.take(k) =~= d);
            }
        }
    }
}

/// Two arrival orders of the same responses leave the same table.
pub proof fn lemma_arrival_order_irrelevant(
    s: Seq<PendingRequest>,
    rs1: Seq<(RequestId, Reply)>,
    rs2: Seq<(RequestId, Reply)>,
)
    requires
        forall|i: int, j: int| 0 <= i < j < rs1.len() ==> rs1[i].0 != rs1[j].0,
        forall|i: int| 0 <= i < rs1.len() ==> kind_of(s, rs1[i].0) == Some(rs1[i].1.reply_kind()),
        forall|i: int, j: int| 0 <= i < j < rs2.len() ==> rs2[i].0 != rs2[j].0,
        forall|i: int| 0 <= i < rs2.len() ==> kind_of(s, rs2[i].0) == Some(rs2[i].1.reply_kind()),
        rs1.to_multiset() == rs2.to_multiset(),
    ensures
        after_responses(s, rs1) == after_responses(s, rs2),
{
    lemma_responses_any_order(s, rs1);
    lemma_responses_any_order(s, rs2);
    assert forall|y: RequestId| response_ids(rs1).contains(y) <==> response_ids(rs2).contains(y) by {
        lemma_response_ids_contains(rs1, y);
        lemma_response_ids_contains(rs2, y);
        if exists|i: int| 0 <= i < rs1.len() && rs1[i].0 == y {
            let i = choose|i: int| 0 <= i < rs1.len() && rs1[i].0 == y;
            rs1.to_multiset_ensures();
            rs2.to_multiset_ensures();
            assert(rs1.to_multiset().count(rs1[i]) > 0);
            assert(rs2.contains(rs1[i]));
        }
        if exists|i: int| 0 <= i < rs2.len() && rs2[i].0 == y {
            let i = choose|i: int| 0 <= i < rs2.len() && rs2[i].0 == y;
            rs1.to_multiset_ensures();
            rs2.to_multiset_ensures();
            assert(rs2.to_multiset().count(rs2[i]) > 0);
            assert(rs1.contains(rs2[i]));
        }
    }
    assert(response_ids(rs1) =~= response_ids(rs2));
}

/// A response whose query is outstanding with the matching kind resolves it,
/// with the value it carries, and removes it.
pub proof fn lemma_response_resolves(s: Seq<PendingRequest>, id: RequestId, v: Reply)
    requires
        kind_of(s, id) == Some(v.reply_kind()),
    ensures
        response_dispatch(s, id, v) == Dispatch::Resolved(id, v),
        kind_of(after_response(s, id, v.reply_kind()), id).is_none(),
{
    lemma_kind_of_without(s, id, id);
}

/// A response whose identifier is not outstanding is dropped and leaves the table as it was.
pub proof fn lemma_stale_response(s: Seq<PendingRequest>, id: RequestId, v: Reply)
    requires
        kind_of(s, id).is_none(),
    ensures
        response_dispatch(s, id, v) == Dispatch::Ignored,
        after_response(s, id, v.reply_kind()) == s,
{
}

/// The notification kind a message belongs to, if it is one with a callback.
pub open spec fn notification_kind(msg: ToControllerMessage) -> Option<NotificationKind> {
    match msg {
        ToControllerMessage::OnNavigationStarting(_, _) => Some(NotificationKind::NavigationStarting),
        ToControllerMessage::OnWebResourceRequested(_) => Some(NotificationKind::WebResourceRequested),
        ToControllerMessage::OnCloseRequested => Some(NotificationKind::CloseRequested),
        _ => None,
    }
}

/// The callback a dispatch asks the host to run, if any.
pub open spec fn asked_callback(d: Dispatch) -> Option<u64> {
    match d {
        Dispatch::AskNavigation { callback, .. } => Some(callback),
        Dispatch::AskWebResource { callback, .. } => Some(callback),
        Dispatch::AskClose { callback } => Some(callback),
        _ => None,
    }
}

/// Registering twice for one kind keeps only the second callback, leaves the
/// other kinds alone, and a later notification of that kind runs the second.
pub proof fn lemma_latest_callback(l: Listeners, kind: NotificationKind, t1: u64, t2: u64, msg: ToControllerMessage)
    ensures
        l.with_slot(kind, t1).with_slot(kind, t2) == l.with_slot(kind, t2),
        l.with_slot(kind, t2).slot(kind) == Some(t2),
        forall|k: NotificationKind| k != kind ==> l.with_slot(kind, t2).slot(k) == l.slot(k),
        notification_kind(msg) == Some(kind) ==> asked_callback(
            notification_dispatch(l.with_slot(kind, t1).with_slot(kind, t2), msg),
        ) == Some(t2),
{
}

/// Before the handshake no command can be produced, and no notification but the
/// handshake one ever leads to sending the configuration.
pub proof fn lemma_handshake_ordering(c: Controller, m: ToVersoMessage, l: Listeners, msg: ToControllerMessage, s: Seq<PendingRequest>, id: RequestId, v: Reply)
    ensures
        (c.spec_state() == ConnectionState::Uninitialized || c.spec_state() == ConnectionState::Spawning
            || c.spec_state() == ConnectionState::AwaitingHandshake) ==> c.command_result(m) is Err,
        !(notification_dispatch(l, msg) matches Dispatch::Send(ToVersoMessage::SetConfig(_))),
        !(response_dispatch(s, id, v) matches Dispatch::Send(_)),
{
}

} // verus!
