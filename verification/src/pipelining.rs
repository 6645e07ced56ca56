//! Pipelining: arguments that name the result of an earlier call, and the
//! per-connection table of results and of the calls waiting for them.

use crate::rpc::{CallID, InternalServerError, RpcResponse};
use multimap::MultiMap;
use std::collections::HashMap;
use vstd::prelude::*;

verus! {

/// An argument given either directly or as the result of an earlier call.
#[derive(Debug)]
pub enum MaybePipelinedValue<T> {
    Direct(T),
    Pipelined(CallID),
}

impl<T> From<T> for MaybePipelinedValue<T> {
    fn from(value: T) -> MaybePipelinedValue<T> {
        MaybePipelinedValue::Direct(value)
    }
}

impl<T> vstd::std_specs::convert::FromSpecImpl<T> for MaybePipelinedValue<T> {
    open spec fn obeys_from_spec() -> bool {
        true
    }

    open spec fn from_spec(v: T) -> MaybePipelinedValue<T> {
        MaybePipelinedValue::Direct(v)
    }
}

impl<T> MaybePipelinedValue<T> {
    /// The call whose result this argument waits for; `None` for a direct value.
    pub fn awaited_call(&self) -> (c: Option<CallID>)
        ensures
            c == (match self {
                MaybePipelinedValue::Direct(_) => None,
                MaybePipelinedValue::Pipelined(id) => Some(*id),
            }),
    {
        match self {
            MaybePipelinedValue::Direct(_) => None,
            MaybePipelinedValue::Pipelined(id) => Some(*id),
        }
    }
}

/// The encoded result that a pipelined argument resolves to, from what its
/// wait produced: nothing (the wait was abandoned) or the awaited call's
/// response. An abandoned wait and an internal error both give `Err`.
pub fn pipelined_payload(received: Option<RpcResponse>) -> (r: Result<Vec<u8>, ()>)
    ensures
        match received {
            Some(Ok(bytes)) => r matches Ok(b) && b@ == bytes@,
            _ => r is Err,
        },
{
    match received {
        Some(Ok(bytes)) => Ok(bytes),
        _ => Err(()),
    }
}

#[verifier::external_type_specification]
#[verifier::external_body]
#[verifier::reject_recursive_types(K)]
#[verifier::reject_recursive_types(V)]
#[verifier::reject_recursive_types(S)]
pub struct ExMultiMap<K, V, S>(MultiMap<K, V, S>);

/// The waiting lists of a `MultiMap` of waiters: for each call id, the waiters
/// in the order in which they were added.
pub uninterp spec fn waiting_lists(m: MultiMap<u32, u64>) -> Map<u32, Seq<u64>>;

/// `MultiMap::new`: a map with no keys.
#[verifier::external_body]
fn multimap_new() -> (fresh: MultiMap<u32, u64>)
    ensures
        waiting_lists(fresh).is_empty(),
{
    MultiMap::new()
}

/// `MultiMap::insert`: appends `v` to the list of `k`, creating it if needed.
#[verifier::external_body]
fn multimap_insert(m: &mut MultiMap<u32, u64>, k: u32, v: u64)
    ensures
        waiting_lists(*final(m)) == waiting_lists(*old(m)).insert(
            k,
            if waiting_lists(*old(m)).contains_key(k) {
                waiting_lists(*old(m))[k].push(v)
            } else {
                seq![v]
            },
        ),
{
    m.insert(k, v)
}

/// `MultiMap::remove`: removes the key and returns its whole list.
#[verifier::external_body]
fn multimap_remove(m: &mut MultiMap<u32, u64>, k: u32) -> (r: Option<Vec<u64>>)
    ensures
        waiting_lists(*final(m)) == waiting_lists(*old(m)).remove(k),
        r is Some <==> waiting_lists(*old(m)).contains_key(k),
        r matches Some(list) ==> list@ == waiting_lists(*old(m))[k],
{
    m.remove(&k)
}

/// A response as the pipelining table holds it.
pub open spec fn response_view(r: RpcResponse) -> Result<Seq<u8>, InternalServerError> {
    match r {
        Ok(bytes) => Ok(bytes@),
        Err(e) => Err(e),
    }
}

/// A copy of a response.
pub fn clone_response(r: &RpcResponse) -> (c: RpcResponse)
    ensures
        response_view(c) == response_view(*r),
{
    match r {
        Ok(bytes) => Ok(bytes.clone()),
        Err(e) => Err(*e),
    }
}

/// The pipelining table of a connection, abstractly: the results known so far,
/// for each call whose result is not known the waiters queued for it, and the
/// number that the next queued waiter gets.
pub struct PipeliningView {
    pub available: Map<u32, Result<Seq<u8>, InternalServerError>>,
    pub waiting: Map<u32, Seq<u64>>,
    pub next_waiter: u64,
}

/// Every queued waiter has a number below `next_waiter`, and no number is
/// queued twice (under one call or under two).
pub open spec fn waiters_fresh(v: PipeliningView) -> bool {
    &&& forall|c: u32, i: int|
        #![trigger v.waiting[c][i]]
        v.waiting.contains_key(c) && 0 <= i < v.waiting[c].len() ==> v.waiting[c][i] < v.next_waiter
    &&& forall|c1: u32, i: int, c2: u32, j: int|
        #![trigger v.waiting[c1][i], v.waiting[c2][j]]
        v.waiting.contains_key(c1) && v.waiting.contains_key(c2) && 0 <= i < v.waiting[c1].len() && 0
            <= j < v.waiting[c2].len() && (c1 != c2 || i != j) ==> v.waiting[c1][i] != v.waiting[c2][j]
}

/// Whether some call's queue holds `waiter`.
pub open spec fn is_queued(v: PipeliningView, waiter: u64) -> bool {
    exists|c: u32, i: int|
        #![trigger v.waiting[c][i]]
        v.waiting.contains_key(c) && 0 <= i < v.waiting[c].len() && v.waiting[c][i] == waiter
}

/// Recording the result of a call: it becomes available, and the waiters
/// queued for it (returned in queue order) are no longer waiting.
pub open spec fn add_result_spec(
    s: PipeliningView,
    call_id: u32,
    value: Result<Seq<u8>, InternalServerError>,
) -> (PipeliningView, Seq<u64>) {
    (
        PipeliningView {
            available: s.available.insert(call_id, value),
            waiting: s.waiting.remove(call_id),
            next_waiter: s.next_waiter,
        },
        if s.waiting.contains_key(call_id) {
            s.waiting[call_id]
        } else {
            Seq::empty()
        },
    )
}

/// Asking for the result of a call: a known result is answered at once and
/// nothing changes; otherwise a waiter numbered `next_waiter` is queued.
pub open spec fn wishlist_spec(s: PipeliningView, call_id: u32) -> (
    PipeliningView,
    Option<Result<Seq<u8>, InternalServerError>>,
) {
    if s.available.contains_key(call_id) {
        (s, Some(s.available[call_id]))
    } else {
        (
            PipeliningView {
                available: s.available,
                waiting: s.waiting.insert(
                    call_id,
                    if s.waiting.contains_key(call_id) {
                        s.waiting[call_id].push(s.next_waiter)
                    } else {
                        seq![s.next_waiter]
                    },
                ),
                next_waiter: (s.next_waiter + 1) as u64,
            },
            None,
        )
    }
}

/// What asking for a result gives: the result, or the number of the waiter
/// that was queued for it.
pub enum Wish {
    Ready(RpcResponse),
    Queued(u64),
}

/// The results of the calls made on a connection, and the numbered waiters
/// for results not known yet.
pub struct PipeliningState {
    tables: PipeliningTables,
}

/// The tables themselves, with no invariant of their own.
struct PipeliningTables {
    available: HashMap<u32, RpcResponse>,
    wishlist: MultiMap<u32, u64>,
    next_waiter: u64,
}

impl PipeliningTables {
    closed spec fn view(&self) -> PipeliningView {
        PipeliningView {
            available: self.available@.map_values(|r: RpcResponse| response_view(r)),
            waiting: waiting_lists(self.wishlist),
            next_waiter: self.next_waiter,
        }
    }

    fn empty() -> (t: PipeliningTables)
        ensures
            t.view().available == Map::<u32, Result<Seq<u8>, InternalServerError>>::empty(),
            t.view().waiting == Map::<u32, Seq<u64>>::empty(),
            t.view().next_waiter == 0,
    {
        let t = PipeliningTables { available: HashMap::new(), wishlist: multimap_new(), next_waiter: 0 };
        assert(t.view().available =~= Map::<u32, Result<Seq<u8>, InternalServerError>>::empty());
        t
    }
}

broadcast use vstd::std_specs::hash::group_hash_axioms;

impl View for PipeliningState {
    type V = PipeliningView;

    closed spec fn view(&self) -> PipeliningView {
        self.tables.view()
    }
}

impl PipeliningState {
    #[verifier::type_invariant]
    closed spec fn fresh(&self) -> bool {
        waiters_fresh(self@)
    }

    /// A table with no result and no waiter.
    pub fn new() -> (s: PipeliningState)
        ensures
            s@.available == Map::<u32, Result<Seq<u8>, InternalServerError>>::empty(),
            s@.waiting == Map::<u32, Seq<u64>>::empty(),
            s@.next_waiter == 0,
            waiters_fresh(s@),
    {
        PipeliningState { tables: PipeliningTables::empty() }
    }

    /// Whether another waiter can be numbered (numbers stop at `u64::MAX`).
    pub fn can_queue(&self) -> (b: bool)
        ensures
            b == (self@.next_waiter < u64::MAX),
    {
        self.tables.next_waiter < u64::MAX
    }

    /// Records the result of a call and returns the waiters to hand it to.
    pub fn add_result(&mut self, call_id: CallID, value: &RpcResponse) -> (notify: Vec<u64>)
        ensures
            (final(self)@, notify@) == add_result_spec(old(self)@, call_id.0, response_view(*value)),
            waiters_fresh(final(self)@),
            final(self)@.available.contains_key(call_id.0),
            final(self)@.available[call_id.0] == response_view(*value),
            !final(self)@.waiting.contains_key(call_id.0),
            old(self)@.waiting.contains_key(call_id.0) ==> notify@ == old(self)@.waiting[call_id.0],
            !old(self)@.waiting.contains_key(call_id.0) ==> notify@.len() == 0,
            forall|d: u32|
                d != call_id.0 ==> (final(self)@.available.contains_key(d) == old(self)@.available.contains_key(d))
                    && (old(self)@.available.contains_key(d) ==> final(self)@.available[d] == old(self)@.available[d]),
            forall|d: u32|
                d != call_id.0 ==> (final(self)@.waiting.contains_key(d) == old(self)@.waiting.contains_key(d))
                    && (old(self)@.waiting.contains_key(d) ==> final(self)@.waiting[d] == old(self)@.waiting[d]),
            final(self)@.next_waiter == old(self)@.next_waiter,
    {
        proof {
            use_type_invariant(&*self);
        }
        let mut t = PipeliningTables::empty();
        std::mem::swap(&mut t, &mut self.tables);
        let stored = clone_response(value);
        let _ = t.available.insert(call_id.0, stored);
        let notify = match multimap_remove(&mut t.wishlist, call_id.0) {
            Some(list) => list,
            None => Vec::new(),
        };
        assert(t.view().available =~= old(self)@.available.insert(call_id.0, response_view(*value)));
        assert(notify@ =~= add_result_spec(old(self)@, call_id.0, response_view(*value)).1);
        proof {
            lemma_add_result_keeps_fresh(old(self)@, call_id.0, response_view(*value));
            lemma_add_result_touches_only_its_call(old(self)@, call_id.0, response_view(*value));
        }
        self.tables = t;
        notify
    }

    /// Asks for the result of a call: returns it when known, otherwise queues
    /// a waiter numbered `next_waiter` and returns that number.
    pub fn wishlist(&mut self, call_id: CallID) -> (r: Wish)
        requires
            old(self)@.next_waiter < u64::MAX,
        ensures
            final(self)@ == wishlist_spec(old(self)@, call_id.0).0,
            wishlist_spec(old(self)@, call_id.0).1 == (match r {
                Wish::Ready(v) => Some(response_view(v)),
                Wish::Queued(_) => None,
            }),
            r matches Wish::Queued(w) ==> w == old(self)@.next_waiter,
            waiters_fresh(final(self)@),
            final(self)@.available == old(self)@.available,
            old(self)@.available.contains_key(call_id.0) <==> r is Ready,
            r matches Wish::Ready(v) ==> response_view(v) == old(self)@.available[call_id.0],
            r is Ready ==> final(self)@ == old(self)@,
            r is Queued ==> final(self)@.waiting.contains_key(call_id.0) && final(self)@.waiting[call_id.0]
                == (if old(self)@.waiting.contains_key(call_id.0) {
                old(self)@.waiting[call_id.0]
            } else {
                Seq::empty()
            }).push(old(self)@.next_waiter) && final(self)@.next_waiter == old(self)@.next_waiter + 1,
            forall|d: u32|
                d != call_id.0 ==> (final(self)@.waiting.contains_key(d) == old(self)@.waiting.contains_key(d))
                    && (old(self)@.waiting.contains_key(d) ==> final(self)@.waiting[d] == old(self)@.waiting[d]),
    {
        proof {
            use_type_invariant(&*self);
        }
        proof {
            lemma_wishlist_touches_only_its_call(old(self)@, call_id.0);
        }
        match self.tables.available.get(&call_id.0) {
            Some(value) => {
                return Wish::Ready(clone_response(value));
            },
            None => {},
        }
        let mut t = PipeliningTables::empty();
        std::mem::swap(&mut t, &mut self.tables);
        let waiter = t.next_waiter;
        t.next_waiter = waiter + 1;
        multimap_insert(&mut t.wishlist, call_id.0, waiter);
        assert(t.view() == wishlist_spec(old(self)@, call_id.0).0);
        proof {
            lemma_wishlist_keeps_fresh(old(self)@, call_id.0);
        }
        self.tables = t;
        Wish::Queued(waiter)
    }
}

/// Queuing a new waiter keeps the numbers below `next_waiter` and distinct.
pub proof fn lemma_wishlist_keeps_fresh(s: PipeliningView, call_id: u32)
    requires
        waiters_fresh(s),
        s.next_waiter < u64::MAX,
    ensures
        waiters_fresh(wishlist_spec(s, call_id).0),
{
    let t = wishlist_spec(s, call_id).0;
    if !s.available.contains_key(call_id) {
        let w = s.next_waiter;
        assert forall|c: u32, i: int|
            #![trigger t.waiting[c][i]]
            t.waiting.contains_key(c) && 0 <= i < t.waiting[c].len() implies t.waiting[c][i] < t.next_waiter by {
            if c == call_id && s.waiting.contains_key(call_id) && i < s.waiting[call_id].len() {
                assert(t.waiting[c][i] == s.waiting[c][i]);
            }
        }
        assert forall|c1: u32, i: int, c2: u32, j: int|
            #![trigger t.waiting[c1][i], t.waiting[c2][j]]
            t.waiting.contains_key(c1) && t.waiting.contains_key(c2) && 0 <= i < t.waiting[c1].len() && 0
                <= j < t.waiting[c2].len() && (c1 != c2 || i != j) implies t.waiting[c1][i]
                != t.waiting[c2][j] by {
            let old1 = !(c1 == call_id && i == t.waiting[c1].len() - 1);
            let old2 = !(c2 == call_id && j == t.waiting[c2].len() - 1);
            if old1 {
                assert(s.waiting.contains_key(c1) && i < s.waiting[c1].len());
                assert(t.waiting[c1][i] == s.waiting[c1][i]);
                assert(s.waiting[c1][i] < w);
            }
            if old2 {
                assert(s.waiting.contains_key(c2) && j < s.waiting[c2].len());
                assert(t.waiting[c2][j] == s.waiting[c2][j]);
                assert(s.waiting[c2][j] < w);
            }
        }
    }
}

/// Recording a result keeps the numbers below `next_waiter` and distinct.
pub proof fn lemma_add_result_keeps_fresh(
    s: PipeliningView,
    call_id: u32,
    value: Result<Seq<u8>, InternalServerError>,
)
    requires
        waiters_fresh(s),
    ensures
        waiters_fresh(add_result_spec(s, call_id, value).0),
{
    let t = add_result_spec(s, call_id, value).0;
    assert forall|c: u32, i: int|
        #![trigger t.waiting[c][i]]
        t.waiting.contains_key(c) && 0 <= i < t.waiting[c].len() implies t.waiting[c][i] < t.next_waiter by {
        assert(s.waiting[c][i] < s.next_waiter);
    }
    assert forall|c1: u32, i: int, c2: u32, j: int|
        #![trigger t.waiting[c1][i], t.waiting[c2][j]]
        t.waiting.contains_key(c1) && t.waiting.contains_key(c2) && 0 <= i < t.waiting[c1].len() && 0
            <= j < t.waiting[c2].len() && (c1 != c2 || i != j) implies t.waiting[c1][i] != t.waiting[c2][j] by {
        assert(s.waiting[c1][i] != s.waiting[c2][j]);
    }
}

/// A waiter that had to queue for a result is handed that result exactly once:
/// it appears once among the waiters returned when the result is recorded,
/// and is no longer queued anywhere afterwards.
pub proof fn lemma_queued_waiter_is_notified_once(
    s: PipeliningView,
    call_id: u32,
    value: Result<Seq<u8>, InternalServerError>,
)
    requires
        waiters_fresh(s),
        s.next_waiter < u64::MAX,
        wishlist_spec(s, call_id).1 is None,
    ensures
        ({
            let w = s.next_waiter;
            let (after, notify) = add_result_spec(wishlist_spec(s, call_id).0, call_id, value);
            &&& notify.contains(w)
            &&& forall|i: int, j: int|
                0 <= i < notify.len() && 0 <= j < notify.len() && notify[i] == w && notify[j] == w
                    ==> i == j
            &&& !is_queued(after, w)
            &&& w < after.next_waiter
            &&& waiters_fresh(after)
        }),
{
    let w = s.next_waiter;
    let queued = wishlist_spec(s, call_id).0;
    lemma_wishlist_keeps_fresh(s, call_id);
    lemma_add_result_keeps_fresh(queued, call_id, value);
    let list = queued.waiting[call_id];
    assert(list[list.len() - 1] == w);
    let (after, notify) = add_result_spec(queued, call_id, value);
    assert forall|i: int, j: int|
        0 <= i < notify.len() && 0 <= j < notify.len() && notify[i] == w && notify[j] == w implies i
        == j by {
        assert(queued.waiting[call_id][i] == queued.waiting[call_id][j]);
    }
    assert(!is_queued(after, w)) by {
        if is_queued(after, w) {
            let (c, i) = choose|c: u32, i: int|
                #![trigger after.waiting[c][i]]
                after.waiting.contains_key(c) && 0 <= i < after.waiting[c].len() && after.waiting[c][i] == w;
            assert(queued.waiting[c][i] == queued.waiting[call_id][list.len() - 1]);
        }
    }
}

/// A waiter that is no longer queued (and whose number was already handed
/// out) is never queued again, whatever is recorded or asked for next: so it
/// is never handed a result a second time.
pub proof fn lemma_dequeued_waiter_stays_out(
    s: PipeliningView,
    waiter: u64,
    call_id: u32,
    value: Result<Seq<u8>, InternalServerError>,
)
    requires
        waiters_fresh(s),
        waiter < s.next_waiter,
        !is_queued(s, waiter),
    ensures
        !is_queued(add_result_spec(s, call_id, value).0, waiter),
        !add_result_spec(s, call_id, value).1.contains(waiter),
        s.next_waiter < u64::MAX ==> !is_queued(wishlist_spec(s, call_id).0, waiter)
            && waiter < wishlist_spec(s, call_id).0.next_waiter,
{
    let a = add_result_spec(s, call_id, value);
    if is_queued(a.0, waiter) {
        let (c, i) = choose|c: u32, i: int|
            #![trigger a.0.waiting[c][i]]
            a.0.waiting.contains_key(c) && 0 <= i < a.0.waiting[c].len() && a.0.waiting[c][i] == waiter;
        assert(s.waiting[c][i] == waiter);
    }
    if a.1.contains(waiter) {
        let i = choose|i: int| 0 <= i < a.1.len() && a.1[i] == waiter;
        assert(s.waiting[call_id][i] == waiter);
    }
    if s.next_waiter < u64::MAX && !s.available.contains_key(call_id) {
        let t = wishlist_spec(s, call_id).0;
        if is_queued(t, waiter) {
            let (c, i) = choose|c: u32, i: int|
                #![trigger t.waiting[c][i]]
                t.waiting.contains_key(c) && 0 <= i < t.waiting[c].len() && t.waiting[c][i] == waiter;
            if c == call_id && i == t.waiting[c].len() - 1 {
                assert(t.waiting[c][i] == s.next_waiter);
            } else {
                assert(s.waiting[c][i] == waiter);
            }
        }
    }
}

/// Recording the result of call `c` concerns call `c` alone: its result becomes
/// known, its waiters are handed out in the order they queued and it has none
/// left; every other call keeps its known result (or lack of one) and its
/// waiting list exactly as they were; no waiter number is spent.
pub proof fn lemma_add_result_touches_only_its_call(
    s: PipeliningView,
    c: u32,
    value: Result<Seq<u8>, InternalServerError>,
)
    ensures
        ({
            let (t, notify) = add_result_spec(s, c, value);
            &&& t.available.contains_key(c) && t.available[c] == value
            &&& !t.waiting.contains_key(c)
            &&& s.waiting.contains_key(c) ==> notify == s.waiting[c]
            &&& !s.waiting.contains_key(c) ==> notify.len() == 0
            &&& forall|d: u32|
                d != c ==> (t.available.contains_key(d) == s.available.contains_key(d)) && (
                s.available.contains_key(d) ==> t.available[d] == s.available[d])
            &&& forall|d: u32|
                d != c ==> (t.waiting.contains_key(d) == s.waiting.contains_key(d)) && (
                s.waiting.contains_key(d) ==> t.waiting[d] == s.waiting[d])
            &&& t.next_waiter == s.next_waiter
        }),
{
}

/// Asking for the result of call `c` concerns call `c` alone: the known
/// results do not change; a known result of `c` is answered and nothing else
/// happens; otherwise one waiter, numbered `next_waiter`, joins the end of the
/// queue of `c`. The queues of all other calls stay exactly as they were.
pub proof fn lemma_wishlist_touches_only_its_call(s: PipeliningView, c: u32)
    requires
        s.next_waiter < u64::MAX,
    ensures
        ({
            let (t, answer) = wishlist_spec(s, c);
            &&& t.available == s.available
            &&& s.available.contains_key(c) ==> answer == Some(s.available[c]) && t == s
            &&& !s.available.contains_key(c) ==> answer is None && t.waiting.contains_key(c)
                && t.waiting[c] == (if s.waiting.contains_key(c) {
                s.waiting[c]
            } else {
                Seq::empty()
            }).push(s.next_waiter) && t.next_waiter == s.next_waiter + 1
            &&& forall|d: u32|
                d != c ==> (t.waiting.contains_key(d) == s.waiting.contains_key(d)) && (
                s.waiting.contains_key(d) ==> t.waiting[d] == s.waiting[d])
        }),
{
    if !s.available.contains_key(c) && !s.waiting.contains_key(c) {
        assert(seq![s.next_waiter] =~= Seq::<u64>::empty().push(s.next_waiter));
    }
}

/// A waiter queued for call `d` is handed the result of `d` when it is
/// recorded, whatever result of another call is recorded first.
pub proof fn lemma_waiter_survives_other_results(
    s: PipeliningView,
    c: u32,
    d: u32,
    waiter: u64,
    first: Result<Seq<u8>, InternalServerError>,
    second: Result<Seq<u8>, InternalServerError>,
)
    requires
        c != d,
        s.waiting.contains_key(d),
        s.waiting[d].contains(waiter),
    ensures
        add_result_spec(add_result_spec(s, c, first).0, d, second).1.contains(waiter),
{
    lemma_add_result_touches_only_its_call(s, c, first);
    let t = add_result_spec(s, c, first).0;
    lemma_add_result_touches_only_its_call(t, d, second);
}

/// Once the result of a call is recorded, asking for it is answered at once
/// with that result.
pub proof fn lemma_recorded_result_is_served(
    s: PipeliningView,
    call_id: u32,
    value: Result<Seq<u8>, InternalServerError>,
)
    ensures
        wishlist_spec(add_result_spec(s, call_id, value).0, call_id).1 == Some(value),
        wishlist_spec(add_result_spec(s, call_id, value).0, call_id).0 == add_result_spec(
            s,
            call_id,
            value,
        ).0,
{
}

} // verus!
