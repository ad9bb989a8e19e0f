//! The decisions behind the resource operations that take more than one
//! request: which items to send again after a conflict or a missing-item
//! error, how an upsert splits into creates and updates, and how cursor
//! pagination proceeds.

use vstd::prelude::*;

use crate::identity::{EqIdentity, Identity, IdentityModel};
use crate::error::{duplicates_of, get_duplicates_from_result, Error};
use crate::filter_types::{Partition, SetCursor, WithPartition};
use crate::patch::{IntoPatch, Patch, UpsertOptions};

verus! {

/// Whether `item` is named by one of `ids`.
pub open spec fn matches_any<T: EqIdentity>(item: T, ids: Seq<IdentityModel>) -> bool {
    exists|k: int| 0 <= k < ids.len() && item.matches_identity(#[trigger] ids[k])
}

/// The items, in order, that none of `ids` names.
pub open spec fn unmatched<T: EqIdentity>(items: Seq<T>, ids: Seq<IdentityModel>) -> Seq<T>
    decreases items.len(),
{
    if items.len() == 0 {
        Seq::empty()
    } else if matches_any(items.last(), ids) {
        unmatched(items.drop_last(), ids)
    } else {
        unmatched(items.drop_last(), ids).push(items.last())
    }
}

/// The position in `ids` of the first identity that names `item`.
pub open spec fn first_match<T: EqIdentity>(item: T, ids: Seq<IdentityModel>) -> int {
    choose|k: int|
        0 <= k < ids.len() && item.matches_identity(ids[k]) && forall|j: int|
            0 <= j < k ==> !item.matches_identity(#[trigger] ids[j])
}

/// The items, in order, that some identity in `ids` names, each with the
/// first identity that names it.
pub open spec fn matched<T: EqIdentity>(items: Seq<T>, ids: Seq<IdentityModel>) -> Seq<(IdentityModel, T)>
    decreases items.len(),
{
    if items.len() == 0 {
        Seq::empty()
    } else if matches_any(items.last(), ids) {
        matched(items.drop_last(), ids).push((ids[first_match(items.last(), ids)], items.last()))
    } else {
        matched(items.drop_last(), ids)
    }
}

fn find_match<T: EqIdentity>(item: &T, ids: &[Identity]) -> (r: Option<usize>)
    ensures
        match r {
            Some(k) => k < ids@.len() && matches_any(*item, ids@.map_values(|i: Identity| i@)) && k
                == first_match(*item, ids@.map_values(|i: Identity| i@)),
            None => !matches_any(*item, ids@.map_values(|i: Identity| i@)),
        },
{
    let ghost v = ids@.map_values(|i: Identity| i@);
    let mut k: usize = 0;
    while k < ids.len()
        invariant
            k <= ids@.len(),
            v == ids@.map_values(|i: Identity| i@),
            forall|j: int| 0 <= j < k ==> !item.matches_identity(#[trigger] v[j]),
        decreases ids@.len() - k,
    {
        if item.eq(&ids[k]) {
            assert(v[k as int] == ids@[k as int]@);
            assert(item.matches_identity(v[k as int]));
            assert(matches_any(*item, v));
            proof {
                let kk = k as int;
                assert(0 <= kk < v.len() && item.matches_identity(v[kk]) && forall|j: int|
                    0 <= j < kk ==> !item.matches_identity(#[trigger] v[j]));
                let f = first_match(*item, v);
                assert(0 <= f < v.len() && item.matches_identity(v[f]) && forall|j: int|
                    0 <= j < f ==> !item.matches_identity(#[trigger] v[j]));
                if f < kk {
                    assert(!item.matches_identity(v[f]));
                }
                if f > kk {
                    assert(!item.matches_identity(v[kk]));
                }
            }
            return Some(k);
        }
        assert(v[k as int] == ids@[k as int]@);
        k = k + 1;
    }
    None
}

/// The values that a sequence of references points to.
pub open spec fn pointees<T>(s: Seq<&T>) -> Seq<T> {
    s.map_values(|x: &T| *x)
}

/// The items, in order, that none of `ids` names: what is sent again after
/// a request failed because of the items that `ids` names.
pub fn remove_matching<'a, T: EqIdentity>(items: &'a [T], ids: &[Identity]) -> (r: Vec<&'a T>)
    ensures
        pointees(r@) == unmatched(items@, ids@.map_values(|i: Identity| i@)),
{
    let ghost v = ids@.map_values(|i: Identity| i@);
    let mut r: Vec<&'a T> = Vec::new();
    let mut i: usize = 0;
    while i < items.len()
        invariant
            i <= items@.len(),
            v == ids@.map_values(|i: Identity| i@),
            pointees(r@) == unmatched(items@.take(i as int), v),
        decreases items@.len() - i,
    {
        assert(items@.take(i + 1).drop_last() =~= items@.take(i as int));
        assert(items@.take(i + 1).last() == items@[i as int]);
        if find_match(&items[i], ids).is_none() {
            let ghost before = pointees(r@);
            r.push(&items[i]);
            assert(pointees(r@) =~= before.push(items@[i as int]));
        }
        i = i + 1;
    }
    assert(items@.take(items@.len() as int) =~= items@);
    r
}

/// What to do after a request that may have failed on some of its items.
pub enum RetryDecision<'a, T> {
    /// Give back the first response as it is.
    KeepResponse,
    /// Every item was rejected: the result is an empty list.
    Nothing,
    /// Send these items again.
    Retry(Vec<&'a T>),
}

/// The decision after a request for `items` came back: when the response
/// names no rejected items, keep it; otherwise send again the items that
/// none of the rejected identities names, and when none are left, every
/// item was rejected and the result is an empty list.
pub open spec fn retry_decision_spec<'a, T: EqIdentity>(
    items: Seq<T>,
    rejected: Option<Seq<IdentityModel>>,
    r: RetryDecision<'a, T>,
) -> bool {
    match rejected {
        None => r is KeepResponse,
        Some(ids) => {
            let next = unmatched(items, ids);
            if next.len() == 0 {
                r is Nothing
            } else {
                r matches RetryDecision::Retry(v) && pointees(v@) == next
            }
        },
    }
}

/// Decide what to do after a request for `items` came back with the
/// rejected identities `rejected` (see [`retry_decision_spec`]). This is
/// the decision of creating while ignoring duplicates, and of updating while
/// ignoring unknown IDs.
pub fn decide_retry<'a, T: EqIdentity>(items: &'a [T], rejected: &Option<Vec<Identity>>) -> (r: RetryDecision<'a, T>)
    ensures
        retry_decision_spec(
            items@,
            match *rejected {
                Some(v) => Some(v@.map_values(|i: Identity| i@)),
                None => None,
            },
            r,
        ),
        rejected is None ==> r is KeepResponse,
        rejected matches Some(ids) ==> (unmatched(items@, ids@.map_values(|i: Identity| i@)).len() == 0
            ==> r is Nothing),
        rejected matches Some(ids) ==> (unmatched(items@, ids@.map_values(|i: Identity| i@)).len() > 0
            ==> (r matches RetryDecision::Retry(v) && pointees(v@) == unmatched(
            items@,
            ids@.map_values(|i: Identity| i@),
        ))),
{
    match rejected {
        None => RetryDecision::KeepResponse,
        Some(ids) => {
            let next = remove_matching(items, ids.as_slice());
            if next.len() == 0 {
                RetryDecision::Nothing
            } else {
                RetryDecision::Retry(next)
            }
        },
    }
}

/// How an upsert goes on after its create request reported duplicates:
/// the items to create, and the updates to send.
pub struct UpsertPlan<'a, T, P> {
    /// Items to create.
    pub to_create: Vec<&'a T>,
    /// Updates, each addressed to the existing resource.
    pub to_update: Vec<Patch<P>>,
}

/// Whether `updates` are the updates for the items `m`, each paired with
/// the identity to update: one update per item, in order, addressed to that
/// identity, and holding the patch that a clone of the item becomes under
/// `options`.
pub open spec fn is_update_plan<T: Clone + IntoPatch<P>, P>(
    m: Seq<(IdentityModel, T)>,
    updates: Seq<Patch<P>>,
    options: UpsertOptions,
) -> bool {
    &&& updates.len() == m.len()
    &&& forall|k: int|
        0 <= k < m.len() ==> {
            &&& (#[trigger] updates[k]).id@ == m[k].0
            &&& exists|c: T| #[trigger] cloned::<T>(m[k].1, c) && c.is_patch(options, updates[k].update)
        }
}

/// Split the items of an upsert by the duplicates its create request
/// reported: items that no duplicate names are created, the others are
/// updated, addressed by the first duplicate that names them, with the
/// patch that the item becomes under `options`. Order is kept on both
/// sides.
pub fn plan_upsert<'a, T: EqIdentity + Clone + IntoPatch<P>, P>(
    upserts: &'a [T],
    duplicates: &[Identity],
    options: &UpsertOptions,
) -> (r: UpsertPlan<'a, T, P>)
    ensures
        pointees(r.to_create@) == unmatched(upserts@, duplicates@.map_values(|i: Identity| i@)),
        is_update_plan(matched(upserts@, duplicates@.map_values(|i: Identity| i@)), r.to_update@, *options),
{
    let ghost v = duplicates@.map_values(|i: Identity| i@);
    let mut to_create: Vec<&'a T> = Vec::new();
    let mut to_update: Vec<Patch<P>> = Vec::new();
    let mut i: usize = 0;
    while i < upserts.len()
        invariant
            i <= upserts@.len(),
            v == duplicates@.map_values(|i: Identity| i@),
            pointees(to_create@) == unmatched(upserts@.take(i as int), v),
            is_update_plan(matched(upserts@.take(i as int), v), to_update@, *options),
        decreases upserts@.len() - i,
    {
        assert(upserts@.take(i + 1).drop_last() =~= upserts@.take(i as int));
        assert(upserts@.take(i + 1).last() == upserts@[i as int]);
        match find_match(&upserts[i], duplicates) {
            Some(k) => {
                let ghost m0 = matched(upserts@.take(i as int), v);
                let ghost before = to_update@;
                let idt = duplicates[k].clone();
                assert(idt@ == v[k as int]);
                let item = upserts[i].clone();
                let ghost c = item;
                let update = item.patch(options);
                assert(cloned::<T>(upserts@[i as int], c));
                to_update.push(Patch { id: idt, update });
                let ghost m1 = matched(upserts@.take(i + 1), v);
                assert(m1 == m0.push((v[k as int], upserts@[i as int])));
                assert forall|j: int| 0 <= j < m1.len() implies {
                    &&& (#[trigger] to_update@[j]).id@ == m1[j].0
                    &&& exists|c: T| #[trigger] cloned::<T>(m1[j].1, c) && c.is_patch(*options, to_update@[j].update)
                } by {
                    if j < m0.len() {
                        assert(to_update@[j] == before[j]);
                    } else {
                        assert(cloned::<T>(m1[j].1, c) && c.is_patch(*options, to_update@[j].update));
                    }
                }
            },
            None => {
                let ghost before = pointees(to_create@);
                to_create.push(&upserts[i]);
                assert(pointees(to_create@) =~= before.push(upserts@[i as int]));
            },
        }
        i = i + 1;
    }
    assert(upserts@.take(upserts@.len() as int) =~= upserts@);
    UpsertPlan { to_create, to_update }
}

/// Where an upsert stands between its requests.
pub enum UpsertState<'a, T, P, R> {
    /// The create request for every item is out.
    AwaitingFirst {
        /// The items to upsert.
        upserts: &'a [T],
        /// How fields are kept or overwritten.
        options: UpsertOptions,
    },
    /// The create request for the items that did not exist is out; these
    /// updates are still to be sent.
    AwaitingCreate {
        /// The updates for the items that exist.
        to_update: Vec<Patch<P>>,
    },
    /// The update request is out.
    AwaitingUpdate {
        /// The items the create request gave back.
        created: Vec<R>,
    },
    /// The upsert is over.
    Done,
}

/// What came back from the request an upsert sent.
pub enum UpsertEvent<R> {
    /// The response: the items, or the error.
    Response(Result<Vec<R>, Error>),
}

/// What an upsert does next.
pub enum UpsertAction<'a, T, P, R> {
    /// Send a create request for these items.
    SendCreate(Vec<&'a T>),
    /// Send an update request with these updates.
    SendUpdate(Vec<Patch<P>>),
    /// The upsert is over, with this result.
    Finish(Result<Vec<R>, Error>),
}

/// Begin an upsert: create every item, in order.
pub fn upsert_start<'a, T, P, R>(upserts: &'a [T], options: &UpsertOptions) -> (r: (
    UpsertState<'a, T, P, R>,
    UpsertAction<'a, T, P, R>,
))
    ensures
        r.0 matches UpsertState::AwaitingFirst { upserts: u, options: o } && u == upserts && o == *options,
        r.1 matches UpsertAction::SendCreate(v) && pointees(v@) == upserts@,
{
    let mut all: Vec<&'a T> = Vec::new();
    let mut i: usize = 0;
    while i < upserts.len()
        invariant
            i <= upserts@.len(),
            pointees(all@) == upserts@.take(i as int),
        decreases upserts@.len() - i,
    {
        let ghost before = pointees(all@);
        all.push(&upserts[i]);
        assert(pointees(all@) =~= before.push(upserts@[i as int]));
        assert(upserts@.take(i + 1) =~= upserts@.take(i as int).push(upserts@[i as int]));
        i = i + 1;
    }
    assert(upserts@.take(upserts@.len() as int) =~= upserts@);
    (UpsertState::AwaitingFirst { upserts, options: *options }, UpsertAction::SendCreate(all))
}

/// The step of an upsert after a response (see [`upsert_step`]).
pub open spec fn upsert_transition<'a, T: EqIdentity + Clone + IntoPatch<P>, P, R>(
    s: UpsertState<'a, T, P, R>,
    e: UpsertEvent<R>,
    r: (UpsertState<'a, T, P, R>, UpsertAction<'a, T, P, R>),
) -> bool {
    let UpsertEvent::Response(resp) = e;
    match s {
        UpsertState::AwaitingFirst { upserts, options } => match duplicates_of(resp) {
            None => r.0 is Done && r.1 == UpsertAction::<'a, T, P, R>::Finish(resp),
            Some(ids) => {
                let to_create = unmatched(upserts@, ids);
                let m = matched(upserts@, ids);
                if to_create.len() > 0 {
                    &&& r.1 matches UpsertAction::SendCreate(v) && pointees(v@) == to_create
                    &&& r.0 matches UpsertState::AwaitingCreate { to_update } && is_update_plan(
                        m,
                        to_update@,
                        options,
                    )
                } else if m.len() > 0 {
                    &&& r.1 matches UpsertAction::SendUpdate(u) && is_update_plan(m, u@, options)
                    &&& r.0 matches UpsertState::AwaitingUpdate { created } && created@.len() == 0
                } else {
                    &&& r.0 is Done
                    &&& r.1 matches UpsertAction::Finish(Ok(v)) && v@.len() == 0
                }
            },
        },
        UpsertState::AwaitingCreate { to_update } => match resp {
            Err(err) => r.0 is Done && r.1 == UpsertAction::<'a, T, P, R>::Finish(Err(err)),
            Ok(c) => if to_update@.len() > 0 {
                &&& r.1 == UpsertAction::<'a, T, P, R>::SendUpdate(to_update)
                &&& r.0 matches UpsertState::AwaitingUpdate { created } && created == c
            } else {
                &&& r.0 is Done
                &&& r.1 == UpsertAction::<'a, T, P, R>::Finish(Ok(c))
            },
        },
        UpsertState::AwaitingUpdate { created } => match resp {
            Err(err) => r.0 is Done && r.1 == UpsertAction::<'a, T, P, R>::Finish(Err(err)),
            Ok(u) => {
                &&& r.0 is Done
                &&& r.1 matches UpsertAction::Finish(Ok(v)) && v@ == created@ + u@
            },
        },
        UpsertState::Done => false,
    }
}

/// The step of an upsert after the response to its last request. After
/// the first create request, a response that reports no duplicates is the
/// result. Otherwise the items that no duplicate names are created, if
/// there are any, and the others are updated (see [`plan_upsert`]), if
/// there are any. A failing request ends the upsert with its error; the
/// result is the created items followed by the updated ones.
pub fn upsert_step<'a, T: EqIdentity + Clone + IntoPatch<P>, P, R>(
    s: UpsertState<'a, T, P, R>,
    e: UpsertEvent<R>,
) -> (r: (UpsertState<'a, T, P, R>, UpsertAction<'a, T, P, R>))
    requires
        !(s is Done),
    ensures
        upsert_transition(s, e, r),
        s matches UpsertState::AwaitingFirst { upserts, options } ==> match duplicates_of(e->Response_0) {
            None => r.0 is Done && r.1 == UpsertAction::<'a, T, P, R>::Finish(e->Response_0),
            Some(ids) => (unmatched(upserts@, ids).len() > 0 ==> (r.1 matches UpsertAction::SendCreate(v)
                && pointees(v@) == unmatched(upserts@, ids))) && (unmatched(upserts@, ids).len() == 0
                && matched(upserts@, ids).len() > 0 ==> (r.1 matches UpsertAction::SendUpdate(u)
                && is_update_plan(matched(upserts@, ids), u@, options))),
        },
        s matches UpsertState::AwaitingCreate { to_update } ==> match e->Response_0 {
            Err(err) => r.0 is Done && r.1 == UpsertAction::<'a, T, P, R>::Finish(Err(err)),
            Ok(c) => if to_update@.len() > 0 {
                r.1 == UpsertAction::<'a, T, P, R>::SendUpdate(to_update) && (r.0 matches UpsertState::AwaitingUpdate {
                    created,
                } && created == c)
            } else {
                r.0 is Done && r.1 == UpsertAction::<'a, T, P, R>::Finish(Ok(c))
            },
        },
        s matches UpsertState::AwaitingUpdate { created } ==> match e->Response_0 {
            Err(err) => r.0 is Done && r.1 == UpsertAction::<'a, T, P, R>::Finish(Err(err)),
            Ok(u) => r.0 is Done && (r.1 matches UpsertAction::Finish(Ok(v)) && v@ == created@ + u@),
        },
{
    let UpsertEvent::Response(resp) = e;
    match s {
        UpsertState::AwaitingFirst { upserts, options } => {
            match get_duplicates_from_result(&resp) {
                None => (UpsertState::Done, UpsertAction::Finish(resp)),
                Some(duplicates) => {
                    let plan: UpsertPlan<'a, T, P> = plan_upsert(upserts, duplicates.as_slice(), &options);
                    if plan.to_create.len() > 0 {
                        (
                            UpsertState::AwaitingCreate { to_update: plan.to_update },
                            UpsertAction::SendCreate(plan.to_create),
                        )
                    } else if plan.to_update.len() > 0 {
                        (UpsertState::AwaitingUpdate { created: Vec::new() }, UpsertAction::SendUpdate(plan.to_update))
                    } else {
                        (UpsertState::Done, UpsertAction::Finish(Ok(Vec::new())))
                    }
                },
            }
        },
        UpsertState::AwaitingCreate { to_update } => match resp {
            Err(err) => (UpsertState::Done, UpsertAction::Finish(Err(err))),
            Ok(c) => {
                if to_update.len() > 0 {
                    (UpsertState::AwaitingUpdate { created: c }, UpsertAction::SendUpdate(to_update))
                } else {
                    (UpsertState::Done, UpsertAction::Finish(Ok(c)))
                }
            },
        },
        UpsertState::AwaitingUpdate { created } => match resp {
            Err(err) => (UpsertState::Done, UpsertAction::Finish(Err(err))),
            Ok(u) => {
                let mut all = created;
                let mut u = u;
                all.append(&mut u);
                (UpsertState::Done, UpsertAction::Finish(Ok(all)))
            },
        },
        UpsertState::Done => {
            proof {
                assert(false);
            }
            (UpsertState::Done, UpsertAction::Finish(Ok(Vec::new())))
        },
    }
}

/// Every item of an upsert is either created or updated, never both:
/// the two lists together are as long as the input, and an item is in the
/// create list exactly when no duplicate names it.
pub proof fn lemma_upsert_split<T: EqIdentity>(items: Seq<T>, ids: Seq<IdentityModel>)
    ensures
        unmatched(items, ids).len() + matched(items, ids).len() == items.len(),
        forall|x: T| #[trigger] unmatched(items, ids).contains(x) ==> !matches_any(x, ids),
        forall|p: (IdentityModel, T)| #[trigger] matched(items, ids).contains(p) ==> matches_any(p.1, ids)
            && p.0 == ids[first_match(p.1, ids)],
    decreases items.len(),
{
    if items.len() > 0 {
        lemma_upsert_split(items.drop_last(), ids);
        let u0 = unmatched(items.drop_last(), ids);
        let m0 = matched(items.drop_last(), ids);
        let x = items.last();
        if matches_any(x, ids) {
            assert forall|p: (IdentityModel, T)| #[trigger] matched(items, ids).contains(p) implies matches_any(p.1, ids)
                && p.0 == ids[first_match(p.1, ids)] by {
                let m = matched(items, ids);
                let k = choose|k: int| 0 <= k < m.len() && m[k] == p;
                if k < m0.len() {
                    assert(m0[k] == p);
                    assert(m0.contains(p));
                }
            }
        } else {
            assert forall|y: T| #[trigger] unmatched(items, ids).contains(y) implies !matches_any(y, ids) by {
                let u = unmatched(items, ids);
                let k = choose|k: int| 0 <= k < u.len() && u[k] == y;
                if k < u0.len() {
                    assert(u0[k] == y);
                    assert(u0.contains(y));
                }
            }
        }
    }
}

/// The items sent again after a refusal are exactly those that no refused
/// identity names: none of them is named, and every item that no refused
/// identity names is among them.
pub proof fn lemma_retry_sends_only_unrejected<'a, T: EqIdentity>(
    items: Seq<T>,
    ids: Seq<IdentityModel>,
    r: RetryDecision<'a, T>,
)
    requires
        retry_decision_spec(items, Some(ids), r),
        r is Retry,
    ensures
        forall|x: T| #[trigger] pointees(r->Retry_0@).contains(x) ==> !matches_any(x, ids),
        forall|x: T| items.contains(x) && !matches_any(x, ids) ==> #[trigger] pointees(r->Retry_0@).contains(x),
{
    lemma_upsert_split(items, ids);
    lemma_unmatched_keeps(items, ids);
}

/// Every item that no identity names is kept by [`unmatched`].
pub proof fn lemma_unmatched_keeps<T: EqIdentity>(items: Seq<T>, ids: Seq<IdentityModel>)
    ensures
        forall|x: T| items.contains(x) && !matches_any(x, ids) ==> #[trigger] unmatched(items, ids).contains(x),
    decreases items.len(),
{
    if items.len() > 0 {
        lemma_unmatched_keeps(items.drop_last(), ids);
        assert forall|x: T| items.contains(x) && !matches_any(x, ids) implies #[trigger] unmatched(
            items,
            ids,
        ).contains(x) by {
            let k = choose|k: int| 0 <= k < items.len() && items[k] == x;
            if k < items.len() - 1 {
                assert(items.drop_last()[k] == x);
                assert(items.drop_last().contains(x));
                let u0 = unmatched(items.drop_last(), ids);
                assert(u0.contains(x));
                let j = choose|j: int| 0 <= j < u0.len() && u0[j] == x;
                if !matches_any(items.last(), ids) {
                    assert(unmatched(items, ids) == u0.push(items.last()));
                    assert(unmatched(items, ids)[j] == x);
                } else {
                    assert(unmatched(items, ids) == u0);
                    assert(unmatched(items, ids)[j] == x);
                }
            } else {
                assert(items.last() == x);
                assert(unmatched(items, ids).last() == x);
            }
        }
    }
}

/// The filters of a partitioned read in `num_partitions` parts: the
/// filter once per partition, for partitions `1/n` to `n/n` in order.
pub fn partitioned_filters<T: WithPartition>(filter: &T, num_partitions: u32) -> (r: Vec<T>)
    ensures
        r@.len() == num_partitions,
        forall|k: int|
            0 <= k < num_partitions ==> (#[trigger] r@[k]).partition_of() == Some(
                Partition { partition_number: (k + 1) as u32, num_partitions },
            ),
{
    let mut r: Vec<T> = Vec::new();
    let mut p: u32 = 0;
    while p < num_partitions
        invariant
            p <= num_partitions,
            r@.len() == p,
            forall|k: int|
                0 <= k < p ==> (#[trigger] r@[k]).partition_of() == Some(
                    Partition { partition_number: (k + 1) as u32, num_partitions },
                ),
        decreases num_partitions - p,
    {
        r.push(filter.with_partition(Partition::new(p + 1, num_partitions)));
        p = p + 1;
    }
    r
}

/// The items of a partitioned read: the items of each partition, in the
/// order of the partitions.
pub fn merge_partitions<T>(results: Vec<Vec<T>>) -> (r: Vec<T>)
    ensures
        r@ == results@.map_values(|v: Vec<T>| v@).flatten(),
{
    let ghost all = results@.map_values(|v: Vec<T>| v@);
    let mut source = results;
    let mut out: Vec<T> = Vec::new();
    let ghost mut n: int = 0;
    while source.len() > 0
        invariant
            0 <= n <= all.len(),
            source@.len() == all.len() - n,
            source@.map_values(|v: Vec<T>| v@) == all.skip(n),
            out@ == all.take(n).flatten(),
        decreases source@.len(),
    {
        let ghost before = source@;
        proof {
            assert(before.map_values(|v: Vec<T>| v@)[0] == all.skip(n)[0]);
        }
        let mut chunk = source.remove(0);
        proof {
            assert(chunk@ == all[n]);
            all.take(n).lemma_flatten_push(all[n]);
            assert(all.take(n + 1) =~= all.take(n).push(all[n]));
        }
        out.append(&mut chunk);
        proof {
            assert forall|i: int| 0 <= i < source@.len() implies #[trigger] source@[i]@ == all[n + 1 + i] by {
                assert(source@[i] == before[i + 1]);
                assert(before.map_values(|v: Vec<T>| v@)[i + 1] == all.skip(n)[i + 1]);
            }
            assert(source@.map_values(|v: Vec<T>| v@) =~= all.skip(n + 1));
            n = n + 1;
        }
    }
    assert(all.take(n) =~= all);
    out
}

/// The first partition read of `results` that failed, if any.
pub open spec fn first_failure<T>(results: Seq<Result<Vec<T>, Error>>) -> Option<int> {
    if exists|k: int| 0 <= k < results.len() && results[k] is Err {
        Some(
            choose|k: int|
                0 <= k < results.len() && results[k] is Err && forall|j: int|
                    0 <= j < k ==> !(#[trigger] results[j] is Err),
        )
    } else {
        None
    }
}

/// The result of a partitioned read from the results of its partition
/// reads, in partition order: the first failure makes the whole read fail
/// with its error; otherwise the items of every partition, partition by
/// partition.
pub fn partitioned_result<T>(results: Vec<Result<Vec<T>, Error>>) -> (r: Result<Vec<T>, Error>)
    ensures
        match first_failure(results@) {
            Some(k) => r == results@[k],
            None => r matches Ok(v) && v@ == results@.map_values(
                |x: Result<Vec<T>, Error>| x->Ok_0@,
            ).flatten(),
        },
{
    let ghost all = results@;
    let mut source = results;
    let mut pages: Vec<Vec<T>> = Vec::new();
    while source.len() > 0
        invariant
            all == results@,
            pages@.len() + source@.len() == all.len(),
            source@ == all.skip(pages@.len() as int),
            forall|j: int| 0 <= j < pages@.len() ==> all[j] == Ok::<Vec<T>, Error>(#[trigger] pages@[j]),
        decreases source@.len(),
    {
        let ghost n: int = pages@.len() as int;
        let x = source.remove(0);
        assert(x == all[n]);
        assert(source@ =~= all.skip(n + 1));
        let ghost xv = x;
        match x {
            Ok(v) => {
                pages.push(v);
            },
            Err(e) => {
                proof {
                    assert(all[n] is Err);
                    assert(xv == Err::<Vec<T>, Error>(e));
                    assert forall|j: int| 0 <= j < n implies !(#[trigger] all[j] is Err) by {
                        assert(all[j] == Ok::<Vec<T>, Error>(pages@[j]));
                    }
                    assert(exists|k: int| 0 <= k < all.len() && all[k] is Err);
                    let k = choose|k: int|
                        0 <= k < all.len() && all[k] is Err && forall|j: int|
                            0 <= j < k ==> !(#[trigger] all[j] is Err);
                    assert(0 <= n < all.len() && all[n] is Err && forall|j: int|
                        0 <= j < n ==> !(#[trigger] all[j] is Err));
                    assert(0 <= k < all.len() && all[k] is Err);
                    if k < n {
                        assert(!(all[k] is Err));
                    }
                    if k > n {
                        assert(!(all[n] is Err));
                    }
                    assert(k == n);
                    assert(first_failure(all) == Some(n));
                }
                return Err(e);
            },
        }
    }
    proof {
        assert forall|k: int| 0 <= k < all.len() implies !(#[trigger] all[k] is Err) by {
            assert(all[k] == Ok::<Vec<T>, Error>(pages@[k]));
        }
        assert(pages@.map_values(|v: Vec<T>| v@) =~= all.map_values(|x: Result<Vec<T>, Error>| x->Ok_0@));
    }
    Ok(merge_partitions(pages))
}

/// A listing that follows cursors: the query to send next, and the items
/// received so far.
pub struct Listing<T, Q> {
    /// The query parameters of the next request.
    pub params: Q,
    /// Items received so far, in order.
    pub items: Vec<T>,
}

/// What came back from a listing request.
pub enum PageEvent<T> {
    /// A page of items, with the cursor of the next page if there is one.
    Page {
        /// The items of the page.
        items: Vec<T>,
        /// The cursor of the next page.
        next_cursor: Option<String>,
    },
    /// The request failed.
    Failed(Error),
}

/// What a listing does next.
pub enum ListAction {
    /// Send a request with the listing's parameters.
    Request,
    /// The listing is over; its items are the result.
    Done,
    /// The listing failed with this error.
    Fail(Error),
}

/// A listing after a page: its items are appended; a cursor goes into the
/// parameters of the next request, and a page without one ends the
/// listing. Gives the items, the parameters and whether the listing is over.
pub open spec fn listing_page<T, Q: SetCursor>(
    items: Seq<T>,
    params: Q,
    page: Seq<T>,
    next_cursor: Option<String>,
) -> (Seq<T>, Q, bool) {
    match next_cursor {
        Some(c) => (items + page, params.with_cursor_spec(Some(c)), false),
        None => (items + page, params, true),
    }
}

/// A cursor stream after a page: its items are appended; it goes on with
/// the page's cursor, and ends on a page without one.
pub open spec fn stream_page<T>(items: Seq<T>, page: Seq<T>, next_cursor: Option<String>) -> (Seq<T>, CursorState) {
    match next_cursor {
        Some(c) => (items + page, CursorState::Next(c)),
        None => (items + page, CursorState::End),
    }
}

/// A listing that starts from `params` after the pages `pages`.
pub open spec fn listing_run<T, Q: SetCursor>(params: Q, pages: Seq<(Seq<T>, Option<String>)>) -> (Seq<T>, Q, bool)
    decreases pages.len(),
{
    if pages.len() == 0 {
        (Seq::empty(), params, false)
    } else {
        let before = listing_run(params, pages.drop_last());
        listing_page(before.0, before.1, pages.last().0, pages.last().1)
    }
}

/// A cursor stream after the pages `pages`.
pub open spec fn stream_run<T>(pages: Seq<(Seq<T>, Option<String>)>) -> (Seq<T>, CursorState)
    decreases pages.len(),
{
    if pages.len() == 0 {
        (Seq::empty(), CursorState::Initial)
    } else {
        stream_page(stream_run(pages.drop_last()).0, pages.last().0, pages.last().1)
    }
}

/// The items of the pages, page by page.
pub open spec fn page_items<T>(pages: Seq<(Seq<T>, Option<String>)>) -> Seq<T>
    decreases pages.len(),
{
    if pages.len() == 0 {
        Seq::empty()
    } else {
        page_items(pages.drop_last()) + pages.last().0
    }
}

/// Streaming a listing gives what the full listing gives: over the same
/// pages, where every page but the last carries a cursor (an empty page
/// with a cursor included), the stream and the listing hold the same items,
/// those of the pages in order; the stream has ended exactly when the
/// listing is over, and while it goes on, it asks for the cursor that the
/// listing put into its parameters last.
pub proof fn lemma_stream_matches_listing<T, Q: SetCursor>(params: Q, pages: Seq<(Seq<T>, Option<String>)>)
    requires
        forall|k: int| 0 <= k < pages.len() - 1 ==> (#[trigger] pages[k]).1 is Some,
    ensures
        stream_run(pages).0 == page_items(pages),
        listing_run(params, pages).0 == page_items(pages),
        stream_run(pages).1 is End <==> listing_run(params, pages).2,
        pages.len() > 0 && pages.last().1 is Some ==> stream_run(pages).1 == CursorState::Next(
            pages.last().1->0,
        ) && listing_run(params, pages).1 == listing_run(params, pages.drop_last()).1.with_cursor_spec(
            pages.last().1,
        ),
    decreases pages.len(),
{
    if pages.len() > 0 {
        let rest = pages.drop_last();
        assert forall|k: int| 0 <= k < rest.len() - 1 implies (#[trigger] rest[k]).1 is Some by {
            assert(rest[k] == pages[k]);
        }
        lemma_stream_matches_listing(params, rest);
        if rest.len() > 0 {
            assert(rest.last() == pages[pages.len() - 2]);
        }
    }
}

/// Begin a listing: the first request carries the caller's parameters, and
/// with them the cursor they hold, which is where the listing starts.
pub fn list_start<T, Q>(params: Q) -> (r: (Listing<T, Q>, ListAction))
    ensures
        r.0.params == params,
        r.0.items@.len() == 0,
        r.1 is Request,
{
    (Listing { params, items: Vec::new() }, ListAction::Request)
}

/// The step of a listing after a response: a page's items are appended in
/// order; a page with a cursor asks for the next page, with the parameters'
/// cursor set to it; a page without one ends the listing; a failed request
/// ends it with its error.
pub fn list_step<T, Q: SetCursor>(s: Listing<T, Q>, e: PageEvent<T>) -> (r: (Listing<T, Q>, ListAction))
    ensures
        match e {
            PageEvent::Page { items, next_cursor } => {
                &&& (r.0.items@, r.0.params, r.1 is Done) == listing_page(s.items@, s.params, items@, next_cursor)
                &&& (r.1 is Request || r.1 is Done)
            },
            PageEvent::Failed(err) => r.0 == s && r.1 == ListAction::Fail(err),
        },
{
    match e {
        PageEvent::Page { items, next_cursor } => {
            let mut s = s;
            let mut items = items;
            s.items.append(&mut items);
            match next_cursor {
                Some(c) => {
                    s.params.set_cursor(Some(c));
                    (s, ListAction::Request)
                },
                None => (s, ListAction::Done),
            }
        },
        PageEvent::Failed(err) => (s, ListAction::Fail(err)),
    }
}

/// Where cursor pagination stands.
pub enum CursorState {
    /// No page has been requested yet.
    Initial,
    /// The next page is requested with this cursor.
    Next(String),
    /// The last page has been received.
    End,
}

/// Collects the items of a paginated listing, one page at a time, and says
/// which cursor to request next.
pub struct Pager<T> {
    /// Items received so far, in order.
    pub items: Vec<T>,
    /// Where pagination stands.
    pub state: CursorState,
}

impl<T> Pager<T> {
    /// A pager that has received nothing.
    pub fn new() -> (r: Self)
        ensures
            r.items@.len() == 0,
            r.state is Initial,
    {
        Pager { items: Vec::new(), state: CursorState::Initial }
    }

    /// A pager that has received nothing and starts at the caller's
    /// cursor: the first request carries `cursor`, or no cursor when there
    /// is none.
    pub fn starting_at(cursor: Option<String>) -> (r: Self)
        ensures
            r.items@.len() == 0,
            match cursor {
                Some(c) => r.state == CursorState::Next(c),
                None => r.state is Initial,
            },
    {
        let state = match cursor {
            Some(c) => CursorState::Next(c),
            None => CursorState::Initial,
        };
        Pager { items: Vec::new(), state }
    }

    /// Whether another page is to be requested.
    pub fn has_next(&self) -> (r: bool)
        ensures
            r == !(self.state is End),
    {
        match self.state {
            CursorState::End => false,
            _ => true,
        }
    }

    /// The cursor for the next request: none for the first page.
    pub fn next_cursor(&self) -> (r: Option<String>)
        requires
            !(self.state is End),
        ensures
            match self.state {
                CursorState::Next(c) => r == Some(c),
                _ => r.is_none(),
            },
    {
        match &self.state {
            CursorState::Next(c) => Some(c.clone()),
            _ => None,
        }
    }

    /// Take in a page: its items are appended in order; pagination goes on
    /// with the page's cursor, and ends when the page has none.
    pub fn receive(&mut self, page: Vec<T>, next_cursor: Option<String>)
        requires
            !(old(self).state is End),
        ensures
            (final(self).items@, final(self).state) == stream_page(old(self).items@, page@, next_cursor),
    {
        let mut page = page;
        let ghost p = page@;
        self.items.append(&mut page);
        self.state = match next_cursor {
            Some(c) => CursorState::Next(c),
            None => CursorState::End,
        };
    }
}

} // verus!
