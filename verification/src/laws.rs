//! What each kind of step does to a dispatch, stated over `resume`'s result
//! alone, and how the fallible kinds relate to the plain ones.
use std::ops::ControlFlow;
use vstd::prelude::*;

use crate::dispatch::{Dispatch, Reply, Resume, advanced, effect_spec, finished_unchanged, resumed};
use crate::handler::Kind;

verus! {

/// Where `d` goes on past its current step with the container `next`: the
/// following step waits with `next`, or, after the last step, the dispatch
/// falls through with the container it began with.
pub open spec fn goes_on<'h, F, D, V, O, E>(
    d: Dispatch<'h, F, D, V>,
    r: Resume<'h, F, D, V, O, E>,
    next: Map<u64, V>,
) -> bool {
    if d.position() + 1 == d.steps().len() {
        finished_unchanged(r, d.initial())
    } else {
        advanced(d, r, next)
    }
}

/// A filter: `true` goes on with the container unchanged; `false` falls
/// through at once with the container the dispatch began with, whatever
/// steps follow.
pub proof fn filter_dispatch_law<'h, F, D, V, O, E>(
    d: Dispatch<'h, F, D, V>,
    b: bool,
    r: Resume<'h, F, D, V, O, E>,
)
    requires
        d.current_kind() == Kind::Filter,
        resumed(d, d.current_effect(Reply::<V, O, E>::Pred(b)).unwrap(), r),
    ensures
        b ==> goes_on(d, r, d.current()),
        !b ==> finished_unchanged(r, d.initial()),
        !(r is Failed),
        !(r matches Resume::Finished(ControlFlow::Break(_))),
{
}

/// A filter projection with key `k`: `Some(v)` goes on with `v` stored under
/// `k` (replacing any value there), so the next step sees it; `None` falls
/// through at once with the container the dispatch began with, whatever
/// steps follow, so no later step runs.
pub proof fn filter_map_dispatch_law<'h, F, D, V, O, E>(
    d: Dispatch<'h, F, D, V>,
    k: u64,
    p: Option<V>,
    r: Resume<'h, F, D, V, O, E>,
)
    requires
        d.current_kind() == Kind::FilterMap,
        d.current_key() == Some(k),
        resumed(d, d.current_effect(Reply::<V, O, E>::Proj(p)).unwrap(), r),
    ensures
        p is Some ==> goes_on(d, r, d.current().insert(k, p->0)),
        p is Some && d.position() + 1 < d.steps().len() ==> (r matches Resume::Awaiting(n)
            && n.current().contains_key(k) && n.current()[k] == p->0),
        p is None ==> finished_unchanged(r, d.initial()),
        p is None ==> !(r is Awaiting),
        !(r is Failed),
        !(r matches Resume::Finished(ControlFlow::Break(_))),
{
}

/// A projection with key `k`: its value `v` is stored under `k` and the
/// dispatch goes on, so the next step sees `v`.
pub proof fn map_dispatch_law<'h, F, D, V, O, E>(
    d: Dispatch<'h, F, D, V>,
    k: u64,
    v: V,
    r: Resume<'h, F, D, V, O, E>,
)
    requires
        d.current_kind() == Kind::Mapping,
        d.current_key() == Some(k),
        resumed(d, d.current_effect(Reply::<V, O, E>::Value(v)).unwrap(), r),
    ensures
        goes_on(d, r, d.current().insert(k, v)),
        d.position() + 1 < d.steps().len() ==> (r matches Resume::Awaiting(n)
            && n.current().contains_key(k) && n.current()[k] == v),
{
}

/// An inspection goes on with the container unchanged.
pub proof fn inspect_dispatch_law<'h, F, D, V, O, E>(
    d: Dispatch<'h, F, D, V>,
    r: Resume<'h, F, D, V, O, E>,
)
    requires
        d.current_kind() == Kind::Inspect,
        resumed(d, d.current_effect(Reply::<V, O, E>::Unit).unwrap(), r),
    ensures
        goes_on(d, r, d.current()),
{
}

/// An endpoint ends the dispatch with `ControlFlow::Break` of its output,
/// whatever steps follow: none of them runs.
pub proof fn endpoint_dispatch_law<'h, F, D, V, O, E>(
    d: Dispatch<'h, F, D, V>,
    o: O,
    r: Resume<'h, F, D, V, O, E>,
)
    requires
        d.current_kind() == Kind::Endpoint,
        resumed(d, d.current_effect(Reply::<V, O, E>::Output(o)).unwrap(), r),
    ensures
        r == Resume::<'h, F, D, V, O, E>::Finished(ControlFlow::Break(o)),
{
}

/// A fallible filter projection with key `k`: `Ok(Some(v))` goes on with `v`
/// stored under `k`, so the next step sees it; only `Ok(None)` falls through
/// (at once, with the container the dispatch began with), and only `Err(e)`
/// ends the dispatch with the failure `e`.
pub proof fn try_filter_map_dispatch_law<'h, F, D, V, O, E>(
    d: Dispatch<'h, F, D, V>,
    k: u64,
    res: Result<Option<V>, E>,
    r: Resume<'h, F, D, V, O, E>,
)
    requires
        d.current_kind() == Kind::TryFilterMap,
        d.current_key() == Some(k),
        resumed(d, d.current_effect(Reply::<V, O, E>::TryProj(res)).unwrap(), r),
    ensures
        res matches Ok(Some(v)) ==> goes_on(d, r, d.current().insert(k, v)),
        res matches Ok(Some(v)) ==> (d.position() + 1 < d.steps().len() ==> (r matches Resume::Awaiting(
            n,
        ) && n.current().contains_key(k) && n.current()[k] == v)),
        res matches Ok(None) ==> finished_unchanged(r, d.initial()),
        res matches Ok(None) ==> !(r is Awaiting),
        res is Ok ==> !(r is Failed),
        res is Ok ==> !(r matches Resume::Finished(ControlFlow::Break(_))),
        res is Err ==> r == Resume::<'h, F, D, V, O, E>::Failed(res->Err_0),
{
}

/// The fallible kinds behave as the plain ones on success: a fallible filter
/// answering `Ok(b)` has the effect of a filter answering `b`; a fallible
/// filter projection answering `Ok(p)` that of a filter projection answering
/// `p`; a fallible projection answering `Ok(v)` that of a projection
/// answering `v`; and none of the fallible kinds fails on `Ok`.
pub proof fn fallible_kinds_on_success<V, O, E>(
    key: Option<u64>,
    b: bool,
    p: Option<V>,
    v: V,
)
    ensures
        effect_spec(Kind::TryFilter, key, Reply::<V, O, E>::TryPred(Ok(b))) == effect_spec(
            Kind::Filter,
            key,
            Reply::<V, O, E>::Pred(b),
        ),
        effect_spec(Kind::TryFilterMap, key, Reply::<V, O, E>::TryProj(Ok(p))) == effect_spec(
            Kind::FilterMap,
            key,
            Reply::<V, O, E>::Proj(p),
        ),
        effect_spec(Kind::TryMap, key, Reply::<V, O, E>::TryValue(Ok(v))) == effect_spec(
            Kind::Mapping,
            key,
            Reply::<V, O, E>::Value(v),
        ),
{
}

} // verus!
