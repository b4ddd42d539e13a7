//! The fallible filter handler.
use std::ops::ControlFlow;
use vstd::prelude::*;

use crate::dispatch::{
    Dispatch, Effect, Reply, Resume, advanced, finished_unchanged, resumed,
    try_filter_effect_spec,
};
use crate::description::HandlerDescription;
use crate::handler::{Handler, Kind, built, produced_key, single};

verus! {

/// Constructs a fallible handler that filters input with the predicate `pred`.
///
/// `obligations` are the keys of the values that `pred` reads from the
/// container. The step's signature records them, with no guaranteed and no
/// conditional outcome, and says that the step continues. The step gets the
/// description `D::try_filter()`.
///
/// Like a filter, `pred` has access to all values in the input container, but
/// it returns `Result<bool, E>` instead of `bool`:
///
///  - `Ok(true)`: the continuation is called (execution continues).
///  - `Ok(false)`: the handler returns `ControlFlow::Continue` (it tries the
///    next branch), just like a filter.
///  - `Err(e)`: the handler short-circuits and returns `ControlFlow::Break`
///    with an error value built from `e`.
///
/// Unlike `Ok(false)`, `Err` does not fall through to sibling branches.
pub fn try_filter<F, D: HandlerDescription>(pred: F, obligations: Vec<u64>) -> (h: Handler<F, D>)
    ensures
        h@.len() == 1,
        built(h@[0], Kind::TryFilter, false, pred, obligations@, 0),
        call_ensures(D::try_filter, (), h@[0].description),
{
    single(Kind::TryFilter, false, pred, D::try_filter(), obligations, 0)
}

/// The asynchronous version of [`try_filter`]; its step gets the description
/// `D::try_filter_async()`.
pub fn try_filter_async<F, D: HandlerDescription>(pred: F, obligations: Vec<u64>) -> (h: Handler<F, D>)
    ensures
        h@.len() == 1,
        built(h@[0], Kind::TryFilter, true, pred, obligations@, 0),
        call_ensures(D::try_filter_async, (), h@[0].description),
{
    single(Kind::TryFilter, true, pred, D::try_filter_async(), obligations, 0)
}

/// [`try_filter`] with a custom description.
pub fn try_filter_with_description<F, D>(description: D, pred: F, obligations: Vec<u64>) -> (h: Handler<F, D>)
    ensures
        h@.len() == 1,
        built(h@[0], Kind::TryFilter, false, pred, obligations@, 0),
        h@[0].description == description,
{
    single(Kind::TryFilter, false, pred, description, obligations, 0)
}

/// [`try_filter_async`] with a custom description.
pub fn try_filter_async_with_description<F, D>(description: D, pred: F, obligations: Vec<u64>) -> (h: Handler<F, D>)
    ensures
        h@.len() == 1,
        built(h@[0], Kind::TryFilter, true, pred, obligations@, 0),
        h@[0].description == description,
{
    single(Kind::TryFilter, true, pred, description, obligations, 0)
}

/// Decides what a fallible filter does with the result of its predicate:
/// `Ok(true)` goes on to the continuation with the container unchanged,
/// `Ok(false)` falls through, `Err(e)` stops the dispatch with `e`.
pub fn try_filter_effect<V, O, E>(res: Result<bool, E>) -> (eff: Effect<V, O, E>)
    ensures
        eff == try_filter_effect_spec::<V, O, E>(res),
{
    match res {
        Ok(true) => Effect::Next,
        Ok(false) => Effect::Pass,
        Err(err) => Effect::Fail(err),
    }
}

/// What a fallible filter step does to a dispatch, by the result of its
/// predicate: `Ok(true)` goes on to the next step with the container unchanged
/// (after the last step, the dispatch falls through with the container it
/// began with); `Ok(false)` falls through with the container the dispatch
/// began with, so a sibling branch may be tried; `Err(e)` ends the dispatch
/// with `e`, so no later step (an endpoint included) runs, and it does not
/// fall through.
pub proof fn try_filter_dispatch_law<'h, F, D, V, O, E>(
    d: Dispatch<'h, F, D, V>,
    res: Result<bool, E>,
    r: Resume<'h, F, D, V, O, E>,
)
    requires
        d.current_kind() == Kind::TryFilter,
        resumed(d, d.current_effect(Reply::<V, O, E>::TryPred(res)).unwrap(), r),
    ensures
        res == Ok::<bool, E>(true) ==> if d.position() + 1 == d.steps().len() {
            finished_unchanged(r, d.initial())
        } else {
            advanced(d, r, d.current())
        },
        res == Ok::<bool, E>(false) ==> finished_unchanged(r, d.initial()),
        res is Err ==> r == Resume::<'h, F, D, V, O, E>::Failed(res->Err_0),
        res is Err ==> !(r matches Resume::Finished(ControlFlow::Continue(_))),
{
}

} // verus!
