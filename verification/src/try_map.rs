//! The fallible map handler.
use std::ops::ControlFlow;
use vstd::prelude::*;

use crate::dispatch::{
    Dispatch, Effect, Reply, Resume, advanced, finished_unchanged, resumed,
    try_map_effect_spec,
};
use crate::description::HandlerDescription;
use crate::handler::{Handler, Kind, built, produced_key, single};

verus! {

/// Constructs a fallible handler that passes a value of a new type further.
///
/// `obligations` are the keys of the values that `proj` reads from the
/// container; `outcome` is the key of the new type, under which its value is
/// stored. The step's signature records both: it needs `obligations`,
/// guarantees `outcome`, has no conditional outcome, and continues. The step
/// gets the description `D::try_map()`.
///
/// Like a map, the result of invoking `proj` is added to the container and
/// passed further down the chain, but `proj` returns `Result<NewType, E>`:
///
///  - `Ok(v)`: `v` is inserted into the container and the continuation is
///    called.
///  - `Err(e)`: the handler short-circuits and returns `ControlFlow::Break`
///    with an error value built from `e`, without calling the continuation.
pub fn try_map<F, D: HandlerDescription>(proj: F, obligations: Vec<u64>, outcome: u64) -> (h: Handler<F, D>)
    ensures
        h@.len() == 1,
        built(h@[0], Kind::TryMap, false, proj, obligations@, outcome),
        call_ensures(D::try_map, (), h@[0].description),
        produced_key(h@[0]) == Some(outcome),
{
    single(Kind::TryMap, false, proj, D::try_map(), obligations, outcome)
}

/// The asynchronous version of [`try_map`]; its step gets the description
/// `D::try_map_async()`.
pub fn try_map_async<F, D: HandlerDescription>(proj: F, obligations: Vec<u64>, outcome: u64) -> (h: Handler<F, D>)
    ensures
        h@.len() == 1,
        built(h@[0], Kind::TryMap, true, proj, obligations@, outcome),
        call_ensures(D::try_map_async, (), h@[0].description),
        produced_key(h@[0]) == Some(outcome),
{
    single(Kind::TryMap, true, proj, D::try_map_async(), obligations, outcome)
}

/// [`try_map`] with a custom description.
pub fn try_map_with_description<F, D>(description: D, proj: F, obligations: Vec<u64>, outcome: u64) -> (h: Handler<F, D>)
    ensures
        h@.len() == 1,
        built(h@[0], Kind::TryMap, false, proj, obligations@, outcome),
        h@[0].description == description,
        produced_key(h@[0]) == Some(outcome),
{
    single(Kind::TryMap, false, proj, description, obligations, outcome)
}

/// [`try_map_async`] with a custom description.
pub fn try_map_async_with_description<F, D>(description: D, proj: F, obligations: Vec<u64>, outcome: u64) -> (h: Handler<F, D>)
    ensures
        h@.len() == 1,
        built(h@[0], Kind::TryMap, true, proj, obligations@, outcome),
        h@[0].description == description,
        produced_key(h@[0]) == Some(outcome),
{
    single(Kind::TryMap, true, proj, description, obligations, outcome)
}

/// Decides what a fallible map does with the result of its projection:
/// `Ok(v)` stores `v` under `key` and goes on to the continuation,
/// `Err(e)` stops the dispatch with `e` without calling the continuation.
pub fn try_map_effect<V, O, E>(key: u64, res: Result<V, E>) -> (eff: Effect<V, O, E>)
    ensures
        eff == try_map_effect_spec::<V, O, E>(key, res),
{
    match res {
        Ok(new_value) => Effect::Insert(key, new_value),
        Err(err) => Effect::Fail(err),
    }
}

/// What a fallible map step does to a dispatch, by the result of its
/// projection: `Ok(v)` goes on to the next step with `v` stored in the
/// container under its key (after the last step, the dispatch falls through
/// with the container it began with, the insertion taken back); `Err(e)` ends
/// the dispatch with `e`, so no later step runs, and it does not fall through.
pub proof fn try_map_dispatch_law<'h, F, D, V, O, E>(
    d: Dispatch<'h, F, D, V>,
    res: Result<V, E>,
    r: Resume<'h, F, D, V, O, E>,
)
    requires
        d.current_kind() == Kind::TryMap,
        d.current_key() is Some,
        resumed(d, d.current_effect(Reply::<V, O, E>::TryValue(res)).unwrap(), r),
    ensures
        res is Ok ==> if d.position() + 1 == d.steps().len() {
            finished_unchanged(r, d.initial())
        } else {
            advanced(d, r, d.current().insert(d.current_key().unwrap(), res->Ok_0))
        },
        res is Err ==> r == Resume::<'h, F, D, V, O, E>::Failed(res->Err_0),
        res is Err ==> !(r matches Resume::Finished(ControlFlow::Continue(_))),
{
}

} // verus!
