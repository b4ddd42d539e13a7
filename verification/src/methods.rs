//! Builder methods: chaining a handler with one more step.
//!
//! `obligations` are the keys of the values that the user function reads from
//! the container; `outcome`, for the steps that store a value, is the key
//! under which it is stored. The step gets the description type's default for
//! the method: `D::filter()` for `filter`, and so on.
use vstd::prelude::*;

use crate::description::HandlerDescription;
use crate::handler::{Handler, Kind, built, produced_key, single};
use crate::try_filter;
use crate::try_map;

verus! {

impl<F, D: HandlerDescription> Handler<F, D> {
    /// Chain this handler with the filter predicate `pred`.
    pub fn filter(self, pred: F, obligations: Vec<u64>) -> (h: Handler<F, D>)
        ensures
            h@.len() == self@.len() + 1,
            h@.drop_last() == self@,
            built(h@.last(), Kind::Filter, false, pred, obligations@, 0),
            call_ensures(D::filter, (), h@.last().description),
    {
        let ghost before = self@;
        let one = single(Kind::Filter, false, pred, D::filter(), obligations, 0);
        let h = self.chain(one);
        assert(h@.drop_last() =~= before);
        h
    }

    /// Chain this handler with the async filter predicate `pred`.
    pub fn filter_async(self, pred: F, obligations: Vec<u64>) -> (h: Handler<F, D>)
        ensures
            h@.len() == self@.len() + 1,
            h@.drop_last() == self@,
            built(h@.last(), Kind::Filter, true, pred, obligations@, 0),
            call_ensures(D::filter_async, (), h@.last().description),
    {
        let ghost before = self@;
        let one = single(Kind::Filter, true, pred, D::filter_async(), obligations, 0);
        let h = self.chain(one);
        assert(h@.drop_last() =~= before);
        h
    }

    /// Chain this handler with the filter projection `proj`.
    pub fn filter_map(self, proj: F, obligations: Vec<u64>, outcome: u64) -> (h: Handler<F, D>)
        ensures
            h@.len() == self@.len() + 1,
            h@.drop_last() == self@,
            built(h@.last(), Kind::FilterMap, false, proj, obligations@, outcome),
            call_ensures(D::filter_map, (), h@.last().description),
            produced_key(h@.last()) == Some(outcome),
    {
        let ghost before = self@;
        let one = single(Kind::FilterMap, false, proj, D::filter_map(), obligations, outcome);
        let h = self.chain(one);
        assert(h@.drop_last() =~= before);
        h
    }

    /// Chain this handler with the async filter projection `proj`.
    pub fn filter_map_async(self, proj: F, obligations: Vec<u64>, outcome: u64) -> (h: Handler<F, D>)
        ensures
            h@.len() == self@.len() + 1,
            h@.drop_last() == self@,
            built(h@.last(), Kind::FilterMap, true, proj, obligations@, outcome),
            call_ensures(D::filter_map_async, (), h@.last().description),
            produced_key(h@.last()) == Some(outcome),
    {
        let ghost before = self@;
        let one = single(Kind::FilterMap, true, proj, D::filter_map_async(), obligations, outcome);
        let h = self.chain(one);
        assert(h@.drop_last() =~= before);
        h
    }

    /// Chain this handler with the map projection `proj`.
    pub fn map(self, proj: F, obligations: Vec<u64>, outcome: u64) -> (h: Handler<F, D>)
        ensures
            h@.len() == self@.len() + 1,
            h@.drop_last() == self@,
            built(h@.last(), Kind::Mapping, false, proj, obligations@, outcome),
            call_ensures(D::map, (), h@.last().description),
            produced_key(h@.last()) == Some(outcome),
    {
        let ghost before = self@;
        let one = single(Kind::Mapping, false, proj, D::map(), obligations, outcome);
        let h = self.chain(one);
        assert(h@.drop_last() =~= before);
        h
    }

    /// Chain this handler with the async map projection `proj`.
    pub fn map_async(self, proj: F, obligations: Vec<u64>, outcome: u64) -> (h: Handler<F, D>)
        ensures
            h@.len() == self@.len() + 1,
            h@.drop_last() == self@,
            built(h@.last(), Kind::Mapping, true, proj, obligations@, outcome),
            call_ensures(D::map_async, (), h@.last().description),
            produced_key(h@.last()) == Some(outcome),
    {
        let ghost before = self@;
        let one = single(Kind::Mapping, true, proj, D::map_async(), obligations, outcome);
        let h = self.chain(one);
        assert(h@.drop_last() =~= before);
        h
    }

    /// Chain this handler with the inspection function `f`.
    pub fn inspect(self, f: F, obligations: Vec<u64>) -> (h: Handler<F, D>)
        ensures
            h@.len() == self@.len() + 1,
            h@.drop_last() == self@,
            built(h@.last(), Kind::Inspect, false, f, obligations@, 0),
            call_ensures(D::inspect, (), h@.last().description),
    {
        let ghost before = self@;
        let one = single(Kind::Inspect, false, f, D::inspect(), obligations, 0);
        let h = self.chain(one);
        assert(h@.drop_last() =~= before);
        h
    }

    /// Chain this handler with the async inspection function `f`.
    pub fn inspect_async(self, f: F, obligations: Vec<u64>) -> (h: Handler<F, D>)
        ensures
            h@.len() == self@.len() + 1,
            h@.drop_last() == self@,
            built(h@.last(), Kind::Inspect, true, f, obligations@, 0),
            call_ensures(D::inspect_async, (), h@.last().description),
    {
        let ghost before = self@;
        let one = single(Kind::Inspect, true, f, D::inspect_async(), obligations, 0);
        let h = self.chain(one);
        assert(h@.drop_last() =~= before);
        h
    }

    /// Chain this handler with the endpoint handler `f`.
    pub fn endpoint(self, f: F, obligations: Vec<u64>) -> (h: Handler<F, D>)
        ensures
            h@.len() == self@.len() + 1,
            h@.drop_last() == self@,
            built(h@.last(), Kind::Endpoint, true, f, obligations@, 0),
            call_ensures(D::endpoint, (), h@.last().description),
    {
        let ghost before = self@;
        let one = single(Kind::Endpoint, true, f, D::endpoint(), obligations, 0);
        let h = self.chain(one);
        assert(h@.drop_last() =~= before);
        h
    }

    /// Chain this handler with the fallible filter predicate `pred`.
    ///
    /// `pred` returns `Result<bool, E>` (where `E` is the error type of the
    /// output). On `Ok(true)` execution continues; on `Ok(false)` the handler
    /// returns `ControlFlow::Continue` (try the next branch); on `Err(e)` the
    /// handler short-circuits with `ControlFlow::Break` carrying the error,
    /// without falling through to sibling branches.
    pub fn try_filter(self, pred: F, obligations: Vec<u64>) -> (h: Handler<F, D>)
        ensures
            h@.len() == self@.len() + 1,
            h@.drop_last() == self@,
            built(h@.last(), Kind::TryFilter, false, pred, obligations@, 0),
            call_ensures(D::try_filter, (), h@.last().description),
    {
        let ghost before = self@;
        let one = try_filter::try_filter(pred, obligations);
        let h = self.chain(one);
        assert(h@.drop_last() =~= before);
        h
    }

    /// Chain this handler with the async fallible filter predicate `pred`.
    pub fn try_filter_async(self, pred: F, obligations: Vec<u64>) -> (h: Handler<F, D>)
        ensures
            h@.len() == self@.len() + 1,
            h@.drop_last() == self@,
            built(h@.last(), Kind::TryFilter, true, pred, obligations@, 0),
            call_ensures(D::try_filter_async, (), h@.last().description),
    {
        let ghost before = self@;
        let one = try_filter::try_filter_async(pred, obligations);
        let h = self.chain(one);
        assert(h@.drop_last() =~= before);
        h
    }

    /// Chain this handler with the fallible filter projection `proj`.
    ///
    /// `proj` returns `Result<Option<NewType>, E>`. On `Ok(Some(v))` `v` is
    /// inserted into the container and execution continues; on `Ok(None)` the
    /// handler returns `ControlFlow::Continue` (try the next branch); on
    /// `Err(e)` the handler short-circuits with `ControlFlow::Break` carrying
    /// the error.
    pub fn try_filter_map(self, proj: F, obligations: Vec<u64>, outcome: u64) -> (h: Handler<F, D>)
        ensures
            h@.len() == self@.len() + 1,
            h@.drop_last() == self@,
            built(h@.last(), Kind::TryFilterMap, false, proj, obligations@, outcome),
            call_ensures(D::try_filter_map, (), h@.last().description),
            produced_key(h@.last()) == Some(outcome),
    {
        let ghost before = self@;
        let one = single(Kind::TryFilterMap, false, proj, D::try_filter_map(), obligations, outcome);
        let h = self.chain(one);
        assert(h@.drop_last() =~= before);
        h
    }

    /// Chain this handler with the async fallible filter projection `proj`.
    pub fn try_filter_map_async(self, proj: F, obligations: Vec<u64>, outcome: u64) -> (h: Handler<F, D>)
        ensures
            h@.len() == self@.len() + 1,
            h@.drop_last() == self@,
            built(h@.last(), Kind::TryFilterMap, true, proj, obligations@, outcome),
            call_ensures(D::try_filter_map_async, (), h@.last().description),
            produced_key(h@.last()) == Some(outcome),
    {
        let ghost before = self@;
        let one = single(Kind::TryFilterMap, true, proj, D::try_filter_map_async(), obligations, outcome);
        let h = self.chain(one);
        assert(h@.drop_last() =~= before);
        h
    }

    /// Chain this handler with the fallible map projection `proj`.
    ///
    /// `proj` returns `Result<NewType, E>`. On `Ok(v)` `v` is inserted into
    /// the container and execution continues; on `Err(e)` the handler
    /// short-circuits with `ControlFlow::Break` carrying the error, without
    /// calling the continuation.
    pub fn try_map(self, proj: F, obligations: Vec<u64>, outcome: u64) -> (h: Handler<F, D>)
        ensures
            h@.len() == self@.len() + 1,
            h@.drop_last() == self@,
            built(h@.last(), Kind::TryMap, false, proj, obligations@, outcome),
            call_ensures(D::try_map, (), h@.last().description),
            produced_key(h@.last()) == Some(outcome),
    {
        let ghost before = self@;
        let one = try_map::try_map(proj, obligations, outcome);
        let h = self.chain(one);
        assert(h@.drop_last() =~= before);
        h
    }

    /// Chain this handler with the async fallible map projection `proj`.
    pub fn try_map_async(self, proj: F, obligations: Vec<u64>, outcome: u64) -> (h: Handler<F, D>)
        ensures
            h@.len() == self@.len() + 1,
            h@.drop_last() == self@,
            built(h@.last(), Kind::TryMap, true, proj, obligations@, outcome),
            call_ensures(D::try_map_async, (), h@.last().description),
            produced_key(h@.last()) == Some(outcome),
    {
        let ghost before = self@;
        let one = try_map::try_map_async(proj, obligations, outcome);
        let h = self.chain(one);
        assert(h@.drop_last() =~= before);
        h
    }

}

/// Each builder method is `chain` with a one-step handler: where `h` is what
/// a builder method made of `base` (one step more, `base`'s steps first) and
/// `one` is the handler made of that last step alone, `h` runs exactly the
/// steps of `base.chain(one)`.
pub proof fn method_is_chain<F, D>(base: Handler<F, D>, h: Handler<F, D>, one: Handler<F, D>)
    requires
        h@.len() == base@.len() + 1,
        h@.drop_last() == base@,
        one@ == seq![h@.last()],
    ensures
        h@ == base@ + one@,
{
    assert(h@ =~= base@ + one@);
}

} // verus!
