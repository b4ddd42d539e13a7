//! Descriptions of handlers: what each constructor attaches by default.
use vstd::prelude::*;

verus! {

/// A description attached to each step of a handler, for introspection.
///
/// Each constructor that is not given a description asks the description
/// type for the default of its kind: `try_filter` attaches
/// `D::try_filter()`, `map_async` attaches `D::map_async()`, and so on.
/// Implement it for your own type to describe handlers your way; the library
/// implements it for [`Unspecified`].
pub trait HandlerDescription: Sized {
    fn filter() -> Self;

    fn filter_async() -> Self;

    fn filter_map() -> Self;

    fn filter_map_async() -> Self;

    fn map() -> Self;

    fn map_async() -> Self;

    fn inspect() -> Self;

    fn inspect_async() -> Self;

    fn endpoint() -> Self;

    fn try_filter() -> Self;

    fn try_filter_async() -> Self;

    fn try_filter_map() -> Self;

    fn try_filter_map_async() -> Self;

    fn try_map() -> Self;

    fn try_map_async() -> Self;
}

/// The description that says nothing: every default is `Unspecified`.
#[derive(PartialEq, Eq, Structural, Clone, Copy, Debug)]
pub struct Unspecified;

impl HandlerDescription for Unspecified {
    fn filter() -> (d: Self)
        ensures
            d == Unspecified,
    {
        Unspecified
    }

    fn filter_async() -> (d: Self)
        ensures
            d == Unspecified,
    {
        Unspecified
    }

    fn filter_map() -> (d: Self)
        ensures
            d == Unspecified,
    {
        Unspecified
    }

    fn filter_map_async() -> (d: Self)
        ensures
            d == Unspecified,
    {
        Unspecified
    }

    fn map() -> (d: Self)
        ensures
            d == Unspecified,
    {
        Unspecified
    }

    fn map_async() -> (d: Self)
        ensures
            d == Unspecified,
    {
        Unspecified
    }

    fn inspect() -> (d: Self)
        ensures
            d == Unspecified,
    {
        Unspecified
    }

    fn inspect_async() -> (d: Self)
        ensures
            d == Unspecified,
    {
        Unspecified
    }

    fn endpoint() -> (d: Self)
        ensures
            d == Unspecified,
    {
        Unspecified
    }

    fn try_filter() -> (d: Self)
        ensures
            d == Unspecified,
    {
        Unspecified
    }

    fn try_filter_async() -> (d: Self)
        ensures
            d == Unspecified,
    {
        Unspecified
    }

    fn try_filter_map() -> (d: Self)
        ensures
            d == Unspecified,
    {
        Unspecified
    }

    fn try_filter_map_async() -> (d: Self)
        ensures
            d == Unspecified,
    {
        Unspecified
    }

    fn try_map() -> (d: Self)
        ensures
            d == Unspecified,
    {
        Unspecified
    }

    fn try_map_async() -> (d: Self)
        ensures
            d == Unspecified,
    {
        Unspecified
    }
}

} // verus!
