//! The [`Fallible`] trait, used by the fallible handlers.
use vstd::prelude::*;

verus! {

/// A handler output that can represent a failure.
///
/// The fallible handlers (`try_filter`, `try_map`, `try_filter_map`) take a
/// function that returns `Result`. On `Ok`, execution continues as usual; on
/// `Err(e)`, the chain short-circuits and ends the dispatch with the error as
/// the output, the same way an endpoint ends it with a value.
///
/// `Result` implements this out of the box. Implement it yourself if your
/// output is another type that can still represent an error.
pub trait Fallible: Sized {
    /// The error type carried by this output.
    type Error: 'static;

    /// Constructs an output value representing the given error.
    fn from_error(error: Self::Error) -> Self;
}

impl<T, E: 'static> Fallible for Result<T, E> {
    type Error = E;

    fn from_error(error: E) -> (out: Self)
        ensures
            out == Err::<T, E>(error),
    {
        Err(error)
    }
}

/// What the library's own `Result` implementation promises: the output built
/// from an error is `Err` of that very error, whatever the success type is.
pub proof fn result_from_error_is_err<T, E: 'static>(error: E, out: Result<T, E>)
    requires
        call_ensures(<Result<T, E> as Fallible>::from_error, (error,), out),
    ensures
        out == Err::<T, E>(error),
{
}

} // verus!
