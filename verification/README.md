# dptree (verified core)

A chain-of-responsibility dispatcher whose decisions are proved with Verus.

- `src/handler.rs`: a `Handler` is a sequence of steps; each step has a kind
  (filter, filter-map, map, inspect, endpoint, and the fallible `try_filter`,
  `try_filter_map`, `try_map`), the caller's handle on its user function, and
  a description: the one given, or the description type's default for the
  constructor (`HandlerDescription`, with `Unspecified` in `src/description.rs`).
  `chain` concatenates, `entry()` is the empty chain.
- `src/methods.rs`, `src/try_filter.rs`, `src/try_map.rs`: constructors and
  builder methods, each specified by the step it appends.
- `src/dependency_map.rs`: the container threaded through a dispatch, one value
  per type key.
- `src/dispatch.rs`: the dispatch as a state machine. The caller runs the
  current step's user function and hands back its result (`Reply`); `resume`
  decides the next step, or ends with `ControlFlow::Continue` (the container
  given back exactly as it went in), `ControlFlow::Break` (an endpoint's
  output), or `Failed(e)` where a fallible step failed; `settle` turns that
  into `ControlFlow::Break` of `Fallible::from_error(e)`, and
  `resume_fallible` does both at once.
- Each step carries a `Signature`: the keys its function reads, the key it
  stores (always, or only when it goes on with a value), and whether it can
  go on at all.
- `app/lib.rs`: an async runner that calls the user functions on the arguments
  that `Dispatch::injected` hands out (panicking where one is missing, since
  `resume` requires them all), awaiting the functions of asynchronous steps.
