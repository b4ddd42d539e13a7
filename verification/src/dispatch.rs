//! Dispatching a handler over a container.
//!
//! A dispatch alternates between the caller, who runs the user function of the
//! current step (possibly awaiting it), and this module, which decides from
//! that function's reply what happens next: go on to the next step (possibly
//! with a new value stored in the container), fall through with
//! `ControlFlow::Continue`, or stop with `ControlFlow::Break`.
//!
//! When a dispatch falls through, every value that its steps stored is taken
//! out again, so the container comes back exactly as it went in.
use std::ops::ControlFlow;
use vstd::prelude::*;

use crate::dependency_map::DependencyMap;
use crate::fallible::Fallible;
use crate::handler::{Handler, Kind, Step, produced_key};
use crate::try_filter::try_filter_effect;
use crate::try_map::try_map_effect;

verus! {

/// What a user function handed back, by the kind of step that ran it.
///
/// A value that a projection produces is stored under the key that its step
/// names as its outcome.
pub enum Reply<V, O, E> {
    /// The result of a predicate (`Kind::Filter`).
    Pred(bool),
    /// The result of a projection to `Option` (`Kind::FilterMap`).
    Proj(Option<V>),
    /// The result of a projection (`Kind::Mapping`).
    Value(V),
    /// The end of an inspection (`Kind::Inspect`).
    Unit,
    /// The output of an endpoint (`Kind::Endpoint`).
    Output(O),
    /// The result of a fallible predicate (`Kind::TryFilter`).
    TryPred(Result<bool, E>),
    /// The result of a fallible projection to `Option` (`Kind::TryFilterMap`).
    TryProj(Result<Option<V>, E>),
    /// The result of a fallible projection (`Kind::TryMap`).
    TryValue(Result<V, E>),
}

/// What a step decides from the reply of its user function.
pub enum Effect<V, O, E> {
    /// Go on to the next step with the container unchanged.
    Next,
    /// Store the value under the key, then go on to the next step.
    Insert(u64, V),
    /// Fall through: the dispatch ends with `ControlFlow::Continue`.
    Pass,
    /// Stop: the dispatch ends with `ControlFlow::Break` of this output.
    Output(O),
    /// Stop with this error: the dispatch ends with `ControlFlow::Break` of
    /// the output built from it.
    Fail(E),
}

/// The effect of a reply on a step of the given kind, whose stored values go
/// under `key`; `None` where the reply is not one that a user function of
/// that kind can give, or where a step that stores a value names no key.
pub open spec fn effect_spec<V, O, E>(kind: Kind, key: Option<u64>, reply: Reply<V, O, E>) -> Option<
    Effect<V, O, E>,
> {
    match kind {
        Kind::Filter => match reply {
            Reply::Pred(b) => Some(if b { Effect::Next } else { Effect::Pass }),
            _ => None,
        },
        Kind::FilterMap => match (key, reply) {
            (Some(k), Reply::Proj(p)) => Some(
                match p {
                    Some(v) => Effect::Insert(k, v),
                    None => Effect::Pass,
                },
            ),
            _ => None,
        },
        Kind::Mapping => match (key, reply) {
            (Some(k), Reply::Value(v)) => Some(Effect::Insert(k, v)),
            _ => None,
        },
        Kind::Inspect => match reply {
            Reply::Unit => Some(Effect::Next),
            _ => None,
        },
        Kind::Endpoint => match reply {
            Reply::Output(o) => Some(Effect::Output(o)),
            _ => None,
        },
        Kind::TryFilter => match reply {
            Reply::TryPred(res) => Some(try_filter_effect_spec(res)),
            _ => None,
        },
        Kind::TryFilterMap => match (key, reply) {
            (Some(k), Reply::TryProj(res)) => Some(try_filter_map_effect_spec(k, res)),
            _ => None,
        },
        Kind::TryMap => match (key, reply) {
            (Some(k), Reply::TryValue(res)) => Some(try_map_effect_spec(k, res)),
            _ => None,
        },
    }
}

/// A fallible predicate: `Ok(true)` goes on, `Ok(false)` falls through,
/// `Err(e)` stops with `e`.
pub open spec fn try_filter_effect_spec<V, O, E>(res: Result<bool, E>) -> Effect<V, O, E> {
    match res {
        Ok(true) => Effect::Next,
        Ok(false) => Effect::Pass,
        Err(e) => Effect::Fail(e),
    }
}

/// A fallible projection to `Option`: `Ok(Some(v))` stores `v` under `key`,
/// `Ok(None)` falls through, `Err(e)` stops with `e`.
pub open spec fn try_filter_map_effect_spec<V, O, E>(key: u64, res: Result<Option<V>, E>) -> Effect<
    V,
    O,
    E,
> {
    match res {
        Ok(Some(v)) => Effect::Insert(key, v),
        Ok(None) => Effect::Pass,
        Err(e) => Effect::Fail(e),
    }
}

/// A fallible projection: `Ok(v)` stores `v` under `key`, `Err(e)` stops
/// with `e`.
pub open spec fn try_map_effect_spec<V, O, E>(key: u64, res: Result<V, E>) -> Effect<V, O, E> {
    match res {
        Ok(v) => Effect::Insert(key, v),
        Err(e) => Effect::Fail(e),
    }
}

/// Decides the effect of a fallible filter projection's result.
pub fn try_filter_map_effect<V, O, E>(key: u64, res: Result<Option<V>, E>) -> (eff: Effect<V, O, E>)
    ensures
        eff == try_filter_map_effect_spec::<V, O, E>(key, res),
{
    match res {
        Ok(Some(v)) => Effect::Insert(key, v),
        Ok(None) => Effect::Pass,
        Err(e) => Effect::Fail(e),
    }
}

/// Decides the effect of a reply on a step of the given kind, whose stored
/// values go under `key`; `None` where the reply does not fit.
pub fn effect_of<V, O, E>(kind: Kind, key: Option<u64>, reply: Reply<V, O, E>) -> (eff: Option<
    Effect<V, O, E>,
>)
    ensures
        eff == effect_spec(kind, key, reply),
{
    match kind {
        Kind::Filter => match reply {
            Reply::Pred(b) => Some(if b { Effect::Next } else { Effect::Pass }),
            _ => None,
        },
        Kind::FilterMap => match (key, reply) {
            (Some(k), Reply::Proj(p)) => Some(
                match p {
                    Some(v) => Effect::Insert(k, v),
                    None => Effect::Pass,
                },
            ),
            _ => None,
        },
        Kind::Mapping => match (key, reply) {
            (Some(k), Reply::Value(v)) => Some(Effect::Insert(k, v)),
            _ => None,
        },
        Kind::Inspect => match reply {
            Reply::Unit => Some(Effect::Next),
            _ => None,
        },
        Kind::Endpoint => match reply {
            Reply::Output(o) => Some(Effect::Output(o)),
            _ => None,
        },
        Kind::TryFilter => match reply {
            Reply::TryPred(res) => Some(try_filter_effect(res)),
            _ => None,
        },
        Kind::TryFilterMap => match (key, reply) {
            (Some(k), Reply::TryProj(res)) => Some(try_filter_map_effect(k, res)),
            _ => None,
        },
        Kind::TryMap => match (key, reply) {
            (Some(k), Reply::TryValue(res)) => Some(try_map_effect(k, res)),
            _ => None,
        },
    }
}

/// Whether a reply is one that a user function of the given kind can give,
/// on a step whose stored values go under `key`.
pub fn fits<V, O, E>(kind: Kind, key: Option<u64>, reply: &Reply<V, O, E>) -> (b: bool)
    ensures
        b == effect_spec(kind, key, *reply) is Some,
{
    match (kind, reply) {
        (Kind::Filter, Reply::Pred(_)) => true,
        (Kind::FilterMap, Reply::Proj(_)) => key.is_some(),
        (Kind::Mapping, Reply::Value(_)) => key.is_some(),
        (Kind::Inspect, Reply::Unit) => true,
        (Kind::Endpoint, Reply::Output(_)) => true,
        (Kind::TryFilter, Reply::TryPred(_)) => true,
        (Kind::TryFilterMap, Reply::TryProj(_)) => key.is_some(),
        (Kind::TryMap, Reply::TryValue(_)) => key.is_some(),
        _ => false,
    }
}

/// How to take back one insertion: the key, and the value it replaced.
struct Undo<V> {
    key: u64,
    previous: Option<V>,
}

spec fn undo_one<V>(m: Map<u64, V>, u: Undo<V>) -> Map<u64, V> {
    match u.previous {
        Some(v) => m.insert(u.key, v),
        None => m.remove(u.key),
    }
}

/// The container after taking back the insertions, the latest first.
spec fn unwind<V>(m: Map<u64, V>, us: Seq<Undo<V>>) -> Map<u64, V>
    decreases us.len(),
{
    if us.len() == 0 {
        m
    } else {
        unwind(undo_one(m, us.last()), us.drop_last())
    }
}

/// A dispatch in progress: it waits for the reply of the user function of
/// the step at `position()`, run on the container `current()`.
pub struct Dispatch<'h, F, D, V> {
    handler: &'h Handler<F, D>,
    container: DependencyMap<V>,
    pos: usize,
    undo: Vec<Undo<V>>,
    initial: Ghost<Map<u64, V>>,
}

/// Where a dispatch stands after a step.
pub enum Resume<'h, F, D, V, O, E> {
    /// Waiting for the reply of the next step's user function.
    Awaiting(Dispatch<'h, F, D, V>),
    /// Over: `Continue` with the container the dispatch began with, or
    /// `Break` with the output.
    Finished(ControlFlow<O, DependencyMap<V>>),
    /// Over: a fallible step failed with this error.
    Failed(E),
}

impl<'h, F, D, V> Dispatch<'h, F, D, V> {
    #[verifier::type_invariant]
    spec fn well_formed(self) -> bool {
        &&& self.pos < self.handler@.len()
        &&& unwind(self.container@, self.undo@) == self.initial@
    }

    /// The steps of the handler being dispatched.
    pub closed spec fn steps(&self) -> Seq<Step<F, D>> {
        self.handler@
    }

    /// The index of the step whose reply the dispatch waits for.
    pub closed spec fn position(&self) -> nat {
        self.pos as nat
    }

    /// The container that the current step's user function runs on.
    pub closed spec fn current(&self) -> Map<u64, V> {
        self.container@
    }

    /// The container that the dispatch began with.
    pub closed spec fn initial(&self) -> Map<u64, V> {
        self.initial@
    }

    /// The kind of the step whose reply the dispatch waits for.
    pub open spec fn current_kind(&self) -> Kind {
        self.steps()[self.position() as int].kind
    }

    /// The key under which the current step stores the value it produces.
    pub open spec fn current_key(&self) -> Option<u64> {
        produced_key(self.steps()[self.position() as int])
    }

    /// The keys of the values that the current step's user function reads.
    pub open spec fn current_obligations(&self) -> Seq<u64> {
        self.steps()[self.position() as int].signature.obligations@
    }

    /// The container holds a value for every key that the current step's
    /// user function reads: only then can its arguments be injected.
    pub open spec fn dependencies_met(&self) -> bool {
        forall|i: int|
            0 <= i < self.current_obligations().len() ==> #[trigger] self.current().contains_key(
                self.current_obligations()[i],
            )
    }

    /// The effect of `reply` on the current step; `None` where it does not fit.
    pub open spec fn current_effect<O, E>(&self, reply: Reply<V, O, E>) -> Option<Effect<V, O, E>> {
        effect_spec(self.current_kind(), self.current_key(), reply)
    }

    /// The index of the step whose reply the dispatch waits for.
    pub fn step_index(&self) -> (i: usize)
        ensures
            i == self.position(),
            i < self.steps().len(),
    {
        proof {
            use_type_invariant(self);
        }
        self.pos
    }

    /// The step whose reply the dispatch waits for.
    pub fn current_step(&self) -> (s: &Step<F, D>)
        ensures
            self.position() < self.steps().len(),
            *s == self.steps()[self.position() as int],
    {
        proof {
            use_type_invariant(self);
        }
        self.handler.step(self.pos)
    }

    /// The container that the current step's user function runs on.
    pub fn container(&self) -> (c: &DependencyMap<V>)
        ensures
            c@ == self.current(),
    {
        &self.container
    }

    /// Whether `reply` is one that the current step's user function can give.
    pub fn accepts<O, E>(&self, reply: &Reply<V, O, E>) -> (b: bool)
        ensures
            b == self.current_effect(*reply) is Some,
    {
        proof {
            use_type_invariant(self);
        }
        let step = self.handler.step(self.pos);
        fits(step.kind, step.produced_key(), reply)
    }

    /// Takes back every insertion of the dispatch: the container it began with.
    fn restore(self) -> (c: DependencyMap<V>)
        ensures
            c@ == self.initial(),
    {
        proof {
            use_type_invariant(&self);
        }
        let Dispatch { handler: _, container, pos: _, undo, initial } = self;
        let mut container = container;
        let mut undo = undo;
        while undo.len() > 0
            invariant
                unwind(container@, undo@) == initial@,
            decreases undo.len(),
        {
            let ghost before = container@;
            let ghost us = undo@;
            let u = undo.pop().unwrap();
            assert(us.last() == u && us.drop_last() == undo@);
            match u.previous {
                Some(v) => {
                    container.insert(u.key, v);
                },
                None => {
                    container.remove(u.key);
                },
            }
            assert(container@ == undo_one(before, u));
        }
        container
    }
}

/// `r` ends the dispatch by falling through, with the container `initial`.
pub open spec fn finished_unchanged<'h, F, D, V, O, E>(
    r: Resume<'h, F, D, V, O, E>,
    initial: Map<u64, V>,
) -> bool {
    r matches Resume::Finished(ControlFlow::Continue(c)) && c@ == initial
}

/// `r` waits for the step after the one `d` waited for, over the same
/// handler and initial container, with the container `next`.
pub open spec fn advanced<'h, F, D, V, O, E>(
    d: Dispatch<'h, F, D, V>,
    r: Resume<'h, F, D, V, O, E>,
    next: Map<u64, V>,
) -> bool {
    &&& r matches Resume::Awaiting(n)
    &&& n.steps() == d.steps()
    &&& n.position() == d.position() + 1
    &&& n.current() == next
    &&& n.initial() == d.initial()
}

/// What resuming `d` with a reply of effect `eff` gives: the next step where
/// the chain goes on, `Continue` with the initial container where it falls
/// through or runs out of steps, `Break` where an endpoint answered, and the
/// error where a fallible step failed.
pub open spec fn resumed<'h, F, D, V, O, E>(
    d: Dispatch<'h, F, D, V>,
    eff: Effect<V, O, E>,
    r: Resume<'h, F, D, V, O, E>,
) -> bool {
    let last = d.position() + 1 == d.steps().len();
    match eff {
        Effect::Next => if last {
            finished_unchanged(r, d.initial())
        } else {
            advanced(d, r, d.current())
        },
        Effect::Insert(k, v) => if last {
            finished_unchanged(r, d.initial())
        } else {
            advanced(d, r, d.current().insert(k, v))
        },
        Effect::Pass => finished_unchanged(r, d.initial()),
        Effect::Output(o) => r == Resume::<'h, F, D, V, O, E>::Finished(ControlFlow::Break(o)),
        Effect::Fail(e) => r == Resume::<'h, F, D, V, O, E>::Failed(e),
    }
}

proof fn lemma_unwind_insert<V>(m: Map<u64, V>, us: Seq<Undo<V>>, k: u64, v: V, u: Undo<V>)
    requires
        u.key == k,
        u.previous == (if m.contains_key(k) {
            Some(m[k])
        } else {
            None::<V>
        }),
    ensures
        unwind(m.insert(k, v), us.push(u)) == unwind(m, us),
{
    assert(us.push(u).last() == u);
    assert(us.push(u).drop_last() =~= us);
    assert(undo_one(m.insert(k, v), u) =~= m);
}

impl<'h, F, D, V> Dispatch<'h, F, D, V> {
    /// Moves on past the current step: to the next one, or, after the last,
    /// to the end, falling through with the initial container.
    fn advance<O, E>(self) -> (r: Resume<'h, F, D, V, O, E>)
        ensures
            if self.position() + 1 == self.steps().len() {
                finished_unchanged(r, self.initial())
            } else {
                advanced(self, r, self.current())
            },
    {
        proof {
            use_type_invariant(&self);
        }
        if self.pos < self.handler.len() - 1 {
            let Dispatch { handler, container, pos, undo, initial } = self;
            Resume::Awaiting(Dispatch { handler, container, pos: pos + 1, undo, initial })
        } else {
            Resume::Finished(ControlFlow::Continue(self.restore()))
        }
    }

    /// Hands the dispatch the reply of the current step's user function and
    /// decides what comes next.
    ///
    /// The reply must come from running the user function on its arguments,
    /// so every value that the function reads must be in the container.
    pub fn resume<O, E>(self, reply: Reply<V, O, E>) -> (r: Resume<'h, F, D, V, O, E>)
        requires
            self.dependencies_met(),
            self.current_effect(reply) is Some,
        ensures
            resumed(self, self.current_effect(reply).unwrap(), r),
    {
        proof {
            use_type_invariant(&self);
        }
        let step = self.handler.step(self.pos);
        let eff = effect_of(step.kind, step.produced_key(), reply).unwrap();
        match eff {
            Effect::Next => self.advance(),
            Effect::Insert(key, value) => {
                let Dispatch { handler, container, pos, undo, initial } = self;
                let mut container = container;
                let mut undo = undo;
                let ghost before = container@;
                let previous = container.insert(key, value);
                let u = Undo { key, previous };
                proof {
                    lemma_unwind_insert(before, undo@, key, value, u);
                }
                undo.push(u);
                let next = Dispatch { handler, container, pos, undo, initial };
                next.advance()
            },
            Effect::Pass => Resume::Finished(ControlFlow::Continue(self.restore())),
            Effect::Output(o) => Resume::Finished(ControlFlow::Break(o)),
            Effect::Fail(e) => Resume::Failed(e),
        }
    }
}

impl<'h, F, D, V> Dispatch<'h, F, D, V> {
    /// [`Dispatch::resume`] for a fallible output: a failed step ends the
    /// dispatch at once with `ControlFlow::Break` of the output built from
    /// its error, as the fallible handlers do.
    pub fn resume_fallible<O: Fallible>(self, reply: Reply<V, O, O::Error>) -> (r: Resume<
        'h,
        F,
        D,
        V,
        O,
        O::Error,
    >)
        requires
            self.dependencies_met(),
            self.current_effect(reply) is Some,
        ensures
            match self.current_effect(reply).unwrap() {
                Effect::Fail(e) => r matches Resume::Finished(ControlFlow::Break(o)) && call_ensures(
                    O::from_error,
                    (e,),
                    o,
                ),
                eff => resumed(self, eff, r),
            },
    {
        self.resume(reply).settle()
    }

    /// The arguments of the current step's user function: the values stored
    /// under its obligations, in order; `None` where one of them is missing
    /// from the container.
    pub fn injected(&self) -> (args: Option<Vec<&V>>)
        ensures
            args is Some <==> self.dependencies_met(),
            args matches Some(a) ==> {
                &&& a@.len() == self.current_obligations().len()
                &&& forall|i: int|
                    0 <= i < a@.len() ==> *#[trigger] a@[i] == self.current()[self.current_obligations()[i]]
            },
    {
        proof {
            use_type_invariant(self);
        }
        let needs = &self.handler.step(self.pos).signature.obligations;
        let mut args: Vec<&V> = Vec::new();
        let mut i: usize = 0;
        while i < needs.len()
            invariant
                i <= needs@.len(),
                needs@ == self.current_obligations(),
                args@.len() == i,
                forall|j: int| 0 <= j < i ==> #[trigger] self.current().contains_key(needs@[j]),
                forall|j: int| 0 <= j < i ==> *#[trigger] args@[j] == self.current()[needs@[j]],
            decreases needs@.len() - i,
        {
            match self.container.get(needs[i]) {
                Some(v) => {
                    args.push(v);
                },
                None => {
                    assert(!self.current().contains_key(self.current_obligations()[i as int]));
                    return None;
                },
            }
            i = i + 1;
        }
        Some(args)
    }

    /// Whether the container holds a value for every key that the current
    /// step's user function reads.
    pub fn dependencies_present(&self) -> (b: bool)
        ensures
            b == self.dependencies_met(),
    {
        self.injected().is_some()
    }
}

impl<'h, F, D, V, O: Fallible> Resume<'h, F, D, V, O, O::Error> {
    /// Ends a failed dispatch the way the fallible handlers do: with
    /// `ControlFlow::Break` of the output built from the error.
    /// Anything else is handed back unchanged.
    pub fn settle(self) -> (r: Self)
        ensures
            match self {
                Resume::Failed(e) => r matches Resume::Finished(ControlFlow::Break(o)) && call_ensures(
                    O::from_error,
                    (e,),
                    o,
                ),
                _ => r == self,
            },
    {
        match self {
            Resume::Failed(err) => Resume::Finished(ControlFlow::Break(O::from_error(err))),
            other => other,
        }
    }
}

impl<F, D> Handler<F, D> {
    /// Starts dispatching `self` over `container`: waits for the first step,
    /// or, for a handler without steps, falls through at once.
    pub fn dispatch<'h, V, O, E>(&'h self, container: DependencyMap<V>) -> (r: Resume<
        'h,
        F,
        D,
        V,
        O,
        E,
    >)
        ensures
            if self@.len() == 0 {
                finished_unchanged(r, container@)
            } else {
                &&& r matches Resume::Awaiting(d)
                &&& d.steps() == self@
                &&& d.position() == 0
                &&& d.current() == container@
                &&& d.initial() == container@
            },
    {
        if self.len() == 0 {
            Resume::Finished(ControlFlow::Continue(container))
        } else {
            let ghost initial = container@;
            let undo: Vec<Undo<V>> = Vec::new();
            Resume::Awaiting(Dispatch { handler: self, container, pos: 0, undo, initial: Ghost(initial) })
        }
    }
}

/// Falling through gives the container back unchanged: whatever the reply, a
/// step that ends the dispatch with `ControlFlow::Continue` hands back the
/// container the dispatch began with, every value its steps stored taken out
/// again; and a step that goes on keeps that initial container on record.
pub proof fn fall_through_law<'h, F, D, V, O, E>(
    d: Dispatch<'h, F, D, V>,
    eff: Effect<V, O, E>,
    r: Resume<'h, F, D, V, O, E>,
)
    requires
        resumed(d, eff, r),
    ensures
        r matches Resume::Finished(ControlFlow::Continue(c)) ==> c@ == d.initial(),
        r matches Resume::Awaiting(n) ==> n.initial() == d.initial() && n.steps() == d.steps(),
        (eff is Output || eff is Fail) ==> !(r matches Resume::Finished(ControlFlow::Continue(_))),
{
}

} // verus!
