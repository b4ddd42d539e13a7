//! Handlers: chains of steps, each step a user function of a given kind.
use vstd::prelude::*;

verus! {

/// What a step does with the result of its user function.
#[derive(PartialEq, Eq, Structural, Clone, Copy, Debug)]
pub enum Kind {
    /// A predicate: `true` goes on, `false` falls through.
    Filter,
    /// A projection to `Option`: `Some(v)` stores `v` and goes on, `None` falls through.
    FilterMap,
    /// A projection: its value is stored and the chain goes on.
    Mapping,
    /// An inspection: its result is dropped and the chain goes on.
    Inspect,
    /// An endpoint: its value ends the dispatch as the output.
    Endpoint,
    /// A fallible predicate: `Ok(true)` goes on, `Ok(false)` falls through,
    /// `Err(e)` ends the dispatch with the error as the output.
    TryFilter,
    /// A fallible projection to `Option`: `Ok(Some(v))` stores `v` and goes on,
    /// `Ok(None)` falls through, `Err(e)` ends the dispatch with the error.
    TryFilterMap,
    /// A fallible projection: `Ok(v)` stores `v` and goes on, `Err(e)` ends the
    /// dispatch with the error.
    TryMap,
}

/// What a step needs and what it guarantees, for checking a chain before it
/// runs.
///
/// `obligations` are the keys of the values that the user function reads from
/// the container; `guaranteed_outcomes` the keys of the values stored whenever
/// the step goes on; `conditional_outcomes` the keys of the values stored
/// when it goes on with a value; `continues` whether the step may go on to
/// the rest of the chain at all.
pub struct Signature {
    pub obligations: Vec<u64>,
    pub guaranteed_outcomes: Vec<u64>,
    pub conditional_outcomes: Vec<u64>,
    pub continues: bool,
}

/// One link of a handler chain.
///
/// `function` is the caller's handle on the user function that the step runs;
/// `asynchronous` says whether that function returns a future to be awaited;
/// `description` is the description given at construction, or the default
/// that the description type has for the constructor;
/// `signature` what the step needs and guarantees.
pub struct Step<F, D> {
    pub kind: Kind,
    pub asynchronous: bool,
    pub function: F,
    pub description: D,
    pub signature: Signature,
}

/// A chain of steps that a dispatch walks in order.
pub struct Handler<F, D> {
    steps: Vec<Step<F, D>>,
}

impl<F, D> View for Handler<F, D> {
    type V = Seq<Step<F, D>>;

    closed spec fn view(&self) -> Seq<Step<F, D>> {
        self.steps@
    }
}

/// Whether steps of this kind store a value whenever they go on.
pub open spec fn always_stores(kind: Kind) -> bool {
    kind == Kind::Mapping || kind == Kind::TryMap
}

/// Whether steps of this kind store a value only when they go on with one.
pub open spec fn may_store(kind: Kind) -> bool {
    kind == Kind::FilterMap || kind == Kind::TryFilterMap
}

/// `s` is the step that a constructor builds from these arguments (its
/// description aside): a step of
/// `kind` whose signature needs `obligations`, guarantees `outcome` where the
/// kind always stores a value, has it as a conditional outcome where the kind
/// may store one, and continues unless it is an endpoint.
pub open spec fn built<F, D>(
    s: Step<F, D>,
    kind: Kind,
    asynchronous: bool,
    function: F,
    obligations: Seq<u64>,
    outcome: u64,
) -> bool {
    &&& s.kind == kind
    &&& s.asynchronous == asynchronous
    &&& s.function == function
    &&& s.signature.obligations@ == obligations
    &&& s.signature.guaranteed_outcomes@ == (if always_stores(kind) {
        seq![outcome]
    } else {
        Seq::<u64>::empty()
    })
    &&& s.signature.conditional_outcomes@ == (if may_store(kind) {
        seq![outcome]
    } else {
        Seq::<u64>::empty()
    })
    &&& s.signature.continues == (kind != Kind::Endpoint)
}

/// The key under which a step stores the value its user function produces:
/// its guaranteed or conditional outcome, by its kind.
pub open spec fn produced_key<F, D>(s: Step<F, D>) -> Option<u64> {
    if always_stores(s.kind) && s.signature.guaranteed_outcomes@.len() > 0 {
        Some(s.signature.guaranteed_outcomes@[0])
    } else if may_store(s.kind) && s.signature.conditional_outcomes@.len() > 0 {
        Some(s.signature.conditional_outcomes@[0])
    } else {
        None
    }
}

impl<F, D> Step<F, D> {
    /// The key under which this step stores the value its function produces.
    pub fn produced_key(&self) -> (k: Option<u64>)
        ensures
            k == produced_key(*self),
    {
        let stores = match self.kind {
            Kind::Mapping | Kind::TryMap => 1u8,
            Kind::FilterMap | Kind::TryFilterMap => 2u8,
            _ => 0u8,
        };
        if stores == 1 && self.signature.guaranteed_outcomes.len() > 0 {
            Some(self.signature.guaranteed_outcomes[0])
        } else if stores == 2 && self.signature.conditional_outcomes.len() > 0 {
            Some(self.signature.conditional_outcomes[0])
        } else {
            None
        }
    }
}

/// A handler made of a single step, built from these arguments (see
/// [`built`]); `outcome` matters only for kinds that store a value.
pub(crate) fn single<F, D>(
    kind: Kind,
    asynchronous: bool,
    function: F,
    description: D,
    obligations: Vec<u64>,
    outcome: u64,
) -> (h: Handler<F, D>)
    ensures
        h@.len() == 1,
        built(h@[0], kind, asynchronous, function, obligations@, outcome),
        h@[0].description == description,
        produced_key(h@[0]) == (if always_stores(kind) || may_store(kind) {
            Some(outcome)
        } else {
            None::<u64>
        }),
{
    let mut guaranteed_outcomes: Vec<u64> = Vec::new();
    let mut conditional_outcomes: Vec<u64> = Vec::new();
    match kind {
        Kind::Mapping | Kind::TryMap => guaranteed_outcomes.push(outcome),
        Kind::FilterMap | Kind::TryFilterMap => conditional_outcomes.push(outcome),
        _ => {},
    }
    let continues = match kind {
        Kind::Endpoint => false,
        _ => true,
    };
    let signature = Signature { obligations, guaranteed_outcomes, conditional_outcomes, continues };
    let mut steps: Vec<Step<F, D>> = Vec::new();
    steps.push(Step { kind, asynchronous, function, description, signature });
    Handler { steps }
}

/// The handler that passes every input on unchanged: the identity of `chain`.
pub fn entry<F, D>() -> (h: Handler<F, D>)
    ensures
        h@ == Seq::<Step<F, D>>::empty(),
{
    Handler { steps: Vec::new() }
}

impl<F, D> Handler<F, D> {
    /// Chains `self` with `next`: a dispatch runs the steps of `self`, then,
    /// where they go on, those of `next`.
    pub fn chain(self, next: Handler<F, D>) -> (h: Handler<F, D>)
        ensures
            h@ == self@ + next@,
    {
        let mut steps = self.steps;
        let mut rest = next.steps;
        steps.append(&mut rest);
        Handler { steps }
    }

    /// The number of steps.
    pub fn len(&self) -> (n: usize)
        ensures
            n == self@.len(),
    {
        self.steps.len()
    }

    /// The step at `index`.
    pub fn step(&self, index: usize) -> (s: &Step<F, D>)
        requires
            index < self@.len(),
        ensures
            *s == self@[index as int],
    {
        &self.steps[index]
    }
}

/// `chain` is associative: where `ab` is `a.chain(b)`, `abc` is
/// `ab.chain(c)`, `bc` is `b.chain(c)` and `a_bc` is `a.chain(bc)`, the two
/// bracketings run the same steps.
pub proof fn chain_associative<F, D>(
    a: Handler<F, D>,
    b: Handler<F, D>,
    c: Handler<F, D>,
    ab: Handler<F, D>,
    abc: Handler<F, D>,
    bc: Handler<F, D>,
    a_bc: Handler<F, D>,
)
    requires
        ab@ == a@ + b@,
        abc@ == ab@ + c@,
        bc@ == b@ + c@,
        a_bc@ == a@ + bc@,
    ensures
        abc@ == a_bc@,
{
    assert(abc@ =~= a_bc@);
}

/// `entry()` is a neutral element of `chain` on both sides: where `e` is
/// `entry()`, `e.chain(a)` and `a.chain(e)` run the steps of `a`.
pub proof fn entry_is_neutral<F, D>(
    a: Handler<F, D>,
    e: Handler<F, D>,
    ea: Handler<F, D>,
    ae: Handler<F, D>,
)
    requires
        e@ == Seq::<Step<F, D>>::empty(),
        ea@ == e@ + a@,
        ae@ == a@ + e@,
    ensures
        ea@ == a@,
        ae@ == a@,
{
    assert(ea@ =~= a@);
    assert(ae@ =~= a@);
}

} // verus!
