use std::future::Future;
use std::ops::ControlFlow;
use std::pin::Pin;
use std::sync::Arc;
use std::task::{Context, Poll, Wake, Waker};

use dptree::dispatch::{Reply, Resume};
use dptree::handler::{Handler, Kind};
use dptree::try_filter::{try_filter, try_filter_async, try_filter_with_description};
use dptree::try_map::{try_map, try_map_async, try_map_async_with_description};
use dptree::{DependencyMap, HandlerDescription};

type Out = Result<i32, &'static str>;
type Container = DependencyMap<i32>;

/// The key under which the container stores an `i32`.
const I32: u64 = 1;

type Fut<T> = Pin<Box<dyn Future<Output = T>>>;

enum Func {
    Pred(fn(&Container) -> Result<bool, &'static str>),
    AsyncPred(fn(&Container) -> Fut<Result<bool, &'static str>>),
    Proj(fn(&Container) -> Result<i32, &'static str>),
    AsyncProj(fn(&Container) -> Fut<Result<i32, &'static str>>),
    End(fn(&Container) -> Out),
}

struct NoWake;

impl Wake for NoWake {
    fn wake(self: Arc<Self>) {}
}

/// Polls a future to completion on this thread.
fn block_on<T>(mut fut: Fut<T>) -> T {
    let waker = Waker::from(Arc::new(NoWake));
    let mut cx = Context::from_waker(&waker);
    loop {
        if let Poll::Ready(v) = fut.as_mut().poll(&mut cx) {
            return v;
        }
    }
}

/// Descriptions that name the constructor that made the step.
#[derive(Debug, PartialEq)]
enum Descr {
    Default(&'static str),
    Named(&'static str),
}

impl HandlerDescription for Descr {
    fn filter() -> Self {
        Descr::Default("filter")
    }
    fn filter_async() -> Self {
        Descr::Default("filter_async")
    }
    fn filter_map() -> Self {
        Descr::Default("filter_map")
    }
    fn filter_map_async() -> Self {
        Descr::Default("filter_map_async")
    }
    fn map() -> Self {
        Descr::Default("map")
    }
    fn map_async() -> Self {
        Descr::Default("map_async")
    }
    fn inspect() -> Self {
        Descr::Default("inspect")
    }
    fn inspect_async() -> Self {
        Descr::Default("inspect_async")
    }
    fn endpoint() -> Self {
        Descr::Default("endpoint")
    }
    fn try_filter() -> Self {
        Descr::Default("try_filter")
    }
    fn try_filter_async() -> Self {
        Descr::Default("try_filter_async")
    }
    fn try_filter_map() -> Self {
        Descr::Default("try_filter_map")
    }
    fn try_filter_map_async() -> Self {
        Descr::Default("try_filter_map_async")
    }
    fn try_map() -> Self {
        Descr::Default("try_map")
    }
    fn try_map_async() -> Self {
        Descr::Default("try_map_async")
    }
}

fn run(h: &Handler<Func, Descr>, c: Container) -> ControlFlow<Out, Container> {
    let mut r = h.dispatch::<i32, Out, &'static str>(c);
    loop {
        r = match r {
            Resume::Awaiting(d) => {
                let step = d.current_step();
                let reply = match (&step.function, step.asynchronous) {
                    (Func::Pred(f), false) => Reply::TryPred(f(d.container())),
                    (Func::AsyncPred(f), true) => Reply::TryPred(block_on(f(d.container()))),
                    (Func::Proj(f), false) => Reply::TryValue(f(d.container())),
                    (Func::AsyncProj(f), true) => Reply::TryValue(block_on(f(d.container()))),
                    (Func::End(f), true) => Reply::Output(f(d.container())),
                    _ => panic!("the function does not match its step"),
                };
                assert!(d.dependencies_present());
                assert!(d.accepts(&reply));
                d.resume(reply)
            }
            other => match other.settle() {
                Resume::Finished(cf) => return cf,
                _ => unreachable!(),
            },
        }
    }
}

fn with_value(v: i32) -> Container {
    let mut m = DependencyMap::new();
    m.insert(I32, v);
    m
}

fn event(c: &Container) -> i32 {
    *c.get(I32).unwrap()
}

#[test]
fn ok_true_continues_to_endpoint() {
    let h = try_filter(
        Func::Pred(|c| {
            assert_eq!(event(c), 5);
            Ok(true)
        }),
        vec![I32],
    )
    .endpoint(Func::End(|_| Ok(7)), vec![]);
    match run(&h, with_value(5)) {
        ControlFlow::Break(out) => assert_eq!(out, Ok(7)),
        ControlFlow::Continue(_) => panic!("expected Break"),
    }
}

#[test]
fn ok_false_continues_to_next_branch() {
    let h = try_filter(Func::Pred(|_| Ok(false)), vec![]).endpoint(Func::End(|_| unreachable!()), vec![]);
    match run(&h, DependencyMap::new()) {
        ControlFlow::Continue(c) => assert_eq!(c.len(), 0),
        ControlFlow::Break(_) => panic!("expected Continue"),
    }
}

#[test]
fn try_filter_err_short_circuits_past_endpoint() {
    let h = try_filter(Func::Pred(|_| Err("nope")), vec![]).endpoint(Func::End(|_| unreachable!()), vec![]);
    match run(&h, DependencyMap::new()) {
        ControlFlow::Break(out) => assert_eq!(out, Err("nope")),
        ControlFlow::Continue(_) => panic!("expected Break"),
    }
}

#[test]
fn try_filter_async_variant() {
    let h = try_filter_async(
        Func::AsyncPred(|c| {
            let event = event(c);
            Box::pin(async move {
                assert_eq!(event, 5);
                Ok(event > 0)
            })
        }),
        vec![I32],
    )
    .endpoint(Func::End(|_| Ok(7)), vec![]);
    assert!(h.step(0).asynchronous);
    assert!(h.step(0).kind == Kind::TryFilter);
    match run(&h, with_value(5)) {
        ControlFlow::Break(out) => assert_eq!(out, Ok(7)),
        ControlFlow::Continue(_) => panic!("expected Break"),
    }
}

#[test]
fn ok_inserts_and_continues() {
    let h = try_map(Func::Proj(|_| Ok(123)), vec![], I32).endpoint(
        Func::End(|c| {
            assert_eq!(event(c), 123);
            Ok(event(c))
        }),
        vec![I32],
    );
    match run(&h, DependencyMap::new()) {
        ControlFlow::Break(out) => assert_eq!(out, Ok(123)),
        ControlFlow::Continue(_) => panic!("expected Break"),
    }
}

#[test]
fn try_map_err_short_circuits_past_endpoint() {
    let h = try_map(Func::Proj(|_| Err("nope")), vec![], I32).endpoint(Func::End(|_| unreachable!()), vec![]);
    match run(&h, DependencyMap::new()) {
        ControlFlow::Break(out) => assert_eq!(out, Err("nope")),
        ControlFlow::Continue(_) => panic!("expected Break"),
    }
}

#[test]
fn try_map_async_variant() {
    let h = try_map_async(Func::AsyncProj(|_| Box::pin(async { Ok(123) })), vec![], I32).endpoint(Func::End(|c| Ok(event(c))), vec![I32]);
    assert!(h.step(0).asynchronous);
    assert!(h.step(0).kind == Kind::TryMap);
    match run(&h, DependencyMap::new()) {
        ControlFlow::Break(out) => assert_eq!(out, Ok(123)),
        ControlFlow::Continue(_) => panic!("expected Break"),
    }
}

#[test]
fn try_map_replaces_then_falls_through_with_the_original_container() {
    // The projection replaces the stored `i32`; the filter after it sees the
    // new value and falls through; the container comes back as it went in.
    let h = try_map(Func::Proj(|c| Ok(event(c) + 1)), vec![I32], I32)
        .try_filter(
            Func::Pred(|c| {
                assert_eq!(event(c), 2);
                Ok(false)
            }),
            vec![I32],
        )
        .endpoint(Func::End(|_| unreachable!()), vec![]);
    match run(&h, with_value(1)) {
        ControlFlow::Continue(c) => {
            assert_eq!(c.len(), 1);
            assert_eq!(event(&c), 1);
        }
        ControlFlow::Break(_) => panic!("expected Continue"),
    }
}

#[test]
fn try_map_new_key_is_taken_back_after_the_last_step() {
    let h: Handler<Func, Descr> = try_map(Func::Proj(|_| Ok(70)), vec![], 7);
    match run(&h, with_value(1)) {
        ControlFlow::Continue(c) => {
            assert_eq!(c.len(), 1);
            assert!(!c.contains(7));
            assert_eq!(event(&c), 1);
        }
        ControlFlow::Break(_) => panic!("expected Continue"),
    }
}

#[test]
fn descriptions_are_kept() {
    let h: Handler<Func, Descr> =
        try_filter_with_description(Descr::Named("checks"), Func::Pred(|_| Ok(true)), vec![I32]).chain(
            try_map_async_with_description(
                Descr::Named("loads"),
                Func::AsyncProj(|_| Box::pin(async { Ok(1) })),
                vec![2, 3],
                I32,
            ),
        );
    assert_eq!(h.len(), 2);
    assert_eq!(h.step(0).description, Descr::Named("checks"));
    assert!(!h.step(0).asynchronous);
    assert_eq!(h.step(1).description, Descr::Named("loads"));
    assert!(h.step(1).asynchronous);
    assert!(h.step(1).kind == Kind::TryMap);
    // The signatures: what each step reads, what it stores, whether it goes on.
    let filter_sig = &h.step(0).signature;
    assert_eq!(filter_sig.obligations, vec![I32]);
    assert!(filter_sig.guaranteed_outcomes.is_empty());
    assert!(filter_sig.conditional_outcomes.is_empty());
    assert!(filter_sig.continues);
    let map_sig = &h.step(1).signature;
    assert_eq!(map_sig.obligations, vec![2, 3]);
    assert_eq!(map_sig.guaranteed_outcomes, vec![I32]);
    assert!(map_sig.conditional_outcomes.is_empty());
    assert!(map_sig.continues);
    assert_eq!(h.step(1).produced_key(), Some(I32));
    assert_eq!(h.step(0).produced_key(), None);
}

#[test]
fn default_descriptions_name_the_constructor() {
    let h: Handler<Func, Descr> = try_filter(Func::Pred(|_| Ok(true)), vec![])
        .chain(try_filter_async(Func::AsyncPred(|_| Box::pin(async { Ok(true) })), vec![]))
        .chain(try_map(Func::Proj(|_| Ok(1)), vec![], I32))
        .chain(try_map_async(Func::AsyncProj(|_| Box::pin(async { Ok(1) })), vec![], I32))
        .map(Func::Proj(|_| Ok(1)), vec![], I32)
        .endpoint(Func::End(|_| Ok(0)), vec![]);
    let names = ["try_filter", "try_filter_async", "try_map", "try_map_async", "map", "endpoint"];
    assert_eq!(h.len(), names.len());
    for (i, name) in names.iter().enumerate() {
        assert_eq!(h.step(i).description, Descr::Default(name));
    }
}

#[test]
fn arguments_are_injected_in_order() {
    let h: Handler<Func, Descr> = try_filter(Func::Pred(|_| Ok(true)), vec![9, I32]);
    let mut c = with_value(5);
    c.insert(9, 90);
    match h.dispatch::<i32, Out, &'static str>(c) {
        Resume::Awaiting(d) => {
            let args = d.injected().expect("all dependencies are present");
            assert_eq!(args, vec![&90, &5]);
        }
        _ => panic!("expected a step"),
    }
    match h.dispatch::<i32, Out, &'static str>(with_value(5)) {
        Resume::Awaiting(d) => {
            assert!(d.injected().is_none());
            assert!(!d.dependencies_present());
        }
        _ => panic!("expected a step"),
    }
}
