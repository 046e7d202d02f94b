use actix_net::poll::Poll;
use actix_net::service::and_then::{
    poll_ready_first, poll_ready_second, AndThen, AndThenFuture, AndThenNewService,
    AndThenNewServiceFuture, ChainStep, FirstReady,
};
use actix_net::service::and_then_apply::{AndThenTransform, AndThenTransformFuture};
use actix_net::service::and_then_apply_fn::{
    AndThenApply, AndThenApplyFuture, AndThenApplyNewService, AndThenApplyNewServiceFuture,
};
use std::cell::Cell;
use std::rc::Rc;

/// A service that counts how often its readiness is checked and answers with
/// its request.
struct Srv1(Rc<Cell<usize>>);

impl Srv1 {
    fn poll_ready(&mut self) -> Poll<Result<(), ()>> {
        self.0.set(self.0.get() + 1);
        Poll::Ready(Ok(()))
    }
    fn call(&mut self, req: &'static str) -> Poll<Result<&'static str, ()>> {
        Poll::Ready(Ok(req))
    }
}

/// A service that counts how often its readiness is checked and answers with
/// its request and "srv2".
#[derive(Clone)]
struct Srv2(Rc<Cell<usize>>);

impl Srv2 {
    fn poll_ready(&mut self) -> Poll<Result<(), ()>> {
        self.0.set(self.0.get() + 1);
        Poll::Ready(Ok(()))
    }
    fn call(&mut self, req: &'static str) -> Poll<Result<(&'static str, &'static str), ()>> {
        Poll::Ready(Ok((req, "srv2")))
    }
}

fn and_then_ready(srv: &mut AndThen<Srv1, Srv2>) -> Poll<Result<(), ()>> {
    let first = srv.first_mut().poll_ready();
    match poll_ready_first(first) {
        FirstReady::Done(p) => p,
        FirstReady::PollSecond { first_ready } => {
            let second = srv.second_mut().poll_ready();
            poll_ready_second(first_ready, second)
        }
    }
}

fn and_then_call(
    srv: &mut AndThen<Srv1, Srv2>,
    req: &'static str,
) -> Poll<Result<(&'static str, &'static str), ()>> {
    let mut fut = AndThenFuture::new();
    let first = srv.first_mut().call(req);
    match fut.on_first::<&'static str, (&'static str, &'static str), ()>(first) {
        ChainStep::CallSecond(resp) => {
            assert!(fut.is_second());
            srv.second_mut().call(resp)
        }
        ChainStep::Return(p) => p,
    }
}

#[test]
fn test_poll_ready() {
    let cnt = Rc::new(Cell::new(0));
    let mut srv = AndThen::new(Srv1(cnt.clone()), Srv2(cnt.clone()));
    let res = and_then_ready(&mut srv);
    assert!(matches!(res, Poll::Ready(Ok(()))));
    assert_eq!(cnt.get(), 2);
}

#[test]
fn and_then_test_call() {
    let cnt = Rc::new(Cell::new(0));
    let mut srv = AndThen::new(Srv1(cnt.clone()), Srv2(cnt));
    let res = and_then_call(&mut srv, "srv1");
    assert!(matches!(res, Poll::Ready(Ok(_))));
    match res {
        Poll::Ready(Ok(v)) => assert_eq!(v, ("srv1", "srv2")),
        _ => unreachable!(),
    }
}

#[test]
fn and_then_test_new_service() {
    let cnt = Rc::new(Cell::new(0));
    let cnt2 = cnt.clone();
    let blank = move || Poll::Ready(Ok::<_, ()>(Srv1(cnt2.clone())));
    let factory = AndThenNewService::new(blank, move || Poll::Ready(Ok::<_, ()>(Srv2(cnt.clone()))));
    let mut fut = AndThenNewServiceFuture::new();
    assert!(fut.needs_first() && fut.needs_second());
    assert!(fut.on_first((factory.first_ref())()).is_ok());
    assert!(fut.on_second((factory.second_ref())()).is_ok());
    let mut srv = match fut.finish() {
        Poll::Ready(s) => s,
        Poll::Pending => panic!(),
    };
    let res = and_then_call(&mut srv, "srv1");
    match res {
        Poll::Ready(Ok(v)) => assert_eq!(v, ("srv1", "srv2")),
        _ => panic!(),
    }
}

#[test]
fn and_then_first_error_skips_second() {
    let cnt = Rc::new(Cell::new(0));
    let mut srv = AndThen::new(Srv1(cnt.clone()), Srv2(cnt.clone()));
    let first: Poll<Result<(), ()>> = Poll::Ready(Err(()));
    match poll_ready_first(first) {
        FirstReady::Done(Poll::Ready(Err(()))) => {}
        _ => panic!(),
    }
    let mut fut = AndThenFuture::new();
    match fut.on_first::<&str, (), u8>(Poll::Ready(Err(7))) {
        ChainStep::Return(Poll::Ready(Err(7))) => {}
        _ => panic!(),
    }
    assert!(!fut.is_second());
    assert_eq!(cnt.get(), 0);
    let _ = srv.first_mut();
}

#[test]
fn and_then_pending_first_still_polls_second() {
    match poll_ready_first::<()>(Poll::Pending) {
        FirstReady::PollSecond { first_ready: false } => {}
        _ => panic!(),
    }
    assert!(matches!(poll_ready_second::<()>(false, Poll::Ready(Ok(()))), Poll::Pending));
    assert!(matches!(poll_ready_second::<u8>(false, Poll::Ready(Err(3))), Poll::Ready(Err(3))));
    assert!(matches!(poll_ready_second::<u8>(true, Poll::Pending), Poll::Pending));
}

/// The service whose readiness check fails but whose calls succeed.
#[derive(Clone)]
struct FailingReady;

impl FailingReady {
    fn poll_ready(&mut self) -> Poll<Result<(), ()>> {
        Poll::Ready(Err(()))
    }
    fn call(&mut self, _: ()) -> Result<(), ()> {
        Ok(())
    }
}

/// The service that is always ready and answers `()`.
#[derive(Clone)]
struct Srv;

impl Srv {
    fn poll_ready(&mut self) -> Poll<Result<(), ()>> {
        Poll::Ready(Ok(()))
    }
    fn call(&mut self, _: ()) -> Result<(), ()> {
        Ok(())
    }
}

fn blank(req: &'static str) -> Poll<Result<&'static str, ()>> {
    Poll::Ready(Ok(req))
}

fn apply_ready<B, F>(srv: &mut AndThenApply<(), B, F>, second: impl Fn(&mut B) -> Poll<Result<(), ()>>) -> Poll<Result<(), ()>> {
    let _ = srv.first_mut();
    match poll_ready_first::<()>(Poll::Ready(Ok(()))) {
        FirstReady::Done(p) => p,
        FirstReady::PollSecond { first_ready } => {
            let (b, _f) = srv.second_and_function_mut();
            AndThenApply::<(), B, F>::poll_ready_second(first_ready, second(b))
        }
    }
}

fn apply_call<B, F>(srv: &mut AndThenApply<(), B, F>, req: &'static str) -> Poll<Result<(&'static str, ()), ()>>
where
    F: FnMut(&'static str, &mut B) -> Result<(&'static str, ()), ()>,
{
    let mut fut = AndThenApplyFuture::new();
    match fut.on_first::<&'static str, (&'static str, ()), ()>(blank(req)) {
        ChainStep::CallSecond(resp) => {
            let (b, f) = srv.second_and_function_mut();
            Poll::Ready(f(resp, b))
        }
        ChainStep::Return(p) => p,
    }
}

#[test]
fn test_apply() {
    let mut srv = AndThenApply::new((), FailingReady, |req: &'static str, srv: &mut FailingReady| {
        srv.call(()).map(move |res| (req, res))
    });
    assert!(matches!(apply_ready(&mut srv, |b| b.poll_ready()), Poll::Ready(Ok(()))));
    let res = apply_call(&mut srv, "srv");
    match res {
        Poll::Ready(Ok(v)) => assert_eq!(v, ("srv", ())),
        _ => panic!(),
    }
}

#[test]
fn and_then_apply_test_new_service() {
    let factory = AndThenApplyNewService::new(
        || Ok::<(), ()>(()),
        || Ok::<_, ()>(FailingReady),
        |req: &'static str, srv: &mut FailingReady| srv.call(()).map(move |res| (req, res)),
    );
    let mut fut = AndThenApplyNewServiceFuture::new(*factory.function_ref());
    assert!(fut.on_first(Poll::Ready((factory.first_ref())())).is_ok());
    assert!(fut.on_second(Poll::Ready((factory.second_ref())())).is_ok());
    if let Poll::Ready(mut srv) = fut.finish() {
        assert!(matches!(apply_ready(&mut srv, |b| b.poll_ready()), Poll::Ready(Ok(()))));
        let res = apply_call(&mut srv, "srv");
        match res {
            Poll::Ready(Ok(v)) => assert_eq!(v, ("srv", ())),
            _ => panic!(),
        }
    } else {
        panic!()
    }
}

#[test]
fn and_then_apply_fn_test_call() {
    let mut srv = AndThenApply::new((), Srv, |req: &'static str, srv: &mut Srv| srv.call(()).map(move |res| (req, res)));
    assert!(matches!(apply_ready(&mut srv, |b| b.poll_ready()), Poll::Ready(Ok(()))));
    let res = apply_call(&mut srv, "srv");
    match res {
        Poll::Ready(Ok(v)) => assert_eq!(v, ("srv", ())),
        _ => panic!(),
    }
}

#[test]
fn and_then_apply_fn_test_new_service() {
    let factory = AndThenApplyNewService::new(
        || Ok::<(), ()>(()),
        || Ok::<_, ()>(Srv),
        |req: &'static str, srv: &mut Srv| srv.call(()).map(move |res| (req, res)),
    );
    let mut fut = AndThenApplyNewServiceFuture::new(*factory.function_ref());
    assert!(fut.needs_first() && fut.needs_second());
    assert!(fut.on_first(Poll::Ready((factory.first_ref())())).is_ok());
    assert!(matches!(fut.finish(), Poll::Pending));
    assert!(fut.on_second(Poll::Ready((factory.second_ref())())).is_ok());
    if let Poll::Ready(mut srv) = fut.finish() {
        assert!(matches!(apply_ready(&mut srv, |b| b.poll_ready()), Poll::Ready(Ok(()))));
        let res = apply_call(&mut srv, "srv");
        match res {
            Poll::Ready(Ok(v)) => assert_eq!(v, ("srv", ())),
            _ => panic!(),
        }
    } else {
        panic!()
    }
}

#[test]
fn apply_pending_second_is_pending() {
    assert!(matches!(AndThenApply::<(), (), ()>::poll_ready_second::<()>(true, Poll::Pending), Poll::Pending));
    assert!(matches!(AndThenApply::<(), (), ()>::poll_ready_second::<()>(false, Poll::Ready(Ok(()))), Poll::Pending));
}

#[test]
fn and_then_new_service_error_ends_wait() {
    let mut fut: AndThenNewServiceFuture<u8, u8> = AndThenNewServiceFuture::new();
    assert_eq!(fut.on_first::<&str>(Poll::Ready(Err("init failed"))), Err("init failed"));
    assert!(fut.needs_first());
    assert_eq!(fut.on_second::<&str>(Poll::Pending), Ok(()));
    assert!(matches!(fut.finish(), Poll::Pending));
}

#[test]
fn and_then_transform_waits_for_both() {
    let factory = AndThenTransform::new(10u32, 1u8, 2u8);
    assert_eq!(*factory.transform_ref(), 10);
    assert_eq!(*factory.first_ref(), 1);
    assert_eq!(*factory.inner_ref(), 2);
    let mut fut: AndThenTransformFuture<u8, u32> = AndThenTransformFuture::new();
    assert!(fut.needs_inner());
    let inner = fut.on_inner::<u8, ()>(Poll::Ready(Ok(*factory.inner_ref()))).unwrap();
    assert_eq!(inner, Some(2));
    fut.start_transform();
    assert!(!fut.needs_inner() && fut.polls_transform());
    assert!(fut.on_first::<()>(Poll::Ready(Ok(1))).is_ok());
    assert!(matches!(fut.finish::<()>(), Poll::Pending));
    assert!(fut.on_transform::<()>(Poll::Ready(Ok(*factory.transform_ref() + inner.unwrap() as u32))).is_ok());
    match fut.finish::<()>() {
        Poll::Ready(mut s) => {
            assert_eq!(*s.first_mut().get_mut(), 1);
            assert_eq!(*s.second_mut(), 12);
        }
        Poll::Pending => panic!(),
    }
}
