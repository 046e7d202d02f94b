//! Keep-alive: a service that passes requests through and fails its readiness
//! check once no request has arrived for the keep-alive period.
//!
//! Times are milliseconds on the caller's clock. The service keeps a timer:
//! the timer has fired once the clock has reached its deadline.
use vstd::prelude::*;

use crate::poll::Poll;
use std::marker::PhantomData;

verus! {

pub struct KeepAlive<R, E, F> {
    f: F,
    ka: u64,
    _t: PhantomData<(R, E)>,
}

impl<R, E, F> KeepAlive<R, E, F> {
    /// The keep-alive period, in milliseconds.
    pub closed spec fn period(&self) -> u64 {
        self.ka
    }

    /// The function that makes the error of an expired service.
    pub closed spec fn error_fn(&self) -> F {
        self.f
    }

    /// The keep-alive period, in milliseconds.
    pub fn period_ms(&self) -> (r: u64)
        ensures
            r == self.period(),
    {
        self.ka
    }

    pub fn new(ka: u64, f: F) -> (r: Self)
        ensures
            r.period() == ka,
            r.error_fn() == f,
    {
        KeepAlive { f, ka, _t: PhantomData }
    }
}

impl<R, E, F: Clone> KeepAlive<R, E, F> {
    /// A new keep-alive service created at `now`, with a copy of the error
    /// function.
    pub fn new_service(&self, now: u64) -> (r: KeepAliveService<R, E, F>)
        requires
            now + self.period() <= u64::MAX,
        ensures
            r.period() == self.period(),
            r.expire() == now + self.period(),
            r.timer() == now + self.period(),
            r.wf(),
            vstd::pervasive::cloned(self.error_fn(), r.error_fn()),
    {
        KeepAliveService::new(self.ka, now, self.f.clone())
    }
}

impl<R, E, F: Clone> Clone for KeepAlive<R, E, F> {
    fn clone(&self) -> (r: Self)
        ensures
            r.period() == self.period(),
            vstd::pervasive::cloned(self.error_fn(), r.error_fn()),
    {
        KeepAlive { f: self.f.clone(), ka: self.ka, _t: PhantomData }
    }
}

pub struct KeepAliveService<R, E, F> {
    f: F,
    ka: u64,
    delay: u64,
    expire: u64,
    _t: PhantomData<(R, E)>,
}

/// A readiness check at `now`: once the timer has fired and the service has
/// expired, it fails with the error function's error; otherwise it is ready.
pub open spec fn keepalive_ready_spec(timer: u64, expire: u64, now: u64) -> bool {
    !(timer <= now && expire <= now)
}

impl<R, E, F> KeepAliveService<R, E, F> {
    /// The keep-alive period, in milliseconds.
    pub closed spec fn period(&self) -> u64 {
        self.ka
    }

    /// When the service expires unless a request arrives first.
    pub closed spec fn expire(&self) -> u64 {
        self.expire
    }

    /// The deadline the service's timer is set to.
    pub closed spec fn timer(&self) -> u64 {
        self.delay
    }

    pub closed spec fn error_fn(&self) -> F {
        self.f
    }

    /// The timer never fires after the expiry.
    pub open spec fn wf(&self) -> bool {
        self.timer() <= self.expire()
    }

    /// A service created at `now`: it expires, and its timer fires, `ka`
    /// milliseconds later.
    pub fn new(ka: u64, now: u64, f: F) -> (r: Self)
        requires
            now + ka <= u64::MAX,
        ensures
            r.period() == ka,
            r.expire() == now + ka,
            r.timer() == now + ka,
            r.error_fn() == f,
            r.wf(),
    {
        let expire = now + ka;
        KeepAliveService { f, ka, expire, delay: expire, _t: PhantomData }
    }

    /// The keep-alive period, in milliseconds.
    pub fn period_ms(&self) -> (r: u64)
        ensures
            r == self.period(),
    {
        self.ka
    }

    /// The deadline of the service's timer, for the caller to set its timer.
    pub fn get_timer(&self) -> (r: u64)
        ensures
            r == self.timer(),
    {
        self.delay
    }

    /// The service passes the request through and expires `ka` milliseconds
    /// after `now`.
    pub fn call(&mut self, req: R, now: u64) -> (r: R)
        requires
            now + old(self).period() <= u64::MAX,
        ensures
            r == req,
            final(self).expire() == now + old(self).period(),
            final(self).timer() == old(self).timer(),
            final(self).period() == old(self).period(),
            final(self).error_fn() == old(self).error_fn(),
            old(self).timer() <= now + old(self).period() ==> final(self).wf(),
    {
        self.expire = now + self.ka;
        req
    }
}

impl<R, E, F: Fn() -> E> KeepAliveService<R, E, F> {
    /// The readiness check at `now`. When the timer has fired: an expired
    /// service fails with the error function's error; one that is still alive
    /// moves its timer to the expiry and is ready. When the timer has not
    /// fired, the service is ready.
    pub fn poll_ready(&mut self, now: u64) -> (r: Poll<Result<(), E>>)
        requires
            old(self).error_fn().requires(()),
        ensures
            old(self).wf() ==> final(self).wf(),
            final(self).expire() == old(self).expire(),
            final(self).period() == old(self).period(),
            final(self).error_fn() == old(self).error_fn(),
            keepalive_ready_spec(old(self).timer(), old(self).expire(), now) ==> r == Poll::<
                Result<(), E>,
            >::Ready(Ok(())),
            !keepalive_ready_spec(old(self).timer(), old(self).expire(), now) ==> (r matches Poll::Ready(
                Err(e),
            ) && old(self).error_fn().ensures((), e)),
            old(self).timer() <= now && now < old(self).expire() ==> final(self).timer() == old(self).expire(),
            !(old(self).timer() <= now && now < old(self).expire()) ==> final(self).timer() == old(self).timer(),
    {
        if self.delay <= now {
            if self.expire <= now {
                Poll::Ready(Err((self.f)()))
            } else {
                self.delay = self.expire;
                Poll::Ready(Ok(()))
            }
        } else {
            Poll::Ready(Ok(()))
        }
    }
}

/// A keep-alive service whose timer is not set past its expiry fails its
/// readiness check exactly when the keep-alive period has passed since it was
/// created or last called.
pub proof fn keepalive_expires(timer: u64, expire: u64, now: u64)
    requires
        timer <= expire,
    ensures
        keepalive_ready_spec(timer, expire, now) <==> now < expire,
{
}

} // verus!
