//! Service that applies a timeout to requests.
//!
//! If the response does not complete within the specified timeout, the response
//! will be aborted.
//!
//! Times are milliseconds on the caller's clock. A response future stands for
//! the inner call together with a timer set to the call's deadline; the timer
//! has fired once the clock has reached the deadline.
use vstd::prelude::*;

use crate::poll::Poll;
use crate::text::debug_text;
use vstd::string::to_string_from_display_ensures;
use vstd::std_specs::cmp::PartialEqSpec;
use std::marker::PhantomData;

verus! {

/// Applies a timeout to requests.
pub struct Timeout<E> {
    timeout: u64,
    _t: PhantomData<E>,
}

/// Timeout error
#[derive(Debug)]
pub enum TimeoutError<E> {
    /// Service error
    Service(E),
    /// Service call timeout
    Timeout,
}

impl<E> From<E> for TimeoutError<E> {
    fn from(err: E) -> (r: Self) {
        TimeoutError::Service(err)
    }
}

impl<E> vstd::std_specs::convert::FromSpecImpl<E> for TimeoutError<E> {
    open spec fn obeys_from_spec() -> bool {
        true
    }

    open spec fn from_spec(err: E) -> Self {
        TimeoutError::Service(err)
    }
}

impl<E: core::fmt::Debug> TimeoutError<E> {
    /// The error's debug text: `TimeoutError::Timeout`, or the service
    /// error's debug text in `TimeoutError::Service(..)`.
    pub fn debug_string(&self) -> (r: String)
        ensures
            self is Timeout ==> r@ == "TimeoutError::Timeout"@,
            self is Service ==> exists|d: Seq<char>| r@ == "TimeoutError::Service("@ + d + ")"@,
    {
        match self {
            TimeoutError::Service(e) => {
                let d = debug_text(e);
                let mut r = String::from_str("TimeoutError::Service(");
                r.append(d.as_str());
                r.append(")");
                assert(r@ == "TimeoutError::Service("@ + d@ + ")"@);
                r
            },
            TimeoutError::Timeout => String::from_str("TimeoutError::Timeout"),
        }
    }
}

impl<E: core::fmt::Display> TimeoutError<E> {
    /// The error's message: that of the service error, or `Service call
    /// timeout`.
    pub fn to_string(&self) -> (r: String)
        ensures
            self is Timeout ==> r@ == "Service call timeout"@,
            self matches TimeoutError::Service(e) ==> to_string_from_display_ensures::<E>(&e, r),
    {
        match self {
            TimeoutError::Service(e) => e.to_string(),
            TimeoutError::Timeout => String::from_str("Service call timeout"),
        }
    }
}

impl<E: PartialEq> PartialEq for TimeoutError<E> {
    fn eq(&self, other: &TimeoutError<E>) -> (r: bool) {
        match self {
            TimeoutError::Service(e1) => match other {
                TimeoutError::Service(e2) => e1 == e2,
                TimeoutError::Timeout => false,
            },
            TimeoutError::Timeout => match other {
                TimeoutError::Service(_) => false,
                TimeoutError::Timeout => true,
            },
        }
    }
}

impl<E: PartialEq> vstd::std_specs::cmp::PartialEqSpecImpl for TimeoutError<E> {
    open spec fn obeys_eq_spec() -> bool {
        <E as PartialEqSpec>::obeys_eq_spec()
    }

    /// Two service errors are equal when the errors are; two timeouts are
    /// equal; a service error never equals a timeout.
    open spec fn eq_spec(&self, other: &TimeoutError<E>) -> bool {
        match (self, other) {
            (TimeoutError::Service(e1), TimeoutError::Service(e2)) => PartialEqSpec::eq_spec(e1, e2),
            (TimeoutError::Timeout, TimeoutError::Timeout) => true,
            _ => false,
        }
    }
}

impl<E> Timeout<E> {
    /// The timeout, in milliseconds.
    pub closed spec fn timeout(&self) -> u64 {
        self.timeout
    }

    pub fn new(timeout: u64) -> (r: Self)
        ensures
            r.timeout() == timeout,
    {
        Timeout { timeout, _t: PhantomData }
    }

    /// Wraps `service` in a `TimeoutService` with this timeout.
    pub fn new_transform<S>(&self, service: S) -> (r: TimeoutService<S>)
        ensures
            r.service() == service,
            r.timeout() == self.timeout(),
    {
        TimeoutService { service, timeout: self.timeout }
    }
}

impl<E> Clone for Timeout<E> {
    fn clone(&self) -> (r: Self)
        ensures
            r.timeout() == self.timeout(),
    {
        Timeout::new(self.timeout)
    }
}

/// Applies a timeout to requests.
pub struct TimeoutService<S> {
    service: S,
    timeout: u64,
}

/// The readiness of a timeout service is that of its inner service, with the
/// inner error wrapped as a service error.
pub open spec fn timeout_ready_spec<E>(inner: Poll<Result<(), E>>) -> Poll<Result<(), TimeoutError<E>>> {
    match inner {
        Poll::Ready(Ok(())) => Poll::Ready(Ok(())),
        Poll::Ready(Err(e)) => Poll::Ready(Err(TimeoutError::Service(e))),
        Poll::Pending => Poll::Pending,
    }
}

impl<S> TimeoutService<S> {
    pub closed spec fn service(&self) -> S {
        self.service
    }

    /// The timeout, in milliseconds.
    pub closed spec fn timeout(&self) -> u64 {
        self.timeout
    }

    pub fn new(timeout: u64, service: S) -> (r: Self)
        ensures
            r.service() == service,
            r.timeout() == timeout,
    {
        TimeoutService { timeout, service }
    }

    /// The timeout, in milliseconds.
    pub fn timeout_ms(&self) -> (r: u64)
        ensures
            r == self.timeout(),
    {
        self.timeout
    }

    /// The inner service, for the caller to poll and call it.
    pub fn get_mut(&mut self) -> (r: &mut S)
        ensures
            *r == old(self).service(),
            final(self).service() == *final(r),
            final(self).timeout() == old(self).timeout(),
    {
        &mut self.service
    }

    /// The service's readiness, given the inner service's.
    pub fn poll_ready<E>(inner: Poll<Result<(), E>>) -> (r: Poll<Result<(), TimeoutError<E>>>)
        ensures
            r == timeout_ready_spec(inner),
    {
        match inner {
            Poll::Ready(Ok(())) => Poll::Ready(Ok(())),
            Poll::Ready(Err(e)) => Poll::Ready(Err(TimeoutError::Service(e))),
            Poll::Pending => Poll::Pending,
        }
    }

    /// The response of a call made at `now`: it times out `timeout`
    /// milliseconds later.
    pub fn call(&self, now: u64) -> (r: TimeoutServiceResponse)
        requires
            now + self.timeout() <= u64::MAX,
        ensures
            r.deadline() == now + self.timeout(),
    {
        TimeoutServiceResponse { deadline: now + self.timeout }
    }
}

/// `TimeoutService` response future: the deadline of the call.
pub struct TimeoutServiceResponse {
    deadline: u64,
}

/// A poll of a response at `now`: a finished inner call wins (its error
/// wrapped as a service error); an unfinished one times out once the clock has
/// reached the deadline.
pub open spec fn timeout_poll_spec<R, E>(deadline: u64, inner: Poll<Result<R, E>>, now: u64) -> Poll<
    Result<R, TimeoutError<E>>,
> {
    match inner {
        Poll::Ready(Ok(v)) => Poll::Ready(Ok(v)),
        Poll::Ready(Err(e)) => Poll::Ready(Err(TimeoutError::Service(e))),
        Poll::Pending => if deadline <= now {
            Poll::Ready(Err(TimeoutError::Timeout))
        } else {
            Poll::Pending
        },
    }
}

impl TimeoutServiceResponse {
    /// When the call times out, in milliseconds.
    pub closed spec fn deadline(&self) -> u64 {
        self.deadline
    }

    pub fn new(deadline: u64) -> (r: Self)
        ensures
            r.deadline() == deadline,
    {
        TimeoutServiceResponse { deadline }
    }

    /// When the call times out, in milliseconds, for the caller's timer.
    pub fn get_deadline(&self) -> (r: u64)
        ensures
            r == self.deadline(),
    {
        self.deadline
    }

    /// Polls the response at `now`, given the poll of the inner call.
    pub fn poll<R, E>(&self, inner: Poll<Result<R, E>>, now: u64) -> (r: Poll<Result<R, TimeoutError<E>>>)
        ensures
            r == timeout_poll_spec(self.deadline(), inner, now),
    {
        match inner {
            Poll::Ready(Ok(v)) => Poll::Ready(Ok(v)),
            Poll::Ready(Err(e)) => Poll::Ready(Err(TimeoutError::Service(e))),
            Poll::Pending => {
                if self.deadline <= now {
                    Poll::Ready(Err(TimeoutError::Timeout))
                } else {
                    Poll::Pending
                }
            },
        }
    }
}

/// A call times out exactly when it has not finished by its deadline, the
/// timeout after the call was made; a finished call's result always passes
/// through, its error as a service error, even past the deadline.
pub proof fn timeout_applies<R, E>(made_at: u64, timeout: u64, inner: Poll<Result<R, E>>, now: u64)
    requires
        made_at + timeout <= u64::MAX,
    ensures
        inner is Pending ==> (timeout_poll_spec((made_at + timeout) as u64, inner, now) == Poll::<
            Result<R, TimeoutError<E>>,
        >::Ready(Err(TimeoutError::Timeout)) <==> now >= made_at + timeout),
        inner is Pending && now < made_at + timeout ==> timeout_poll_spec(
            (made_at + timeout) as u64,
            inner,
            now,
        ) is Pending,
        inner matches Poll::Ready(Ok(v)) ==> timeout_poll_spec((made_at + timeout) as u64, inner, now)
            == Poll::<Result<R, TimeoutError<E>>>::Ready(Ok(v)),
        inner matches Poll::Ready(Err(e)) ==> timeout_poll_spec((made_at + timeout) as u64, inner, now)
            == Poll::<Result<R, TimeoutError<E>>>::Ready(Err(TimeoutError::Service(e))),
{
}

/// A timeout service's readiness follows that of its inner service: it is
/// pending exactly when the inner service is, ready exactly when the inner
/// service is, and the inner error comes back as a service error; readiness
/// never reports a timeout.
pub proof fn timeout_readiness_follows_inner<E>(inner: Poll<Result<(), E>>)
    ensures
        (timeout_ready_spec(inner) is Pending) <==> (inner is Pending),
        (timeout_ready_spec(inner) == Poll::<Result<(), TimeoutError<E>>>::Ready(Ok(()))) <==> (inner == Poll::<
            Result<(), E>,
        >::Ready(Ok(()))),
        inner matches Poll::Ready(Err(e)) ==> timeout_ready_spec(inner) == Poll::<
            Result<(), TimeoutError<E>>,
        >::Ready(Err(TimeoutError::Service(e))),
        !(timeout_ready_spec(inner) matches Poll::Ready(Err(TimeoutError::Timeout))),
{
    match inner {
        Poll::Ready(Ok(u)) => {
            assert(u == ());
        },
        _ => {},
    }
}

} // verus!
