//! `AndThenApply`: a service that calls a first service, then hands the
//! response, together with a second service, to a function whose future is
//! the answer.
use vstd::prelude::*;

use crate::poll::Poll;
use crate::service::and_then::ChainStep;
use crate::service::join::Join;

verus! {

/// `Apply` service combinator
pub struct AndThenApply<A, B, F> {
    a: A,
    b: B,
    f: F,
}

/// The readiness of the pair once the second service was polled: the pair is
/// ready when both services are, where a second service that reported an
/// error counts as ready (its error is not passed on).
pub open spec fn apply_second_ready_spec<E>(first_ready: bool, second: Poll<Result<(), E>>) -> Poll<
    Result<(), E>,
> {
    if second is Pending || !first_ready {
        Poll::Pending
    } else {
        Poll::Ready(Ok(()))
    }
}

impl<A, B, F> AndThenApply<A, B, F> {
    pub closed spec fn first(&self) -> A {
        self.a
    }

    pub closed spec fn second(&self) -> B {
        self.b
    }

    pub closed spec fn function(&self) -> F {
        self.f
    }

    /// Create new `Apply` combinator
    pub fn new(a: A, b: B, f: F) -> (r: Self)
        ensures
            r.first() == a,
            r.second() == b,
            r.function() == f,
    {
        AndThenApply { f, a, b }
    }

    /// The first service, for the caller to poll and call it.
    pub fn first_mut(&mut self) -> (r: &mut A)
        ensures
            *r == old(self).first(),
            final(self).first() == *final(r),
            final(self).second() == old(self).second(),
            final(self).function() == old(self).function(),
    {
        &mut self.a
    }

    /// The second service and the function, for the caller to poll the
    /// service and to apply the function.
    pub fn second_and_function_mut(&mut self) -> (r: (&mut B, &mut F))
        ensures
            *r.0 == old(self).second(),
            *r.1 == old(self).function(),
            final(self).second() == *final(r.0),
            final(self).function() == *final(r.1),
            final(self).first() == old(self).first(),
    {
        (&mut self.b, &mut self.f)
    }

    /// Takes the poll of the second service's readiness, after the first
    /// service's (see `and_then::poll_ready_first`).
    pub fn poll_ready_second<E>(first_ready: bool, second: Poll<Result<(), E>>) -> (r: Poll<Result<(), E>>)
        ensures
            r == apply_second_ready_spec(first_ready, second),
    {
        if !second.is_ready() || !first_ready {
            Poll::Pending
        } else {
            Poll::Ready(Ok(()))
        }
    }
}

impl<A: Clone, B: Clone, F: Clone> Clone for AndThenApply<A, B, F> {
    fn clone(&self) -> (r: Self)
        ensures
            vstd::pervasive::cloned(self.first(), r.first()),
            vstd::pervasive::cloned(self.second(), r.second()),
            vstd::pervasive::cloned(self.function(), r.function()),
    {
        AndThenApply { a: self.a.clone(), b: self.b.clone(), f: self.f.clone() }
    }
}

/// The response future of an applied call: waiting for the first call, then
/// for the function's future.
pub struct AndThenApplyFuture {
    second: bool,
}

impl AndThenApplyFuture {
    /// Whether the function's future is under way.
    pub closed spec fn in_second(&self) -> bool {
        self.second
    }

    pub fn new() -> (r: Self)
        ensures
            !r.in_second(),
    {
        AndThenApplyFuture { second: false }
    }

    /// Whether the function's future is under way; from then on the call
    /// yields whatever that future yields.
    pub fn is_second(&self) -> (r: bool)
        ensures
            r == self.in_second(),
    {
        self.second
    }

    /// Takes the poll of the first call: its response goes to the function,
    /// its error ends the call.
    pub fn on_first<R, O, E>(&mut self, polled: Poll<Result<R, E>>) -> (r: ChainStep<R, O, E>)
        requires
            !old(self).in_second(),
        ensures
            match polled {
                Poll::Ready(Ok(resp)) => r == ChainStep::<R, O, E>::CallSecond(resp) && final(self).in_second(),
                Poll::Ready(Err(e)) => r == ChainStep::<R, O, E>::Return(Poll::Ready(Err(e)))
                    && !final(self).in_second(),
                Poll::Pending => r == ChainStep::<R, O, E>::Return(Poll::Pending) && !final(self).in_second(),
            },
    {
        match polled {
            Poll::Ready(Ok(resp)) => {
                self.second = true;
                ChainStep::CallSecond(resp)
            },
            Poll::Ready(Err(e)) => ChainStep::Return(Poll::Ready(Err(e))),
            Poll::Pending => ChainStep::Return(Poll::Pending),
        }
    }
}

/// `ApplyNewService` new service combinator
pub struct AndThenApplyNewService<A, B, F> {
    a: A,
    b: B,
    f: F,
}

impl<A, B, F> AndThenApplyNewService<A, B, F> {
    pub closed spec fn first(&self) -> A {
        self.a
    }

    pub closed spec fn second(&self) -> B {
        self.b
    }

    pub closed spec fn function(&self) -> F {
        self.f
    }

    /// Create new `ApplyNewService` new service instance
    pub fn new(a: A, b: B, f: F) -> (r: Self)
        ensures
            r.first() == a,
            r.second() == b,
            r.function() == f,
    {
        AndThenApplyNewService { f, a, b }
    }

    pub fn first_ref(&self) -> (r: &A)
        ensures
            *r == self.first(),
    {
        &self.a
    }

    pub fn second_ref(&self) -> (r: &B)
        ensures
            *r == self.second(),
    {
        &self.b
    }

    pub fn function_ref(&self) -> (r: &F)
        ensures
            *r == self.function(),
    {
        &self.f
    }
}

impl<A: Clone, B: Clone, F: Clone> Clone for AndThenApplyNewService<A, B, F> {
    fn clone(&self) -> (r: Self)
        ensures
            vstd::pervasive::cloned(self.first(), r.first()),
            vstd::pervasive::cloned(self.second(), r.second()),
            vstd::pervasive::cloned(self.function(), r.function()),
    {
        AndThenApplyNewService { a: self.a.clone(), b: self.b.clone(), f: self.f.clone() }
    }
}

/// The future of `AndThenApplyNewService::new_service`: both factories'
/// services as they arrive, and the function for the combined service.
pub struct AndThenApplyNewServiceFuture<SA, SB, F> {
    join: Join<SA, SB>,
    f: F,
}

impl<SA, SB, F> AndThenApplyNewServiceFuture<SA, SB, F> {
    pub closed spec fn first(&self) -> Option<SA> {
        self.join.first()
    }

    pub closed spec fn second(&self) -> Option<SB> {
        self.join.second()
    }

    pub closed spec fn function(&self) -> F {
        self.f
    }

    pub fn new(f: F) -> (r: Self)
        ensures
            r.first() is None,
            r.second() is None,
            r.function() == f,
    {
        AndThenApplyNewServiceFuture { join: Join::new(), f }
    }

    pub fn needs_first(&self) -> (r: bool)
        ensures
            r == (self.first() is None),
    {
        self.join.needs_first()
    }

    pub fn needs_second(&self) -> (r: bool)
        ensures
            r == (self.second() is None),
    {
        self.join.needs_second()
    }

    /// Takes the poll of the first factory's future.
    pub fn on_first<IE>(&mut self, polled: Poll<Result<SA, IE>>) -> (r: Result<(), IE>)
        ensures
            final(self).second() == old(self).second(),
            final(self).function() == old(self).function(),
            match polled {
                Poll::Ready(Ok(a)) => r is Ok && final(self).first() == Some(a),
                Poll::Ready(Err(e)) => r == Err::<(), IE>(e) && final(self).first() == old(self).first(),
                Poll::Pending => r is Ok && final(self).first() == old(self).first(),
            },
    {
        self.join.on_first(polled)
    }

    /// Takes the poll of the second factory's future.
    pub fn on_second<IE>(&mut self, polled: Poll<Result<SB, IE>>) -> (r: Result<(), IE>)
        ensures
            final(self).first() == old(self).first(),
            final(self).function() == old(self).function(),
            match polled {
                Poll::Ready(Ok(b)) => r is Ok && final(self).second() == Some(b),
                Poll::Ready(Err(e)) => r == Err::<(), IE>(e) && final(self).second() == old(self).second(),
                Poll::Pending => r is Ok && final(self).second() == old(self).second(),
            },
    {
        self.join.on_second(polled)
    }
}

impl<SA, SB, F: Clone> AndThenApplyNewServiceFuture<SA, SB, F> {
    /// The applied service, once both services have arrived, with a copy of
    /// the function.
    pub fn finish(&mut self) -> (r: Poll<AndThenApply<SA, SB, F>>)
        ensures
            old(self).first() is Some && old(self).second() is Some ==> (r matches Poll::Ready(s)
                && s.first() == old(self).first()->0 && s.second() == old(self).second()->0
                && vstd::pervasive::cloned(old(self).function(), s.function())),
            !(old(self).first() is Some && old(self).second() is Some) ==> {
                &&& r is Pending
                &&& final(self).first() == old(self).first()
                &&& final(self).second() == old(self).second()
            },
            final(self).function() == old(self).function(),
    {
        match self.join.finish() {
            Poll::Ready((a, b)) => Poll::Ready(AndThenApply::new(a, b, self.f.clone())),
            Poll::Pending => Poll::Pending,
        }
    }
}

/// The applied pair is ready only when both services are: it is `Ready(Ok)`
/// exactly when the first service was ready and the second service's poll
/// finished (an error of the second counts as finished); in every other case,
/// and in particular whenever either service is pending, the pair is pending.
/// It never reports an error.
pub proof fn apply_pair_readiness<E>(first_ready: bool, second: Poll<Result<(), E>>)
    ensures
        (apply_second_ready_spec(first_ready, second) == Poll::<Result<(), E>>::Ready(Ok(()))) <==> (first_ready
            && second is Ready),
        (apply_second_ready_spec(first_ready, second) is Pending) <==> (!first_ready || second is Pending),
        !first_ready ==> apply_second_ready_spec(first_ready, second) is Pending,
        second is Pending ==> apply_second_ready_spec(first_ready, second) is Pending,
{
}

} // verus!
