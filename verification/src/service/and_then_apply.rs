//! `AndThenTransform`: a service factory whose service calls a first service,
//! then hands the response to the service that a transform makes of a second
//! factory's service.
use vstd::prelude::*;

use crate::poll::Poll;
use crate::service::and_then::AndThen;
use crate::service::join::Join;
use std::marker::PhantomData;
use std::rc::Rc;

verus! {

/// A service whose errors are converted into `E` on the way out.
pub struct FromErr<A, E> {
    service: A,
    _e: PhantomData<E>,
}

impl<A, E> FromErr<A, E> {
    pub closed spec fn service(&self) -> A {
        self.service
    }

    pub fn new(service: A) -> (r: Self)
        ensures
            r.service() == service,
    {
        FromErr { service, _e: PhantomData }
    }

    /// The wrapped service, for the caller to poll and call it.
    pub fn get_mut(&mut self) -> (r: &mut A)
        ensures
            *r == old(self).service(),
            final(self).service() == *final(r),
    {
        &mut self.service
    }
}

/// `Apply` new service combinator
pub struct AndThenTransform<T, A, B> {
    a: A,
    b: B,
    t: Rc<T>,
}

impl<T, A, B> AndThenTransform<T, A, B> {
    /// The factory of the first service.
    pub closed spec fn first(&self) -> A {
        self.a
    }

    /// The factory of the service the transform wraps.
    pub closed spec fn inner(&self) -> B {
        self.b
    }

    /// The transform, shared by every service the factory makes.
    pub closed spec fn transform(&self) -> T {
        *self.t
    }

    /// Create new `ApplyNewService` new service instance
    pub fn new(t: T, a: A, b: B) -> (r: Self)
        ensures
            r.first() == a,
            r.inner() == b,
            r.transform() == t,
    {
        AndThenTransform { a, b, t: Rc::new(t) }
    }

    pub fn first_ref(&self) -> (r: &A)
        ensures
            *r == self.first(),
    {
        &self.a
    }

    pub fn inner_ref(&self) -> (r: &B)
        ensures
            *r == self.inner(),
    {
        &self.b
    }

    /// The shared transform, for each service's future to hold.
    pub fn transform_rc(&self) -> (r: &Rc<T>)
        ensures
            **r == self.transform(),
    {
        &self.t
    }

    pub fn transform_ref(&self) -> (r: &T)
        ensures
            *r == self.transform(),
    {
        &*self.t
    }
}

impl<T, A: Clone, B: Clone> Clone for AndThenTransform<T, A, B> {
    fn clone(&self) -> (r: Self)
        ensures
            r.transform() == self.transform(),
            vstd::pervasive::cloned(self.first(), r.first()),
            vstd::pervasive::cloned(self.inner(), r.inner()),
    {
        AndThenTransform { a: self.a.clone(), b: self.b.clone(), t: Rc::clone(&self.t) }
    }
}

/// The future of `AndThenTransform::new_service`. The second factory's
/// service, once produced, goes to the transform; the combined service is made
/// once the first service and the transformed one have both arrived.
pub struct AndThenTransformFuture<SA, ST> {
    join: Join<SA, ST>,
    transforming: bool,
}

impl<SA, ST> AndThenTransformFuture<SA, ST> {
    pub closed spec fn first(&self) -> Option<SA> {
        self.join.first()
    }

    pub closed spec fn transformed(&self) -> Option<ST> {
        self.join.second()
    }

    /// Whether the transform has been handed the second factory's service.
    pub closed spec fn transforming(&self) -> bool {
        self.transforming
    }

    pub fn new() -> (r: Self)
        ensures
            r.first() is None,
            r.transformed() is None,
            !r.transforming(),
    {
        AndThenTransformFuture { join: Join::new(), transforming: false }
    }

    /// Whether the second factory's future still has to be polled.
    pub fn needs_inner(&self) -> (r: bool)
        ensures
            r == !self.transforming(),
    {
        !self.transforming
    }

    /// Takes the poll of the second factory's future: a produced service is
    /// returned, for the caller to hand it to the transform and report that
    /// with `start_transform`; an error ends the wait.
    pub fn on_inner<SB, IE>(&self, polled: Poll<Result<SB, IE>>) -> (r: Result<Option<SB>, IE>)
        ensures
            match polled {
                Poll::Ready(Ok(b)) => r == Ok::<Option<SB>, IE>(Some(b)),
                Poll::Ready(Err(e)) => r == Err::<Option<SB>, IE>(e),
                Poll::Pending => r == Ok::<Option<SB>, IE>(None),
            },
    {
        match polled {
            Poll::Ready(Ok(b)) => Ok(Some(b)),
            Poll::Ready(Err(e)) => Err(e),
            Poll::Pending => Ok(None),
        }
    }

    /// Records that the transform is making its service.
    pub fn start_transform(&mut self)
        ensures
            final(self).transforming(),
            final(self).first() == old(self).first(),
            final(self).transformed() == old(self).transformed(),
    {
        self.transforming = true;
    }

    pub fn needs_first(&self) -> (r: bool)
        ensures
            r == (self.first() is None),
    {
        self.join.needs_first()
    }

    /// Takes the poll of the first factory's future.
    pub fn on_first<IE>(&mut self, polled: Poll<Result<SA, IE>>) -> (r: Result<(), IE>)
        ensures
            final(self).transformed() == old(self).transformed(),
            final(self).transforming() == old(self).transforming(),
            match polled {
                Poll::Ready(Ok(a)) => r is Ok && final(self).first() == Some(a),
                Poll::Ready(Err(e)) => r == Err::<(), IE>(e) && final(self).first() == old(self).first(),
                Poll::Pending => r is Ok && final(self).first() == old(self).first(),
            },
    {
        self.join.on_first(polled)
    }

    /// Whether the transform's future has to be polled: from the moment the
    /// transform was handed its service.
    pub fn polls_transform(&self) -> (r: bool)
        ensures
            r == self.transforming(),
    {
        self.transforming
    }

    /// Takes the poll of the transform's future.
    pub fn on_transform<IE>(&mut self, polled: Poll<Result<ST, IE>>) -> (r: Result<(), IE>)
        ensures
            final(self).first() == old(self).first(),
            final(self).transforming() == old(self).transforming(),
            match polled {
                Poll::Ready(Ok(t)) => r is Ok && final(self).transformed() == Some(t),
                Poll::Ready(Err(e)) => r == Err::<(), IE>(e) && final(self).transformed() == old(self).transformed(),
                Poll::Pending => r is Ok && final(self).transformed() == old(self).transformed(),
            },
    {
        self.join.on_second(polled)
    }

    /// The combined service, once the first service and the transformed one
    /// have both arrived: the first service's errors converted, then the
    /// transformed service.
    pub fn finish<TE>(&mut self) -> (r: Poll<AndThen<FromErr<SA, TE>, ST>>)
        ensures
            old(self).first() is Some && old(self).transformed() is Some ==> (r matches Poll::Ready(s)
                && s.first().service() == old(self).first()->0 && s.second() == old(self).transformed()->0),
            !(old(self).first() is Some && old(self).transformed() is Some) ==> {
                &&& r is Pending
                &&& final(self).first() == old(self).first()
                &&& final(self).transformed() == old(self).transformed()
            },
    {
        match self.join.finish() {
            Poll::Ready((a, t)) => Poll::Ready(AndThen::new(FromErr::new(a), t)),
            Poll::Pending => Poll::Pending,
        }
    }
}

} // verus!
