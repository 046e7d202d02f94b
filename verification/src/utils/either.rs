//! Contains `Either` service and related types and functions.
use vstd::prelude::*;

use crate::poll::Poll;
use crate::service::join::Join;

verus! {

/// Combine two different service types into a single type.
///
/// Both services must be of the same request, response, and error types.
/// `EitherService` is useful for handling conditional branching in service
/// middleware to different inner service types.
pub struct EitherService<A, B> {
    left: A,
    right: B,
}

impl<A, B> EitherService<A, B> {
    pub closed spec fn left(&self) -> A {
        self.left
    }

    pub closed spec fn right(&self) -> B {
        self.right
    }

    /// The left service, for requests of the left kind.
    pub fn left_mut(&mut self) -> (r: &mut A)
        ensures
            *r == old(self).left(),
            final(self).left() == *final(r),
            final(self).right() == old(self).right(),
    {
        &mut self.left
    }

    /// The right service, for requests of the right kind.
    pub fn right_mut(&mut self) -> (r: &mut B)
        ensures
            *r == old(self).right(),
            final(self).right() == *final(r),
            final(self).left() == old(self).left(),
    {
        &mut self.right
    }
}

impl<A: Clone, B: Clone> Clone for EitherService<A, B> {
    fn clone(&self) -> (r: Self)
        ensures
            vstd::pervasive::cloned(self.left(), r.left()),
            vstd::pervasive::cloned(self.right(), r.right()),
    {
        EitherService { left: self.left.clone(), right: self.right.clone() }
    }
}

/// Combine two different new service types into a single service.
pub struct Either<A, B> {
    left: A,
    right: B,
}

impl<A, B> Either<A, B> {
    pub closed spec fn left(&self) -> A {
        self.left
    }

    pub closed spec fn right(&self) -> B {
        self.right
    }

    pub fn new(srv_a: A, srv_b: B) -> (r: Either<A, B>)
        ensures
            r.left() == srv_a,
            r.right() == srv_b,
    {
        Either { left: srv_a, right: srv_b }
    }

    /// The factory of the left service.
    pub fn left_ref(&self) -> (r: &A)
        ensures
            *r == self.left(),
    {
        &self.left
    }

    /// The factory of the right service.
    pub fn right_ref(&self) -> (r: &B)
        ensures
            *r == self.right(),
    {
        &self.right
    }
}

impl<A: Clone, B: Clone> Clone for Either<A, B> {
    fn clone(&self) -> (r: Self)
        ensures
            vstd::pervasive::cloned(self.left(), r.left()),
            vstd::pervasive::cloned(self.right(), r.right()),
    {
        Either { left: self.left.clone(), right: self.right.clone() }
    }
}

/// The future of `Either::new_service`: both factories' services, as they
/// arrive.
pub struct EitherNewService<SA, SB> {
    join: Join<SA, SB>,
}

impl<SA, SB> EitherNewService<SA, SB> {
    pub closed spec fn left(&self) -> Option<SA> {
        self.join.first()
    }

    pub closed spec fn right(&self) -> Option<SB> {
        self.join.second()
    }

    pub fn new() -> (r: Self)
        ensures
            r.left() is None,
            r.right() is None,
    {
        EitherNewService { join: Join::new() }
    }

    pub fn needs_left(&self) -> (r: bool)
        ensures
            r == (self.left() is None),
    {
        self.join.needs_first()
    }

    pub fn needs_right(&self) -> (r: bool)
        ensures
            r == (self.right() is None),
    {
        self.join.needs_second()
    }

    /// Takes the poll of the left factory's future.
    pub fn on_left<IE>(&mut self, polled: Poll<Result<SA, IE>>) -> (r: Result<(), IE>)
        ensures
            final(self).right() == old(self).right(),
            match polled {
                Poll::Ready(Ok(a)) => r is Ok && final(self).left() == Some(a),
                Poll::Ready(Err(e)) => r == Err::<(), IE>(e) && final(self).left() == old(self).left(),
                Poll::Pending => r is Ok && final(self).left() == old(self).left(),
            },
    {
        self.join.on_first(polled)
    }

    /// Takes the poll of the right factory's future.
    pub fn on_right<IE>(&mut self, polled: Poll<Result<SB, IE>>) -> (r: Result<(), IE>)
        ensures
            final(self).left() == old(self).left(),
            match polled {
                Poll::Ready(Ok(b)) => r is Ok && final(self).right() == Some(b),
                Poll::Ready(Err(e)) => r == Err::<(), IE>(e) && final(self).right() == old(self).right(),
                Poll::Pending => r is Ok && final(self).right() == old(self).right(),
            },
    {
        self.join.on_second(polled)
    }

    /// The combined service, once both services have arrived.
    pub fn finish(&mut self) -> (r: Poll<EitherService<SA, SB>>)
        ensures
            old(self).left() is Some && old(self).right() is Some ==> (r matches Poll::Ready(s)
                && s.left() == old(self).left()->0 && s.right() == old(self).right()->0),
            !(old(self).left() is Some && old(self).right() is Some) ==> {
                &&& r is Pending
                &&& final(self).left() == old(self).left()
                &&& final(self).right() == old(self).right()
            },
    {
        match self.join.finish() {
            Poll::Ready((left, right)) => Poll::Ready(EitherService { left, right }),
            Poll::Pending => Poll::Pending,
        }
    }
}

} // verus!
