//! Waiting for two service factories at once.
//!
//! A combined factory starts both factories' futures and finishes once both
//! have produced their service; the first error of either ends the wait.
use vstd::prelude::*;

use crate::poll::Poll;

verus! {

/// The services produced so far by two factories polled together.
pub struct Join<A, B> {
    first: Option<A>,
    second: Option<B>,
}

impl<A, B> Join<A, B> {
    /// The first factory's service, once produced.
    pub closed spec fn first(&self) -> Option<A> {
        self.first
    }

    /// The second factory's service, once produced.
    pub closed spec fn second(&self) -> Option<B> {
        self.second
    }

    pub fn new() -> (r: Self)
        ensures
            r.first() is None,
            r.second() is None,
    {
        Join { first: None, second: None }
    }

    /// Whether the first factory's future still has to be polled.
    pub fn needs_first(&self) -> (r: bool)
        ensures
            r == (self.first() is None),
    {
        self.first.is_none()
    }

    /// Whether the second factory's future still has to be polled.
    pub fn needs_second(&self) -> (r: bool)
        ensures
            r == (self.second() is None),
    {
        self.second.is_none()
    }

    /// Takes the poll of the first factory's future: a produced service is
    /// kept, an error ends the wait.
    pub fn on_first<IE>(&mut self, polled: Poll<Result<A, IE>>) -> (r: Result<(), IE>)
        ensures
            final(self).second() == old(self).second(),
            match polled {
                Poll::Ready(Ok(a)) => r is Ok && final(self).first() == Some(a),
                Poll::Ready(Err(e)) => r == Err::<(), IE>(e) && final(self).first() == old(self).first(),
                Poll::Pending => r is Ok && final(self).first() == old(self).first(),
            },
    {
        match polled {
            Poll::Ready(Ok(a)) => {
                self.first = Some(a);
                Ok(())
            },
            Poll::Ready(Err(e)) => Err(e),
            Poll::Pending => Ok(()),
        }
    }

    /// Takes the poll of the second factory's future: a produced service is
    /// kept, an error ends the wait.
    pub fn on_second<IE>(&mut self, polled: Poll<Result<B, IE>>) -> (r: Result<(), IE>)
        ensures
            final(self).first() == old(self).first(),
            match polled {
                Poll::Ready(Ok(b)) => r is Ok && final(self).second() == Some(b),
                Poll::Ready(Err(e)) => r == Err::<(), IE>(e) && final(self).second() == old(self).second(),
                Poll::Pending => r is Ok && final(self).second() == old(self).second(),
            },
    {
        match polled {
            Poll::Ready(Ok(b)) => {
                self.second = Some(b);
                Ok(())
            },
            Poll::Ready(Err(e)) => Err(e),
            Poll::Pending => Ok(()),
        }
    }

    /// Both services, once both factories have produced theirs; they leave the
    /// join.
    pub fn finish(&mut self) -> (r: Poll<(A, B)>)
        ensures
            old(self).first() is Some && old(self).second() is Some ==> {
                &&& r == Poll::Ready((old(self).first()->0, old(self).second()->0))
                &&& final(self).first() is None
                &&& final(self).second() is None
            },
            !(old(self).first() is Some && old(self).second() is Some) ==> {
                &&& r is Pending
                &&& final(self).first() == old(self).first()
                &&& final(self).second() == old(self).second()
            },
    {
        if self.first.is_some() && self.second.is_some() {
            let a = self.first.take().unwrap();
            let b = self.second.take().unwrap();
            Poll::Ready((a, b))
        } else {
            Poll::Pending
        }
    }
}

} // verus!
