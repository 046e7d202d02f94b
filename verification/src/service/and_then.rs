//! Service for the `and_then` combinator, chaining a computation onto the end
//! of another service which completes successfully.
use vstd::prelude::*;

use crate::poll::Poll;
use crate::service::join::Join;

verus! {

/// Service for the `and_then` combinator, chaining a computation onto the end
/// of another service which completes successfully.
pub struct AndThen<A, B> {
    a: A,
    b: B,
}

/// Where the readiness check of a pair of services stands after the first
/// service was polled: its error ends the check; otherwise the second service
/// is polled next.
pub enum FirstReady<E> {
    /// poll the second service; `first_ready` says whether the first one is ready
    PollSecond { first_ready: bool },
    /// the check is over with this result
    Done(Poll<Result<(), E>>),
}

/// The readiness of two services polled in order: an error of the first ends
/// the check before the second is polled; an error of the second comes next;
/// otherwise the pair is ready when both are.
pub open spec fn pair_ready_spec<E>(first: Poll<Result<(), E>>, second: Poll<Result<(), E>>) -> Poll<
    Result<(), E>,
> {
    match first {
        Poll::Ready(Err(e)) => Poll::Ready(Err(e)),
        _ => match second {
            Poll::Ready(Err(e)) => Poll::Ready(Err(e)),
            Poll::Ready(Ok(())) => if first is Ready {
                Poll::Ready(Ok(()))
            } else {
                Poll::Pending
            },
            Poll::Pending => Poll::Pending,
        },
    }
}

/// The check after the first service was polled.
pub open spec fn first_ready_spec<E>(first: Poll<Result<(), E>>) -> FirstReady<E> {
    match first {
        Poll::Ready(Err(e)) => FirstReady::Done(Poll::Ready(Err(e))),
        Poll::Ready(Ok(())) => FirstReady::PollSecond { first_ready: true },
        Poll::Pending => FirstReady::PollSecond { first_ready: false },
    }
}

/// The check after the second service was polled: its error is the result;
/// otherwise the pair is ready when both services are.
pub open spec fn second_ready_spec<E>(first_ready: bool, second: Poll<Result<(), E>>) -> Poll<Result<(), E>> {
    match second {
        Poll::Ready(Err(e)) => Poll::Ready(Err(e)),
        Poll::Ready(Ok(())) => if first_ready {
            Poll::Ready(Ok(()))
        } else {
            Poll::Pending
        },
        Poll::Pending => Poll::Pending,
    }
}

/// Takes the poll of the first service's readiness.
pub fn poll_ready_first<E>(first: Poll<Result<(), E>>) -> (r: FirstReady<E>)
    ensures
        r == first_ready_spec(first),
{
    match first {
        Poll::Ready(Err(e)) => FirstReady::Done(Poll::Ready(Err(e))),
        Poll::Ready(Ok(())) => FirstReady::PollSecond { first_ready: true },
        Poll::Pending => FirstReady::PollSecond { first_ready: false },
    }
}

/// Takes the poll of the second service's readiness.
pub fn poll_ready_second<E>(first_ready: bool, second: Poll<Result<(), E>>) -> (r: Poll<Result<(), E>>)
    ensures
        r == second_ready_spec(first_ready, second),
{
    match second {
        Poll::Ready(Err(e)) => Poll::Ready(Err(e)),
        Poll::Ready(Ok(())) => {
            if first_ready {
                Poll::Ready(Ok(()))
            } else {
                Poll::Pending
            }
        },
        Poll::Pending => Poll::Pending,
    }
}

/// The two steps of the readiness check give the readiness of the pair: the
/// first service's error ends the check without polling the second; then the
/// second's error wins; and the pair is ready exactly when both services are.
pub proof fn pair_readiness<E>(first: Poll<Result<(), E>>, second: Poll<Result<(), E>>)
    ensures
        match first_ready_spec(first) {
            FirstReady::Done(p) => p == pair_ready_spec(first, second),
            FirstReady::PollSecond { first_ready } => second_ready_spec(first_ready, second)
                == pair_ready_spec(first, second),
        },
        first matches Poll::Ready(Err(_)) <==> first_ready_spec(first) is Done,
        (pair_ready_spec(first, second) == Poll::<Result<(), E>>::Ready(Ok(()))) <==> (first
            == Poll::<Result<(), E>>::Ready(Ok(())) && second == Poll::<Result<(), E>>::Ready(Ok(()))),
        first matches Poll::Ready(Err(e)) ==> pair_ready_spec(first, second) == Poll::<Result<(), E>>::Ready(Err(e)),
        !(first matches Poll::Ready(Err(_))) ==> (second matches Poll::Ready(Err(e)) ==> pair_ready_spec(first, second)
            == Poll::<Result<(), E>>::Ready(Err(e))),
        (pair_ready_spec(first, second) is Pending) <==> (!(first matches Poll::Ready(Err(_))) && !(second matches Poll::Ready(
            Err(_),
        )) && (first is Pending || second is Pending)),
{
    match first {
        Poll::Ready(Ok(u)) => {
            assert(u == ());
            match second {
                Poll::Ready(Ok(v)) => {
                    assert(v == ());
                    assert(first == Poll::<Result<(), E>>::Ready(Ok(())));
                    assert(second == Poll::<Result<(), E>>::Ready(Ok(())));
                },
                Poll::Ready(Err(_)) => {},
                Poll::Pending => {},
            }
        },
        Poll::Ready(Err(_)) => {},
        Poll::Pending => {},
    }
}

impl<A, B> AndThen<A, B> {
    /// The service called first.
    pub closed spec fn first(&self) -> A {
        self.a
    }

    /// The service called with the first one's response.
    pub closed spec fn second(&self) -> B {
        self.b
    }

    /// Create new `AndThen` combinator
    pub fn new(a: A, b: B) -> (r: Self)
        ensures
            r.first() == a,
            r.second() == b,
    {
        AndThen { a, b }
    }

    /// The first service, for the caller to poll and call it.
    pub fn first_mut(&mut self) -> (r: &mut A)
        ensures
            *r == old(self).first(),
            final(self).first() == *final(r),
            final(self).second() == old(self).second(),
    {
        &mut self.a
    }

    /// The second service, for the caller to poll and call it.
    pub fn second_mut(&mut self) -> (r: &mut B)
        ensures
            *r == old(self).second(),
            final(self).second() == *final(r),
            final(self).first() == old(self).first(),
    {
        &mut self.b
    }
}

impl<A: Clone, B: Clone> Clone for AndThen<A, B> {
    fn clone(&self) -> (r: Self)
        ensures
            vstd::pervasive::cloned(self.first(), r.first()),
            vstd::pervasive::cloned(self.second(), r.second()),
    {
        AndThen { a: self.a.clone(), b: self.b.clone() }
    }
}

/// What a chained call does once the first call has been polled.
pub enum ChainStep<R, O, E> {
    /// call the second service with the first one's response, then poll that call
    CallSecond(R),
    /// the chained call is over, or not ready, with this result
    Return(Poll<Result<O, E>>),
}

/// The response future of a chained call: waiting for the first call, then
/// for the second.
pub struct AndThenFuture {
    second: bool,
}

impl AndThenFuture {
    /// Whether the second call is under way.
    pub closed spec fn in_second(&self) -> bool {
        self.second
    }

    /// A chained call whose first call is under way.
    pub fn new() -> (r: Self)
        ensures
            !r.in_second(),
    {
        AndThenFuture { second: false }
    }

    /// Whether the second call is under way; from then on the chained call
    /// yields whatever the second call yields.
    pub fn is_second(&self) -> (r: bool)
        ensures
            r == self.in_second(),
    {
        self.second
    }

    /// Takes the poll of the first call: its response goes to the second
    /// service, its error ends the chained call.
    pub fn on_first<R, O, E>(&mut self, polled: Poll<Result<R, E>>) -> (r: ChainStep<R, O, E>)
        requires
            !old(self).in_second(),
        ensures
            match polled {
                Poll::Ready(Ok(resp)) => r == ChainStep::<R, O, E>::CallSecond(resp) && final(self).in_second(),
                Poll::Ready(Err(e)) => r == ChainStep::<R, O, E>::Return(Poll::Ready(Err(e)))
                    && !final(self).in_second(),
                Poll::Pending => r == ChainStep::<R, O, E>::Return(Poll::Pending) && !final(self).in_second(),
            },
    {
        match polled {
            Poll::Ready(Ok(resp)) => {
                self.second = true;
                ChainStep::CallSecond(resp)
            },
            Poll::Ready(Err(e)) => ChainStep::Return(Poll::Ready(Err(e))),
            Poll::Pending => ChainStep::Return(Poll::Pending),
        }
    }
}

/// `AndThenNewService` new service combinator
pub struct AndThenNewService<A, B> {
    a: A,
    b: B,
}

impl<A, B> AndThenNewService<A, B> {
    pub closed spec fn first(&self) -> A {
        self.a
    }

    pub closed spec fn second(&self) -> B {
        self.b
    }

    /// Create new `AndThen` combinator
    pub fn new(a: A, b: B) -> (r: Self)
        ensures
            r.first() == a,
            r.second() == b,
    {
        AndThenNewService { a, b }
    }

    /// The factory of the first service.
    pub fn first_ref(&self) -> (r: &A)
        ensures
            *r == self.first(),
    {
        &self.a
    }

    /// The factory of the second service.
    pub fn second_ref(&self) -> (r: &B)
        ensures
            *r == self.second(),
    {
        &self.b
    }
}

impl<A: Clone, B: Clone> Clone for AndThenNewService<A, B> {
    fn clone(&self) -> (r: Self)
        ensures
            vstd::pervasive::cloned(self.first(), r.first()),
            vstd::pervasive::cloned(self.second(), r.second()),
    {
        AndThenNewService { a: self.a.clone(), b: self.b.clone() }
    }
}

/// The future of `AndThenNewService::new_service`: both factories' services,
/// as they arrive.
pub struct AndThenNewServiceFuture<SA, SB> {
    join: Join<SA, SB>,
}

impl<SA, SB> AndThenNewServiceFuture<SA, SB> {
    pub closed spec fn first(&self) -> Option<SA> {
        self.join.first()
    }

    pub closed spec fn second(&self) -> Option<SB> {
        self.join.second()
    }

    pub fn new() -> (r: Self)
        ensures
            r.first() is None,
            r.second() is None,
    {
        AndThenNewServiceFuture { join: Join::new() }
    }

    pub fn needs_first(&self) -> (r: bool)
        ensures
            r == (self.first() is None),
    {
        self.join.needs_first()
    }

    pub fn needs_second(&self) -> (r: bool)
        ensures
            r == (self.second() is None),
    {
        self.join.needs_second()
    }

    /// Takes the poll of the first factory's future.
    pub fn on_first<IE>(&mut self, polled: Poll<Result<SA, IE>>) -> (r: Result<(), IE>)
        ensures
            final(self).second() == old(self).second(),
            match polled {
                Poll::Ready(Ok(a)) => r is Ok && final(self).first() == Some(a),
                Poll::Ready(Err(e)) => r == Err::<(), IE>(e) && final(self).first() == old(self).first(),
                Poll::Pending => r is Ok && final(self).first() == old(self).first(),
            },
    {
        self.join.on_first(polled)
    }

    /// Takes the poll of the second factory's future.
    pub fn on_second<IE>(&mut self, polled: Poll<Result<SB, IE>>) -> (r: Result<(), IE>)
        ensures
            final(self).first() == old(self).first(),
            match polled {
                Poll::Ready(Ok(b)) => r is Ok && final(self).second() == Some(b),
                Poll::Ready(Err(e)) => r == Err::<(), IE>(e) && final(self).second() == old(self).second(),
                Poll::Pending => r is Ok && final(self).second() == old(self).second(),
            },
    {
        self.join.on_second(polled)
    }

    /// The chained service, once both services have arrived.
    pub fn finish(&mut self) -> (r: Poll<AndThen<SA, SB>>)
        ensures
            old(self).first() is Some && old(self).second() is Some ==> (r matches Poll::Ready(s)
                && s.first() == old(self).first()->0 && s.second() == old(self).second()->0),
            !(old(self).first() is Some && old(self).second() is Some) ==> {
                &&& r is Pending
                &&& final(self).first() == old(self).first()
                &&& final(self).second() == old(self).second()
            },
    {
        match self.join.finish() {
            Poll::Ready((a, b)) => Poll::Ready(AndThen::new(a, b)),
            Poll::Pending => Poll::Pending,
        }
    }
}

} // verus!
