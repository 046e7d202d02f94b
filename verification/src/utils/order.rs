//! InOrder - The service will yield responses as they become available, in the
//! order that their originating requests were submitted to the service.
//!
//! Each call leaves an acknowledgement record at the back of a queue; the
//! record carries the channel on which the inner call's result arrives and the
//! channel on which the caller waits for it. A result is forwarded to its caller
//! only from the front of the queue, so results reach callers in the order of
//! their calls, whatever the order in which the inner calls finish.
use vstd::prelude::*;

use crate::poll::Poll;
use crate::text::debug_text;
use vstd::string::to_string_from_display_ensures;
use std::collections::VecDeque;
use std::marker::PhantomData;

verus! {

/// InOrder error
#[derive(Debug)]
pub enum InOrderError<E> {
    /// Service error
    Service(E),
    /// Service call dropped
    Disconnected,
}

impl<E: core::fmt::Debug> InOrderError<E> {
    /// The error's debug text: `InOrderError::Disconnected`, or the service
    /// error's debug text in `InOrderError::Service(..)`.
    pub fn debug_string(&self) -> (r: String)
        ensures
            self is Disconnected ==> r@ == "InOrderError::Disconnected"@,
            self is Service ==> exists|d: Seq<char>| r@ == "InOrderError::Service("@ + d + ")"@,
    {
        match self {
            InOrderError::Service(e) => {
                let d = debug_text(e);
                let mut r = String::from_str("InOrderError::Service(");
                r.append(d.as_str());
                r.append(")");
                assert(r@ == "InOrderError::Service("@ + d@ + ")"@);
                r
            },
            InOrderError::Disconnected => String::from_str("InOrderError::Disconnected"),
        }
    }
}

impl<E: core::fmt::Display> InOrderError<E> {
    /// The error's message: that of the service error, or `InOrder service
    /// disconnected`.
    pub fn to_string(&self) -> (r: String)
        ensures
            self is Disconnected ==> r@ == "InOrder service disconnected"@,
            self matches InOrderError::Service(e) ==> to_string_from_display_ensures::<E>(&e, r),
    {
        match self {
            InOrderError::Service(e) => e.to_string(),
            InOrderError::Disconnected => String::from_str("InOrder service disconnected"),
        }
    }
}

impl<E> From<E> for InOrderError<E> {
    fn from(err: E) -> (r: Self) {
        InOrderError::Service(err)
    }
}

impl<E> vstd::std_specs::convert::FromSpecImpl<E> for InOrderError<E> {
    open spec fn obeys_from_spec() -> bool {
        true
    }

    open spec fn from_spec(err: E) -> Self {
        InOrderError::Service(err)
    }
}

/// InOrder - The service will yield responses as they become available, in
/// the order that their originating requests were submitted to the service.
pub struct InOrder<S> {
    _t: PhantomData<S>,
}

impl<S> InOrder<S> {
    pub fn new() -> (r: Self) {
        InOrder { _t: PhantomData }
    }

    /// An in-order service around `service`, with no call under way.
    pub fn service<K>(service: S) -> (r: InOrderService<S, K>)
        ensures
            r.wf(),
            r.service() == service,
            r.acks() == Seq::<K>::empty(),
            r.queued() == Seq::<nat>::empty(),
            r.forwarded() == Seq::<nat>::empty(),
            !r.is_taken(),
    {
        InOrderService::new(service)
    }

    /// An in-order service around `service`, with no call under way.
    pub fn new_transform<K>(&self, service: S) -> (r: InOrderService<S, K>)
        ensures
            r.wf(),
            r.service() == service,
            r.acks() == Seq::<K>::empty(),
            r.queued() == Seq::<nat>::empty(),
            r.forwarded() == Seq::<nat>::empty(),
            !r.is_taken(),
    {
        InOrderService::new(service)
    }
}

impl<S> Default for InOrder<S> {
    fn default() -> (r: Self) {
        Self::new()
    }
}

/// What to do with an acknowledgement record taken from the front of the
/// queue, once its inner call has been polled.
pub enum AckStep<K, T> {
    /// the inner call has finished: forward its result to the record's caller
    Forward(K, T),
    /// the inner call has not finished: the record is back at the front
    Wait,
    /// the inner call was dropped: the record is back at the front
    Disconnected,
}

pub struct InOrderService<S, K> {
    service: S,
    acks: VecDeque<K>,
    /// the number of each queued call, in queue order
    ids: Ghost<Seq<nat>>,
    /// the number of the call whose record is taken out, if one is
    taken: Ghost<Option<nat>>,
    /// the numbers of the calls whose results were forwarded, in the order of
    /// forwarding
    forwarded: Ghost<Seq<nat>>,
}

/// The readiness of an in-order service once no finished call is left at the
/// front of its queue: that of the inner service, its error wrapped.
pub open spec fn in_order_ready_spec<E>(inner: Poll<Result<(), E>>) -> Poll<Result<(), InOrderError<E>>> {
    match inner {
        Poll::Ready(Ok(())) => Poll::Ready(Ok(())),
        Poll::Ready(Err(e)) => Poll::Ready(Err(InOrderError::Service(e))),
        Poll::Pending => Poll::Pending,
    }
}

/// What a caller's response future yields once polled: the inner call's
/// result, its error wrapped, or `Disconnected` when the result can no longer
/// arrive.
pub open spec fn in_order_response_spec<R, E>(rx: Poll<Option<Result<R, E>>>) -> Poll<Result<R, InOrderError<E>>> {
    match rx {
        Poll::Ready(Some(Ok(res))) => Poll::Ready(Ok(res)),
        Poll::Ready(Some(Err(e))) => Poll::Ready(Err(InOrderError::Service(e))),
        Poll::Ready(None) => Poll::Ready(Err(InOrderError::Disconnected)),
        Poll::Pending => Poll::Pending,
    }
}

impl<S, K> InOrderService<S, K> {
    pub closed spec fn service(&self) -> S {
        self.service
    }

    /// The acknowledgement records of the calls under way, oldest first.
    pub closed spec fn acks(&self) -> Seq<K> {
        self.acks@
    }

    /// The numbers of the calls whose records are queued, in queue order
    /// (calls are numbered from 0 in the order they were made).
    pub closed spec fn queued(&self) -> Seq<nat> {
        self.ids@
    }

    /// Whether a record was taken from the queue and not yet decided on.
    pub closed spec fn is_taken(&self) -> bool {
        self.taken@ is Some
    }

    /// The numbers of the calls whose results were forwarded, in the order
    /// of forwarding.
    pub closed spec fn forwarded(&self) -> Seq<nat> {
        self.forwarded@
    }

    /// The number of calls made so far.
    pub open spec fn calls(&self) -> nat {
        self.forwarded().len() + (if self.is_taken() { 1nat } else { 0nat }) + self.queued().len()
    }

    /// Each queued record belongs to one call: the forwarded calls, the one
    /// taken out and the queued ones are the calls made, in order.
    pub closed spec fn wf(&self) -> bool {
        &&& self.ids@.len() == self.acks@.len()
        &&& forall|i: int| 0 <= i < self.forwarded@.len() ==> #[trigger] self.forwarded@[i] == i
        &&& self.taken@ matches Some(t) ==> t == self.forwarded@.len()
        &&& forall|i: int|
            0 <= i < self.ids@.len() ==> #[trigger] self.ids@[i] == self.forwarded@.len() + (if self.taken@ is Some {
                1int
            } else {
                0int
            }) + i
    }

    pub fn new(service: S) -> (r: Self)
        ensures
            r.wf(),
            r.service() == service,
            r.acks() == Seq::<K>::empty(),
            r.queued() == Seq::<nat>::empty(),
            r.forwarded() == Seq::<nat>::empty(),
            !r.is_taken(),
    {
        InOrderService {
            service,
            acks: VecDeque::new(),
            ids: Ghost(Seq::empty()),
            taken: Ghost(None),
            forwarded: Ghost(Seq::empty()),
        }
    }

    /// The inner service, for the caller to poll and call it.
    pub fn get_mut(&mut self) -> (r: &mut S)
        ensures
            *r == old(self).service(),
            final(self).service() == *final(r),
            final(self).acks() == old(self).acks(),
            final(self).queued() == old(self).queued(),
            final(self).forwarded() == old(self).forwarded(),
            final(self).is_taken() == old(self).is_taken(),
            final(self).wf() == old(self).wf(),
    {
        &mut self.service
    }

    /// Records a new call: its acknowledgement record goes behind those of
    /// every earlier call.
    pub fn push_ack(&mut self, rec: K)
        requires
            old(self).wf(),
        ensures
            final(self).wf(),
            final(self).acks() == old(self).acks().push(rec),
            final(self).queued() == old(self).queued().push(old(self).calls()),
            final(self).forwarded() == old(self).forwarded(),
            final(self).is_taken() == old(self).is_taken(),
            final(self).service() == old(self).service(),
    {
        let ghost n = self.calls();
        self.acks.push_back(rec);
        self.ids = Ghost(self.ids@.push(n));
    }

    /// Takes the record of the oldest call under way, if any.
    pub fn next_ack(&mut self) -> (r: Option<K>)
        requires
            old(self).wf(),
            !old(self).is_taken(),
        ensures
            final(self).wf(),
            final(self).forwarded() == old(self).forwarded(),
            final(self).service() == old(self).service(),
            old(self).acks().len() == 0 ==> {
                &&& r is None
                &&& final(self).acks() == old(self).acks()
                &&& final(self).queued() == old(self).queued()
                &&& !final(self).is_taken()
            },
            old(self).acks().len() > 0 ==> {
                &&& r == Some(old(self).acks()[0])
                &&& final(self).acks() == old(self).acks().drop_first()
                &&& final(self).queued() == old(self).queued().drop_first()
                &&& final(self).is_taken()
            },
    {
        let r = self.acks.pop_front();
        if r.is_some() {
            proof {
                self.taken = Ghost(Some(self.ids@[0]));
                self.ids = Ghost(self.ids@.drop_first());
            }
        }
        r
    }

    /// Decides on the record just taken by `next_ack`, given the poll of its
    /// inner call's result: a finished call is forwarded; otherwise the record
    /// goes back to the front of the queue.
    pub fn on_ack<T>(&mut self, rec: K, polled: Poll<Option<T>>) -> (r: AckStep<K, T>)
        requires
            old(self).wf(),
            old(self).is_taken(),
        ensures
            final(self).wf(),
            !final(self).is_taken(),
            final(self).service() == old(self).service(),
            match polled {
                Poll::Ready(Some(res)) => {
                    &&& r == AckStep::Forward(rec, res)
                    &&& final(self).acks() == old(self).acks()
                    &&& final(self).queued() == old(self).queued()
                    &&& final(self).forwarded() == old(self).forwarded().push(old(self).forwarded().len())
                },
                Poll::Ready(None) => {
                    &&& r == AckStep::<K, T>::Disconnected
                    &&& final(self).acks() == seq![rec] + old(self).acks()
                    &&& final(self).queued() == seq![old(self).forwarded().len()] + old(self).queued()
                    &&& final(self).forwarded() == old(self).forwarded()
                },
                Poll::Pending => {
                    &&& r == AckStep::<K, T>::Wait
                    &&& final(self).acks() == seq![rec] + old(self).acks()
                    &&& final(self).queued() == seq![old(self).forwarded().len()] + old(self).queued()
                    &&& final(self).forwarded() == old(self).forwarded()
                },
            },
    {
        let ghost t = self.taken@->0;
        proof {
            self.taken = Ghost(None);
        }
        match polled {
            Poll::Ready(Some(res)) => {
                proof {
                    self.forwarded = Ghost(self.forwarded@.push(t));
                }
                AckStep::Forward(rec, res)
            },
            Poll::Ready(None) => {
                self.acks.push_front(rec);
                proof {
                    self.ids = Ghost(seq![t] + self.ids@);
                }
                AckStep::Disconnected
            },
            Poll::Pending => {
                self.acks.push_front(rec);
                proof {
                    self.ids = Ghost(seq![t] + self.ids@);
                }
                AckStep::Wait
            },
        }
    }

    /// The readiness once the queue's front has been processed, given the inner
    /// service's readiness.
    pub fn ready<E>(inner: Poll<Result<(), E>>) -> (r: Poll<Result<(), InOrderError<E>>>)
        ensures
            r == in_order_ready_spec(inner),
    {
        match inner {
            Poll::Ready(Ok(())) => Poll::Ready(Ok(())),
            Poll::Ready(Err(e)) => Poll::Ready(Err(InOrderError::Service(e))),
            Poll::Pending => Poll::Pending,
        }
    }
}

/// The response future of one call: it waits for the result that the queue
/// forwards to it.
pub struct InOrderServiceResponse<S> {
    _t: PhantomData<S>,
}

impl<S> InOrderServiceResponse<S> {
    pub fn new() -> (r: Self) {
        InOrderServiceResponse { _t: PhantomData }
    }

    /// What the response yields, given the poll of its channel (`None` once the
    /// sending side is gone).
    pub fn poll<R, E>(&self, rx: Poll<Option<Result<R, E>>>) -> (r: Poll<Result<R, InOrderError<E>>>)
        ensures
            r == in_order_response_spec(rx),
    {
        match rx {
            Poll::Ready(Some(Ok(res))) => Poll::Ready(Ok(res)),
            Poll::Ready(Some(Err(e))) => Poll::Ready(Err(InOrderError::Service(e))),
            Poll::Ready(None) => Poll::Ready(Err(InOrderError::Disconnected)),
            Poll::Pending => Poll::Pending,
        }
    }
}

/// Results reach callers in the order of their calls: the calls whose results
/// were forwarded are always the first calls made, in the order they were
/// made, so a call's result is forwarded only after those of all earlier calls;
/// the calls still waiting are the later ones, queued in call order.
pub proof fn results_forwarded_in_call_order<S, K>(s: &InOrderService<S, K>)
    requires
        s.wf(),
    ensures
        forall|i: int| 0 <= i < s.forwarded().len() ==> #[trigger] s.forwarded()[i] == i,
        forall|j: nat, i: nat|
            #![trigger s.forwarded().contains(j), s.forwarded().contains(i)]
            i < j && s.forwarded().contains(j) ==> s.forwarded().contains(i),
        forall|i: int|
            0 <= i < s.queued().len() ==> s.forwarded().len() <= #[trigger] s.queued()[i] < s.calls(),
        forall|i: int, j: int| 0 <= i < j < s.queued().len() ==> #[trigger] s.queued()[i] < #[trigger] s.queued()[j],
{
    assert forall|j: nat, i: nat|
        #![trigger s.forwarded().contains(j), s.forwarded().contains(i)]
        i < j && s.forwarded().contains(j) implies s.forwarded().contains(i) by {
        let k = choose|k: int| 0 <= k < s.forwarded().len() && s.forwarded()[k] == j;
        assert(s.forwarded()[i as int] == i);
    }
}

/// The in-order service's readiness follows that of its inner service: it is
/// pending exactly when the inner service is, ready exactly when the inner
/// service is, and the inner service's error comes back as a service error.
pub proof fn in_order_readiness_follows_inner<E>(inner: Poll<Result<(), E>>)
    ensures
        (in_order_ready_spec(inner) is Pending) <==> (inner is Pending),
        (in_order_ready_spec(inner) == Poll::<Result<(), InOrderError<E>>>::Ready(Ok(()))) <==> (inner
            == Poll::<Result<(), E>>::Ready(Ok(()))),
        inner matches Poll::Ready(Err(e)) ==> in_order_ready_spec(inner) == Poll::<
            Result<(), InOrderError<E>>,
        >::Ready(Err(InOrderError::Service(e))),
        !(in_order_ready_spec(inner) matches Poll::Ready(Err(InOrderError::Disconnected))),
{
    match inner {
        Poll::Ready(Ok(u)) => {
            assert(u == ());
        },
        _ => {},
    }
}

/// A caller's response yields what its call's result channel gives: nothing
/// while the channel is pending, the inner result (its error as a service
/// error) once it arrives, and `Disconnected` exactly when the channel closed
/// without a result.
pub proof fn in_order_response_follows_channel<R, E>(rx: Poll<Option<Result<R, E>>>)
    ensures
        (in_order_response_spec(rx) is Pending) <==> (rx is Pending),
        (in_order_response_spec(rx) == Poll::<Result<R, InOrderError<E>>>::Ready(Err(InOrderError::Disconnected)))
            <==> (rx == Poll::<Option<Result<R, E>>>::Ready(None)),
        rx matches Poll::Ready(Some(Ok(v))) ==> in_order_response_spec(rx) == Poll::<
            Result<R, InOrderError<E>>,
        >::Ready(Ok(v)),
        rx matches Poll::Ready(Some(Err(e))) ==> in_order_response_spec(rx) == Poll::<
            Result<R, InOrderError<E>>,
        >::Ready(Err(InOrderError::Service(e))),
{
}

} // verus!
