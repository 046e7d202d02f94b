//! Tcp connector service: tries the resolved addresses of a request in order
//! and answers with the first connection that succeeds.
use vstd::prelude::*;

use std::collections::VecDeque;
use std::marker::PhantomData;

verus! {

/// Connection errors
#[derive(Debug)]
pub enum ConnectError<E> {
    /// Connect request has no resolved address
    Unresolverd,
    /// Connection io error
    Io(E),
}

/// The resolved addresses of a request: one, or several to try in order.
pub enum Addresses<A> {
    One(A),
    Many(VecDeque<A>),
}

/// A connect request: what to connect to, the port, and the resolved
/// addresses once known.
pub struct Connect<T, A> {
    pub req: T,
    pub port: u16,
    pub addr: Option<Addresses<A>>,
}

/// Tcp connector service factory
pub struct TcpConnectorFactory<T>(PhantomData<T>);

impl<T> TcpConnectorFactory<T> {
    pub fn new() -> (r: Self) {
        TcpConnectorFactory(PhantomData)
    }

    /// Create tcp connector service
    pub fn service(&self) -> (r: TcpConnector<T>) {
        TcpConnector(PhantomData)
    }
}

impl<T> Default for TcpConnectorFactory<T> {
    fn default() -> (r: Self) {
        TcpConnectorFactory(PhantomData)
    }
}

impl<T> Clone for TcpConnectorFactory<T> {
    fn clone(&self) -> (r: Self) {
        TcpConnectorFactory(PhantomData)
    }
}

/// Tcp connector service
pub struct TcpConnector<T>(PhantomData<T>);

/// What a connection attempt does next: connect to an address, or end with a
/// result.
pub enum ConnectStep<A, S, E> {
    Connect(A),
    Done(Result<S, ConnectError<E>>),
}

/// The addresses of a request still to try, and whether the request had a
/// single address (whose failure is reported as it is).
pub struct ConnectAttempt<A> {
    remaining: VecDeque<A>,
    single: bool,
}

impl<A> ConnectAttempt<A> {
    pub closed spec fn remaining(&self) -> Seq<A> {
        self.remaining@
    }

    pub closed spec fn single(&self) -> bool {
        self.single
    }

    /// Takes the outcome of the connection just tried: a connection is the
    /// answer; after a failure the next address is tried, and when none is left
    /// the request counts as unresolved. The failure of a request's single
    /// address is the answer itself.
    pub fn on_connect<S, E>(&mut self, res: Result<S, E>) -> (r: ConnectStep<A, S, E>)
        ensures
            final(self).single() == old(self).single(),
            r == connect_next_spec(old(self).remaining(), old(self).single(), res).0,
            final(self).remaining() == connect_next_spec(old(self).remaining(), old(self).single(), res).1,
    {
        match res {
            Ok(s) => ConnectStep::Done(Ok(s)),
            Err(e) => {
                if self.single {
                    ConnectStep::Done(Err(ConnectError::Io(e)))
                } else {
                    match self.remaining.pop_front() {
                        Some(a) => ConnectStep::Connect(a),
                        None => ConnectStep::Done(Err(ConnectError::Unresolverd)),
                    }
                }
            },
        }
    }
}

/// The first step of a call: no address means the request is unresolved; a
/// single address is tried; of several, the first is tried and the rest wait.
pub open spec fn connect_start_spec<A, S, E>(addr: Option<Addresses<A>>) -> (ConnectStep<A, S, E>, Seq<A>, bool) {
    match addr {
        None => (ConnectStep::Done(Err(ConnectError::Unresolverd)), Seq::empty(), false),
        Some(Addresses::One(a)) => (ConnectStep::Connect(a), Seq::empty(), true),
        Some(Addresses::Many(q)) => if q@.len() > 0 {
            (ConnectStep::Connect(q@[0]), q@.drop_first(), false)
        } else {
            (ConnectStep::Done(Err(ConnectError::Unresolverd)), Seq::empty(), false)
        },
    }
}


/// What an attempt does with the outcome of the connection just tried, given
/// the addresses still to try and whether the request had a single address:
/// the step, and the addresses left afterwards.
pub open spec fn connect_next_spec<A, S, E>(remaining: Seq<A>, single: bool, res: Result<S, E>) -> (
    ConnectStep<A, S, E>,
    Seq<A>,
) {
    match res {
        Ok(s) => (ConnectStep::Done(Ok(s)), remaining),
        Err(e) => if single {
            (ConnectStep::Done(Err(ConnectError::Io(e))), remaining)
        } else if remaining.len() > 0 {
            (ConnectStep::Connect(remaining[0]), remaining.drop_first())
        } else {
            (ConnectStep::Done(Err(ConnectError::Unresolverd)), remaining)
        },
    }
}

/// An attempt over several addresses, fed the outcomes of its connections in
/// turn: the addresses it tries after the first, and how it ends (`None` while
/// it still waits for an outcome).
pub open spec fn run_attempt<A, S, E>(remaining: Seq<A>, outcomes: Seq<Result<S, E>>) -> (Seq<A>, Option<
    Result<S, ConnectError<E>>,
>)
    decreases outcomes.len(),
{
    if outcomes.len() == 0 {
        (Seq::empty(), None)
    } else {
        match connect_next_spec(remaining, false, outcomes[0]) {
            (ConnectStep::Done(r), _) => (Seq::empty(), Some(r)),
            (ConnectStep::Connect(a), rest) => {
                let (tried, end) = run_attempt(rest, outcomes.drop_first());
                (seq![a] + tried, end)
            },
        }
    }
}

/// The index of the first successful outcome, or -1.
pub open spec fn first_ok<S, E>(outcomes: Seq<Result<S, E>>) -> int
    decreases outcomes.len(),
{
    if outcomes.len() == 0 {
        -1
    } else if outcomes[0] is Ok {
        0
    } else {
        let i = first_ok(outcomes.drop_first());
        if i < 0 {
            -1
        } else {
            i + 1
        }
    }
}

proof fn first_ok_bounds<S, E>(outcomes: Seq<Result<S, E>>)
    ensures
        -1 <= first_ok(outcomes) < outcomes.len(),
        first_ok(outcomes) >= 0 ==> outcomes[first_ok(outcomes)] is Ok,
    decreases outcomes.len(),
{
    if outcomes.len() > 0 && !(outcomes[0] is Ok) {
        first_ok_bounds(outcomes.drop_first());
    }
}

/// Several addresses are tried in order, one after each failure; the first
/// connection that succeeds is the answer; when every address has failed the
/// request counts as unresolved. `outcomes` are the outcomes of the
/// connections to the first address and to the others in turn.
pub proof fn addresses_tried_in_order<A, S, E>(remaining: Seq<A>, outcomes: Seq<Result<S, E>>)
    requires
        outcomes.len() == remaining.len() + 1,
    ensures
        ({
            let (tried, end) = run_attempt(remaining, outcomes);
            let i = first_ok(outcomes);
            &&& i >= 0 ==> tried == remaining.subrange(0, i) && end == Some(
                Ok::<S, ConnectError<E>>(outcomes[i]->Ok_0),
            )
            &&& i < 0 ==> tried == remaining && end == Some(Err::<S, ConnectError<E>>(ConnectError::Unresolverd))
        }),
    decreases outcomes.len(),
{
    first_ok_bounds(outcomes);
    if remaining.len() > 0 {
        first_ok_bounds(outcomes.drop_first());
        addresses_tried_in_order(remaining.drop_first(), outcomes.drop_first());
        let (tried, end) = run_attempt(remaining.drop_first(), outcomes.drop_first());
        let i = first_ok(outcomes.drop_first());
        if outcomes[0] is Err {
            if i >= 0 {
                assert(seq![remaining[0]] + remaining.drop_first().subrange(0, i) =~= remaining.subrange(0, i + 1));
                assert(outcomes.drop_first()[i] == outcomes[i + 1]);
            } else {
                assert(seq![remaining[0]] + remaining.drop_first() =~= remaining);
            }
        } else {
            assert(remaining.subrange(0, 0) =~= Seq::<A>::empty());
        }
    } else {
        if outcomes[0] is Ok {
            assert(remaining.subrange(0, 0) =~= Seq::<A>::empty());
        } else {
            assert(outcomes.drop_first().len() == 0);
            assert(remaining =~= Seq::<A>::empty());
        }
    }
}

impl<T> TcpConnector<T> {
    pub fn new() -> (r: Self) {
        TcpConnector(PhantomData)
    }

    /// Starts a call on a request whose resolved addresses are `addr`.
    pub fn call<A, S, E>(&self, addr: Option<Addresses<A>>) -> (r: (ConnectAttempt<A>, ConnectStep<A, S, E>))
        ensures
            r.1 == connect_start_spec::<A, S, E>(addr).0,
            r.0.remaining() == connect_start_spec::<A, S, E>(addr).1,
            r.0.single() == connect_start_spec::<A, S, E>(addr).2,
    {
        match addr {
            None => (ConnectAttempt { remaining: VecDeque::new(), single: false }, ConnectStep::Done(Err(ConnectError::Unresolverd))),
            Some(Addresses::One(a)) => (ConnectAttempt { remaining: VecDeque::new(), single: true }, ConnectStep::Connect(a)),
            Some(Addresses::Many(q)) => {
                let mut q = q;
                match q.pop_front() {
                    Some(a) => (ConnectAttempt { remaining: q, single: false }, ConnectStep::Connect(a)),
                    None => (ConnectAttempt { remaining: VecDeque::new(), single: false }, ConnectStep::Done(Err(ConnectError::Unresolverd))),
                }
            },
        }
    }
}

impl<T> Clone for TcpConnector<T> {
    fn clone(&self) -> (r: Self) {
        TcpConnector(PhantomData)
    }
}

impl<T> Default for TcpConnector<T> {
    fn default() -> (r: Self) {
        TcpConnector(PhantomData)
    }
}

/// A call starts with the first resolved address and keeps all the others, in
/// order, for later: the address tried first followed by the addresses left to
/// try is exactly the request's list of addresses, so every address is tried
/// before the request counts as unresolved. A single address is tried alone,
/// and a request without addresses is unresolved at once.
pub proof fn call_starts_with_first_address<A, S, E>(addr: Option<Addresses<A>>)
    ensures
        ({
            let (step, remaining, single) = connect_start_spec::<A, S, E>(addr);
            match addr {
                Some(Addresses::Many(q)) => if q@.len() > 0 {
                    step == ConnectStep::<A, S, E>::Connect(q@[0]) && seq![q@[0]] + remaining == q@ && !single
                } else {
                    step == ConnectStep::<A, S, E>::Done(Err(ConnectError::Unresolverd)) && remaining.len() == 0
                },
                Some(Addresses::One(a)) => step == ConnectStep::<A, S, E>::Connect(a) && remaining.len() == 0
                    && single,
                None => step == ConnectStep::<A, S, E>::Done(Err(ConnectError::Unresolverd)) && remaining.len() == 0,
            }
        }),
{
    match addr {
        Some(Addresses::Many(q)) => {
            if q@.len() > 0 {
                assert(seq![q@[0]] + q@.drop_first() =~= q@);
            }
        },
        _ => {},
    }
}

/// A whole call over several addresses: with `outcomes` the outcomes of the
/// connections in the order they are tried, the addresses tried are the
/// request's addresses in order, up to and including the first that
/// connects, whose connection is the answer; when none connects, every
/// address has been tried and the request counts as unresolved.
pub proof fn call_tries_every_address_in_order<A, S, E>(addrs: VecDeque<A>, outcomes: Seq<Result<S, E>>)
    requires
        addrs@.len() > 0,
        outcomes.len() == addrs@.len(),
    ensures
        ({
            let (step, remaining, single) = connect_start_spec::<A, S, E>(Some(Addresses::Many(addrs)));
            let (rest, end) = run_attempt(remaining, outcomes);
            let tried = match step {
                ConnectStep::Connect(a) => seq![a] + rest,
                ConnectStep::Done(_) => rest,
            };
            let i = first_ok(outcomes);
            &&& !single
            &&& i >= 0 ==> tried == addrs@.subrange(0, i + 1) && end == Some(Ok::<S, ConnectError<E>>(outcomes[i]->Ok_0))
            &&& i < 0 ==> tried == addrs@ && end == Some(Err::<S, ConnectError<E>>(ConnectError::Unresolverd))
        }),
{
    call_starts_with_first_address::<A, S, E>(Some(Addresses::Many(addrs)));
    let q = addrs@;
    addresses_tried_in_order::<A, S, E>(q.drop_first(), outcomes);
    first_ok_bounds(outcomes);
    let i = first_ok(outcomes);
    if i >= 0 {
        assert(seq![q[0]] + q.drop_first().subrange(0, i) =~= q.subrange(0, i + 1));
    } else {
        assert(seq![q[0]] + q.drop_first() =~= q);
    }
}

} // verus!
