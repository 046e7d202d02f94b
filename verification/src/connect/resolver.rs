//! DNS resolver service: fills in the address of a connect request whose host
//! is an IP address.
use vstd::prelude::*;

use crate::connect::connector::{Addresses, Connect, ConnectError};
use std::marker::PhantomData;

verus! {

/// DNS Resolver Service factory
pub struct ResolverFactory<T, R> {
    resolver: Option<R>,
    _t: PhantomData<T>,
}

impl<T, R> ResolverFactory<T, R> {
    /// The resolver the factory's services use, if one was given.
    pub closed spec fn resolver(&self) -> Option<R> {
        self.resolver
    }

    /// Create new resolver instance with custom configuration and options.
    pub fn new(resolver: R) -> (r: Self)
        ensures
            r.resolver() == Some(resolver),
    {
        ResolverFactory { resolver: Some(resolver), _t: PhantomData }
    }
}

impl<T, R: Clone> ResolverFactory<T, R> {
    /// A resolver service that shares the factory's resolver.
    pub fn service(&self) -> (r: Resolver<T, R>)
        ensures
            r.resolver() is Some <==> self.resolver() is Some,
            self.resolver() matches Some(x) ==> vstd::pervasive::cloned(x, r.resolver()->0),
    {
        Resolver { resolver: self.resolver.clone(), _t: PhantomData }
    }
}

impl<T, R> Default for ResolverFactory<T, R> {
    fn default() -> (r: Self)
        ensures
            r.resolver() is None,
    {
        ResolverFactory { resolver: None, _t: PhantomData }
    }
}

impl<T, R: Clone> Clone for ResolverFactory<T, R> {
    fn clone(&self) -> (r: Self)
        ensures
            r.resolver() is Some <==> self.resolver() is Some,
            self.resolver() matches Some(x) ==> vstd::pervasive::cloned(x, r.resolver()->0),
    {
        ResolverFactory { resolver: self.resolver.clone(), _t: PhantomData }
    }
}

/// DNS Resolver Service
pub struct Resolver<T, R> {
    resolver: Option<R>,
    _t: PhantomData<T>,
}

impl<T, R> Resolver<T, R> {
    pub closed spec fn resolver(&self) -> Option<R> {
        self.resolver
    }

    /// Create new resolver instance with custom configuration and options.
    pub fn new(resolver: R) -> (r: Self)
        ensures
            r.resolver() == Some(resolver),
    {
        Resolver { resolver: Some(resolver), _t: PhantomData }
    }

    /// Whether the service has a resolver; one without gets the default
    /// resolver on its first call.
    pub fn has_resolver(&self) -> (r: bool)
        ensures
            r == (self.resolver() is Some),
    {
        self.resolver.is_some()
    }

    /// Gives the service `default` as its resolver, unless it has one.
    pub fn use_default(&mut self, default: R)
        ensures
            old(self).resolver() is Some ==> final(self).resolver() == old(self).resolver(),
            old(self).resolver() is None ==> final(self).resolver() == Some(default),
    {
        if self.resolver.is_none() {
            self.resolver = Some(default);
        }
    }

    /// Resolves a request. A service without a resolver first gets the one
    /// that `default` makes. A request whose address is known is answered as
    /// it is; otherwise its host must be an IP address, and `ip_addr` is that
    /// address with the request's port: it becomes the request's address.
    /// (Host names are not looked up.)
    pub fn call<A, E>(&mut self, default: impl FnOnce() -> R, req: Connect<T, A>, ip_addr: Option<A>) -> (r: Result<
        Connect<T, A>,
        ConnectError<E>,
    >)
        requires
            old(self).resolver() is None ==> default.requires(()),
            req.addr is Some || ip_addr is Some,
        ensures
            old(self).resolver() is Some ==> final(self).resolver() == old(self).resolver(),
            old(self).resolver() is None ==> (final(self).resolver() matches Some(d) && default.ensures((), d)),
            req.addr is Some ==> r == Ok::<Connect<T, A>, ConnectError<E>>(req),
            req.addr is None ==> r == Ok::<Connect<T, A>, ConnectError<E>>(
                Connect { addr: Some(Addresses::One(ip_addr->0)), ..req },
            ),
    {
        if self.resolver.is_none() {
            self.resolver = Some(default());
        }
        if req.addr.is_some() {
            Ok(req)
        } else {
            match ip_addr {
                Some(a) => Ok(Connect { req: req.req, port: req.port, addr: Some(Addresses::One(a)) }),
                None => vstd::pervasive::unreached(),
            }
        }
    }
}

impl<T, R> Default for Resolver<T, R> {
    fn default() -> (r: Self)
        ensures
            r.resolver() is None,
    {
        Resolver { resolver: None, _t: PhantomData }
    }
}

impl<T, R: Clone> Clone for Resolver<T, R> {
    fn clone(&self) -> (r: Self)
        ensures
            r.resolver() is Some <==> self.resolver() is Some,
            self.resolver() matches Some(x) ==> vstd::pervasive::cloned(x, r.resolver()->0),
    {
        Resolver { resolver: self.resolver.clone(), _t: PhantomData }
    }
}

} // verus!
