//! Connect services: resolve a request, then connect to its addresses.
use vstd::prelude::*;

use crate::connect::connector::{TcpConnector, TcpConnectorFactory};
use crate::connect::resolver::{Resolver, ResolverFactory};

verus! {

pub struct ConnectServiceFactory<T, R> {
    tcp: TcpConnectorFactory<T>,
    resolver: ResolverFactory<T, R>,
}

impl<T, R> ConnectServiceFactory<T, R> {
    /// The resolver the factory's services use, if one was given.
    pub closed spec fn resolver(&self) -> Option<R> {
        self.resolver.resolver()
    }

    /// Construct new ConnectService factory
    pub fn new() -> (r: Self)
        ensures
            r.resolver() is None,
    {
        ConnectServiceFactory { tcp: TcpConnectorFactory::default(), resolver: ResolverFactory::default() }
    }

    /// Construct new connect service with custom dns resolver
    pub fn with_resolver(resolver: R) -> (r: Self)
        ensures
            r.resolver() == Some(resolver),
    {
        ConnectServiceFactory { tcp: TcpConnectorFactory::default(), resolver: ResolverFactory::new(resolver) }
    }
}

impl<T, R: Clone> ConnectServiceFactory<T, R> {
    /// Construct new service
    pub fn service(&self) -> (r: ConnectService<T, R>)
        ensures
            r.resolver().resolver() is Some <==> self.resolver() is Some,
            self.resolver() matches Some(x) ==> vstd::pervasive::cloned(x, r.resolver().resolver()->0),
    {
        ConnectService { tcp: self.tcp.service(), resolver: self.resolver.service() }
    }

    /// Construct new tcp stream service
    pub fn tcp_service(&self) -> (r: TcpConnectService<T, R>)
        ensures
            r.resolver().resolver() is Some <==> self.resolver() is Some,
            self.resolver() matches Some(x) ==> vstd::pervasive::cloned(x, r.resolver().resolver()->0),
    {
        TcpConnectService { tcp: self.tcp.service(), resolver: self.resolver.service() }
    }
}

impl<T, R> Default for ConnectServiceFactory<T, R> {
    fn default() -> (r: Self)
        ensures
            r.resolver() is None,
    {
        ConnectServiceFactory { tcp: TcpConnectorFactory::default(), resolver: ResolverFactory::default() }
    }
}

impl<T, R: Clone> Clone for ConnectServiceFactory<T, R> {
    fn clone(&self) -> (r: Self)
        ensures
            r.resolver() is Some <==> self.resolver() is Some,
            self.resolver() matches Some(x) ==> vstd::pervasive::cloned(x, r.resolver()->0),
    {
        ConnectServiceFactory { tcp: self.tcp.clone(), resolver: self.resolver.clone() }
    }
}

/// Resolves a request, then connects to it; answers with the connection.
pub struct ConnectService<T, R> {
    tcp: TcpConnector<T>,
    resolver: Resolver<T, R>,
}

impl<T, R> ConnectService<T, R> {
    pub closed spec fn resolver(&self) -> Resolver<T, R> {
        self.resolver
    }

    /// The connector and the resolver, for the caller to run a call through
    /// both in turn.
    pub fn parts_mut(&mut self) -> (r: (&TcpConnector<T>, &mut Resolver<T, R>))
        ensures
            *r.1 == old(self).resolver(),
            final(self).resolver() == *final(r.1),
    {
        (&self.tcp, &mut self.resolver)
    }
}

/// Resolves a request, then connects to it; answers with the stream alone.
pub struct TcpConnectService<T, R> {
    tcp: TcpConnector<T>,
    resolver: Resolver<T, R>,
}

impl<T, R> TcpConnectService<T, R> {
    pub closed spec fn resolver(&self) -> Resolver<T, R> {
        self.resolver
    }

    /// The connector and the resolver, for the caller to run a call through
    /// both in turn.
    pub fn parts_mut(&mut self) -> (r: (&TcpConnector<T>, &mut Resolver<T, R>))
        ensures
            *r.1 == old(self).resolver(),
            final(self).resolver() == *final(r.1),
    {
        (&self.tcp, &mut self.resolver)
    }
}

} // verus!
