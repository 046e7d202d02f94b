use actix_net::connect::connector::{Addresses, Connect, ConnectError, ConnectStep, TcpConnector, TcpConnectorFactory};
use actix_net::connect::resolver::{Resolver, ResolverFactory};
use actix_net::connect::service::ConnectServiceFactory;
use std::collections::VecDeque;

/// Runs a connector call where connecting to an address succeeds when `ok`
/// says so; returns the addresses tried and the result.
fn run(addr: Option<Addresses<u32>>, ok: impl Fn(u32) -> bool) -> (Vec<u32>, Result<u32, ConnectError<&'static str>>) {
    let connector: TcpConnector<()> = TcpConnectorFactory::new().service();
    let (mut attempt, mut step) = connector.call::<u32, u32, &'static str>(addr);
    let mut tried = Vec::new();
    loop {
        match step {
            ConnectStep::Connect(a) => {
                tried.push(a);
                let res = if ok(a) { Ok(a * 10) } else { Err("refused") };
                step = attempt.on_connect(res);
            }
            ConnectStep::Done(r) => return (tried, r),
        }
    }
}

#[test]
fn connector_unresolved_without_address() {
    let (tried, r) = run(None, |_| true);
    assert!(tried.is_empty());
    assert!(matches!(r, Err(ConnectError::Unresolverd)));
    let (tried, r) = run(Some(Addresses::Many(VecDeque::new())), |_| true);
    assert!(tried.is_empty());
    assert!(matches!(r, Err(ConnectError::Unresolverd)));
}

#[test]
fn connector_single_address_error_is_reported() {
    let (tried, r) = run(Some(Addresses::One(4)), |_| false);
    assert_eq!(tried, vec![4]);
    assert!(matches!(r, Err(ConnectError::Io("refused"))));
    let (_, r) = run(Some(Addresses::One(4)), |_| true);
    assert!(matches!(r, Ok(40)));
}

#[test]
fn connector_tries_addresses_in_order() {
    let addrs: VecDeque<u32> = vec![1, 2, 3, 4].into_iter().collect();
    let (tried, r) = run(Some(Addresses::Many(addrs.clone())), |a| a == 3);
    assert_eq!(tried, vec![1, 2, 3]);
    assert!(matches!(r, Ok(30)));
    let (tried, r) = run(Some(Addresses::Many(addrs)), |_| false);
    assert_eq!(tried, vec![1, 2, 3, 4]);
    assert!(matches!(r, Err(ConnectError::Unresolverd)));
}

#[test]
fn resolver_fills_in_ip_address() {
    let factory: ResolverFactory<(), &str> = ResolverFactory::default();
    let mut res = factory.service();
    assert!(!res.has_resolver());
    res.use_default("default");
    assert!(res.has_resolver());
    let req = Connect { req: (), port: 80, addr: None };
    let out = res.call::<u32, ()>(|| "other", req, Some(127)).unwrap();
    assert!(matches!(out.addr, Some(Addresses::One(127))));
    let known = Connect { req: (), port: 80, addr: Some(Addresses::One(1u32)) };
    let out = res.call::<u32, ()>(|| "other", known, Some(2)).unwrap();
    assert!(matches!(out.addr, Some(Addresses::One(1))));
    let custom: Resolver<(), &str> = Resolver::new("custom");
    assert!(custom.clone().has_resolver());
}

#[test]
fn resolver_call_installs_default_resolver() {
    let mut res: Resolver<(), &str> = Resolver::default();
    assert!(!res.has_resolver());
    let known = Connect { req: (), port: 80, addr: Some(Addresses::One(1u32)) };
    let out = res.call::<u32, ()>(|| "default", known, None).unwrap();
    assert!(matches!(out.addr, Some(Addresses::One(1))));
    assert!(res.has_resolver());
    // a resolver that is there stays: the default is not made again
    let req = Connect { req: (), port: 80, addr: None };
    let out = res.call::<u32, ()>(|| panic!("default made twice"), req, Some(9)).unwrap();
    assert!(matches!(out.addr, Some(Addresses::One(9))));
}

#[test]
fn connect_service_factory_shares_resolver() {
    let f: ConnectServiceFactory<(), u8> = ConnectServiceFactory::with_resolver(3);
    let mut svc = f.service();
    let (_tcp, resolver) = svc.parts_mut();
    assert!(resolver.has_resolver());
    let g: ConnectServiceFactory<(), u8> = ConnectServiceFactory::new();
    let mut tsvc = g.clone().tcp_service();
    assert!(!tsvc.parts_mut().1.has_resolver());
}
