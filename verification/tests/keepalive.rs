use actix_net::utils::counter::Counter;
use actix_net::poll::Poll;
use actix_net::utils::keepalive::{KeepAlive, KeepAliveService};

#[test]
fn keepalive_expires_after_period_without_requests() {
    let ka: KeepAlive<u8, &str, _> = KeepAlive::new(100, || "expired");
    let mut svc = ka.new_service(0);
    assert_eq!(svc.get_timer(), 100);
    assert!(matches!(svc.poll_ready(50), Poll::Ready(Ok(()))));
    assert!(matches!(svc.poll_ready(100), Poll::Ready(Err("expired"))));
}

#[test]
fn keepalive_request_extends_life() {
    let mut svc: KeepAliveService<u8, &str, _> = KeepAliveService::new(100, 0, || "expired");
    assert_eq!(svc.call(7, 60), 7);
    // the timer fires at 100, but the service now lives until 160: the timer moves there
    assert!(matches!(svc.poll_ready(100), Poll::Ready(Ok(()))));
    assert_eq!(svc.get_timer(), 160);
    assert!(matches!(svc.poll_ready(159), Poll::Ready(Ok(()))));
    assert!(matches!(svc.poll_ready(160), Poll::Ready(Err("expired"))));
}

#[test]
fn counter_counts_guards_and_wakes_at_capacity() {
    let mut c = Counter::new(2);
    assert!(c.available());
    let g1 = c.get();
    let g2 = c.get();
    assert_eq!(c.total(), 2);
    assert!(!c.available());
    assert!(c.release(g1));
    assert!(c.available());
    assert!(!c.release(g2));
    assert_eq!(c.total(), 0);
}
