use actix_net::poll::Poll;
use actix_net::utils::timeout::{Timeout, TimeoutError, TimeoutService};

/// A service whose calls finish `wait` milliseconds after they are made.
struct SleepService(u64);

/// Runs one call made at time 0 through `svc`: the clock advances to the next
/// wake-up (the inner call finishing, or the timer firing) until the response
/// is ready.
fn run_call(svc: &mut TimeoutService<SleepService>) -> Result<(), TimeoutError<()>> {
    assert!(matches!(TimeoutService::<SleepService>::poll_ready::<()>(Poll::Ready(Ok(()))), Poll::Ready(Ok(()))));
    let finish_at = svc.get_mut().0;
    let resp = svc.call(0);
    let mut wakeups = vec![finish_at, resp.get_deadline()];
    wakeups.sort();
    for now in wakeups {
        let inner: Poll<Result<(), ()>> = if now >= finish_at { Poll::Ready(Ok(())) } else { Poll::Pending };
        if let Poll::Ready(r) = resp.poll(inner, now) {
            return r;
        }
    }
    panic!("the response never became ready")
}

#[test]
fn test_success() {
    let resolution = 100;
    let wait_time = 50;
    let mut timeout = TimeoutService::new(resolution, SleepService(wait_time));
    let res = run_call(&mut timeout);
    assert_eq!(res, Ok(()));
}

#[test]
fn test_timeout() {
    let resolution = 100;
    let wait_time = 150;
    let mut timeout = TimeoutService::new(resolution, SleepService(wait_time));
    let res = run_call(&mut timeout);
    assert_eq!(res, Err(TimeoutError::Timeout));
}

#[test]
fn test_timeout_newservice() {
    let resolution = 100;
    let wait_time = 150;
    let timeout = Timeout::<()>::new(resolution);
    let mut to = timeout.clone().new_transform(SleepService(wait_time));
    let res = run_call(&mut to);
    assert_eq!(res, Err(TimeoutError::Timeout));
}

#[test]
fn timeout_finished_call_wins_past_deadline() {
    let svc = TimeoutService::new(100, ());
    let resp = svc.call(1000);
    assert_eq!(resp.get_deadline(), 1100);
    let r = resp.poll::<u8, ()>(Poll::Ready(Ok(5)), 5000);
    assert!(matches!(r, Poll::Ready(Ok(5))));
    let r = resp.poll::<u8, u8>(Poll::Ready(Err(9)), 5000);
    assert!(matches!(r, Poll::Ready(Err(TimeoutError::Service(9)))));
    assert!(matches!(resp.poll::<u8, u8>(Poll::Pending, 1099), Poll::Pending));
    assert!(matches!(resp.poll::<u8, u8>(Poll::Pending, 1100), Poll::Ready(Err(TimeoutError::Timeout))));
}

#[test]
fn timeout_ready_wraps_inner_error() {
    assert!(matches!(TimeoutService::<()>::poll_ready::<u8>(Poll::Ready(Err(4))), Poll::Ready(Err(TimeoutError::Service(4)))));
    assert!(matches!(TimeoutService::<()>::poll_ready::<u8>(Poll::Pending), Poll::Pending));
}

#[test]
fn timeout_error_equality() {
    assert!(TimeoutError::Service(1) == TimeoutError::Service(1));
    assert!(TimeoutError::Service(1) != TimeoutError::Service(2));
    assert!(TimeoutError::<u8>::Timeout == TimeoutError::Timeout);
    assert!(TimeoutError::Service(1) != TimeoutError::Timeout);
    let e: TimeoutError<u8> = 3u8.into();
    assert_eq!(e, TimeoutError::Service(3));
}

#[test]
fn timeout_error_text() {
    let e: TimeoutError<u8> = TimeoutError::Service(7);
    assert_eq!(e.debug_string(), "TimeoutError::Service(7)");
    assert_eq!(e.to_string(), "7");
    let t: TimeoutError<u8> = TimeoutError::Timeout;
    assert_eq!(t.debug_string(), "TimeoutError::Timeout");
    assert_eq!(t.to_string(), "Service call timeout");
}
