use actix_net::poll::Poll;
use actix_net::utils::order::{AckStep, InOrder, InOrderError, InOrderService, InOrderServiceResponse};
use std::collections::HashMap;

/// Forwards every finished result at the front of the queue, as the
/// service's readiness check does; `finished` holds the results of the
/// finished inner calls by call number.
fn forward(
    svc: &mut InOrderService<(), u32>,
    finished: &HashMap<u32, usize>,
    delivered: &mut Vec<(u32, usize)>,
) -> Poll<Result<(), InOrderError<()>>> {
    while let Some(rec) = svc.next_ack() {
        let polled = match finished.get(&rec) {
            Some(v) => Poll::Ready(Some(*v)),
            None => Poll::Pending,
        };
        match svc.on_ack(rec, polled) {
            AckStep::Forward(rec, res) => delivered.push((rec, res)),
            AckStep::Wait => break,
            AckStep::Disconnected => return Poll::Ready(Err(InOrderError::Disconnected)),
        }
    }
    InOrderService::<(), u32>::ready(Poll::Ready(Ok(())))
}

#[test]
fn test_inorder() {
    let mut svc: InOrderService<(), u32> = InOrder::<()>::new().new_transform(());
    for call in 1..=3 {
        svc.push_ack(call);
    }
    let mut finished = HashMap::new();
    let mut delivered = Vec::new();
    // the third call finishes first: nothing can be delivered yet
    finished.insert(3, 3);
    assert!(matches!(forward(&mut svc, &finished, &mut delivered), Poll::Ready(Ok(()))));
    assert!(delivered.is_empty());
    finished.insert(2, 2);
    let _ = forward(&mut svc, &finished, &mut delivered);
    assert!(delivered.is_empty());
    finished.insert(1, 1);
    let _ = forward(&mut svc, &finished, &mut delivered);
    assert_eq!(delivered, vec![(1, 1), (2, 2), (3, 3)]);
    assert!(svc.next_ack().is_none());
}

#[test]
fn inorder_dropped_call_disconnects() {
    let mut svc: InOrderService<(), u32> = InOrder::service(());
    svc.push_ack(1);
    let rec = svc.next_ack().unwrap();
    assert!(matches!(svc.on_ack::<u8>(rec, Poll::Ready(None)), AckStep::Disconnected));
    // the record stays at the front
    assert_eq!(svc.next_ack(), Some(1));
}

#[test]
fn inorder_response_outcomes() {
    let resp: InOrderServiceResponse<()> = InOrderServiceResponse::new();
    assert!(matches!(resp.poll::<u8, u8>(Poll::Ready(Some(Ok(1)))), Poll::Ready(Ok(1))));
    assert!(matches!(resp.poll::<u8, u8>(Poll::Ready(Some(Err(2)))), Poll::Ready(Err(InOrderError::Service(2)))));
    assert!(matches!(resp.poll::<u8, u8>(Poll::Ready(None)), Poll::Ready(Err(InOrderError::Disconnected))));
    assert!(matches!(resp.poll::<u8, u8>(Poll::Pending), Poll::Pending));
    assert!(matches!(InOrderService::<(), u8>::ready::<u8>(Poll::Ready(Err(5))), Poll::Ready(Err(InOrderError::Service(5)))));
    let e: InOrderError<u8> = 9u8.into();
    assert!(matches!(e, InOrderError::Service(9)));
}

#[test]
fn inorder_error_text() {
    let e: InOrderError<&str> = InOrderError::Service("gone");
    assert_eq!(e.debug_string(), "InOrderError::Service(\"gone\")");
    assert_eq!(e.to_string(), "gone");
    let d: InOrderError<&str> = InOrderError::Disconnected;
    assert_eq!(d.debug_string(), "InOrderError::Disconnected");
    assert_eq!(d.to_string(), "InOrder service disconnected");
}
