use actix_net::poll::Poll;
use actix_net::utils::either::{Either, EitherNewService};

#[test]
fn either_new_service_waits_for_both() {
    let f = Either::new(1u8, 2u16);
    assert_eq!((*f.left_ref(), *f.right_ref()), (1, 2));
    let g = f.clone();
    let mut fut: EitherNewService<u8, u16> = EitherNewService::new();
    assert!(fut.needs_left() && fut.needs_right());
    assert!(fut.on_right::<()>(Poll::Ready(Ok(*g.right_ref()))).is_ok());
    assert!(matches!(fut.finish(), Poll::Pending));
    assert!(fut.on_left::<()>(Poll::Pending).is_ok());
    assert!(fut.needs_left());
    assert!(fut.on_left::<()>(Poll::Ready(Ok(*g.left_ref()))).is_ok());
    match fut.finish() {
        Poll::Ready(s) => {
            let mut s = s.clone();
            assert_eq!(*s.left_mut(), 1);
            assert_eq!(*s.right_mut(), 2);
        }
        Poll::Pending => panic!(),
    }
}
