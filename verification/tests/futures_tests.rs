use heater_control::futures::{select5, select6, select7};
use std::future::Future;
use std::pin::Pin;
use std::task::{Context, Poll};

struct Immediate(u32);

impl Future for Immediate {
    type Output = u32;

    fn poll(self: Pin<&mut Self>, _cx: &mut Context<'_>) -> Poll<u32> {
        Poll::Ready(self.0)
    }
}

#[test]
fn select5_bundles_its_futures_in_order() {
    let s = select5(
        Immediate(1),
        Immediate(2),
        Immediate(3),
        Immediate(4),
        Immediate(5),
    );
    assert_eq!(s.a.0, 1);
    assert_eq!(s.b.0, 2);
    assert_eq!(s.c.0, 3);
    assert_eq!(s.d.0, 4);
    assert_eq!(s.e.0, 5);
}

#[test]
fn select6_bundles_its_futures_in_order() {
    let s = select6(
        Immediate(1),
        Immediate(2),
        Immediate(3),
        Immediate(4),
        Immediate(5),
        Immediate(6),
    );
    assert_eq!(s.a.0, 1);
    assert_eq!(s.f.0, 6);
}

#[test]
fn select7_bundles_its_futures_in_order() {
    let s = select7(
        Immediate(1),
        Immediate(2),
        Immediate(3),
        Immediate(4),
        Immediate(5),
        Immediate(6),
        Immediate(7),
    );
    assert_eq!(s.a.0, 1);
    assert_eq!(s.f.0, 6);
    assert_eq!(s.g.0, 7);
}
