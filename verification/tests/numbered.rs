use std::sync::Arc;
use std::task::{Wake, Waker};

use mezzenger::channel::transports;
use mezzenger::numbered::{Counter, Number, Numbered, Unwrap, Wrapper};
use mezzenger::transport::Transport;
use mezzenger::Polled;

struct Idle;

impl Wake for Idle {
    fn wake(self: Arc<Self>) {}
}

fn waker() -> Waker {
    Waker::from(Arc::new(Idle))
}

fn receive<T: Transport<I, O, E>, I, O, E>(transport: &mut T) -> I {
    match transport.poll_next(&waker()) {
        Polled::Ready(Some(Ok(item))) => item,
        _ => panic!("nothing to receive"),
    }
}

#[test]
fn numbered_test_transport() {
    let (left, right) = transports::<Wrapper<usize, i32>, Wrapper<usize, i32>>();

    let mut left = Numbered::new_usize(left);
    let mut right = Numbered::new_usize(right);

    left.start_send(1).unwrap();
    left.start_send(2).unwrap();
    left.start_send(3).unwrap();

    assert_eq!(receive(&mut right), Wrapper { number: 0, wrapped: 1 });
    assert_eq!(receive(&mut right), Wrapper { number: 1, wrapped: 2 });
    assert_eq!(receive(&mut right), Wrapper { number: 2, wrapped: 3 });

    right.start_send(1).unwrap();
    right.start_send(2).unwrap();
    right.start_send(3).unwrap();

    assert_eq!(receive(&mut left), Wrapper { number: 0, wrapped: 1 });
    assert_eq!(receive(&mut left), Wrapper { number: 1, wrapped: 2 });
    assert_eq!(receive(&mut left), Wrapper { number: 2, wrapped: 3 });
    assert_eq!(left.current_number(), 3);
    assert_eq!(right.current_number(), 3);
}

#[test]
fn numbers_wrap_around_to_zero() {
    let (left, mut right) = transports::<Wrapper<u8, u32>, Wrapper<u8, u32>>();
    let mut left: Numbered<u8, _, _, u32, u32> = Numbered::new(left);
    for sent in 0..600u32 {
        assert_eq!(left.current_number(), (sent % 256) as u8);
        left.start_send(sent).unwrap();
        let got = receive(&mut right);
        assert_eq!(got.number, (sent % 256) as u8);
        assert_eq!(got.wrapped, sent);
    }
    assert_eq!(left.current_number(), (600 % 256) as u8);
}

#[test]
fn number_stays_when_the_message_is_refused() {
    let (left, right) = transports::<Wrapper<u32, u32>, Wrapper<u32, u32>>();
    let mut left = Numbered::new_u32(left);
    left.start_send(5).unwrap();
    assert_eq!(left.current_number(), 1);
    drop(right);
    assert_eq!(left.start_send(6), Err(mezzenger::Error::Closed));
    assert_eq!(left.current_number(), 1);
    assert_eq!(
        left.record(Err(mezzenger::Error::Closed)),
        Err(mezzenger::Error::Closed)
    );
    assert_eq!(left.current_number(), 1);
    assert_eq!(left.record(Ok(())), Ok(()));
    assert_eq!(left.current_number(), 2);
    assert_eq!(left.wrap(9), Wrapper { number: 2, wrapped: 9 });
}

#[test]
fn constructors_start_at_zero() {
    let (a, _a) = transports::<Wrapper<u32, ()>, Wrapper<u32, ()>>();
    let (b, _b) = transports::<Wrapper<u64, ()>, Wrapper<u64, ()>>();
    let (c, _c) = transports::<Wrapper<u128, ()>, Wrapper<u128, ()>>();
    let (d, _d) = transports::<Wrapper<usize, ()>, Wrapper<usize, ()>>();
    assert_eq!(Numbered::new_u32(a).current_number(), 0u32);
    assert_eq!(Numbered::new_u64(b).current_number(), 0u64);
    assert_eq!(Numbered::new_u128(c).current_number(), 0u128);
    assert_eq!(Numbered::new_usize(d).current_number(), 0usize);
}

#[test]
fn counters_step_and_compare() {
    assert_eq!(<u8 as Counter>::zero(), 0);
    assert_eq!(7u8.successor(), 8);
    assert_eq!(u8::MAX.successor(), 0);
    assert_eq!(u16::MAX.successor(), 0);
    assert_eq!(u32::MAX.successor(), 0);
    assert_eq!(u64::MAX.successor(), 0);
    assert_eq!(u128::MAX.successor(), 0);
    assert_eq!(usize::MAX.successor(), 0);
    assert_eq!(41u64.successor(), 42);
    assert!(2u32.newer_than(1));
    assert!(!1u32.newer_than(1));
    assert!(!0u32.newer_than(u32::MAX));
}

#[test]
fn wrapper_gives_its_number_and_its_message() {
    let wrapper = Wrapper { number: 4u16, wrapped: "four".to_string() };
    assert_eq!(wrapper.number(), 4);
    assert_eq!(wrapper.unwrap(), "four".to_string());
}

#[test]
fn serial_comparison_looks_half_the_range_ahead() {
    assert!(1u8.serially_newer_than(0));
    assert!(!0u8.serially_newer_than(0));
    assert!(!0u8.serially_newer_than(1));
    assert!(0u8.serially_newer_than(255));
    assert!(!255u8.serially_newer_than(0));
    assert!(127u8.serially_newer_than(0));
    assert!(!128u8.serially_newer_than(0));
    assert!(!129u8.serially_newer_than(0));
    assert!(0u32.serially_newer_than(u32::MAX));
    assert!(5u64.serially_newer_than(u64::MAX - 5));
    assert!((1u128 << 126).serially_newer_than(0));
    assert!(!(1u128 << 127).serially_newer_than(0));
    assert!(0usize.serially_newer_than(usize::MAX));
    assert!(10u16.serially_newer_than(65530));
    assert!(!65530u16.serially_newer_than(10));
}
