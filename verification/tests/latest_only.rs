use std::sync::atomic::{AtomicUsize, Ordering};
use std::sync::Arc;
use std::task::{Wake, Waker};

use mezzenger::channel::{transports, Error};
use mezzenger::latest_only::{Drain, Freshness, LatestOnly};
use mezzenger::numbered::{Numbered, Unwrap, Wrapper};
use mezzenger::transport::Transport;
use mezzenger::Polled;

struct Count(AtomicUsize);

impl Wake for Count {
    fn wake(self: Arc<Self>) {
        self.0.fetch_add(1, Ordering::SeqCst);
    }

    fn wake_by_ref(self: &Arc<Self>) {
        self.0.fetch_add(1, Ordering::SeqCst);
    }
}

fn waker() -> Waker {
    Waker::from(Arc::new(Count(AtomicUsize::new(0))))
}

fn receive<T: Transport<I, O, E>, I, O, E>(transport: &mut T) -> I {
    match transport.poll_next(&waker()) {
        Polled::Ready(Some(Ok(item))) => item,
        _ => panic!("nothing to receive"),
    }
}

#[test]
fn latest_only_test_transport() {
    let (left, right) = transports::<Wrapper<usize, i32>, Wrapper<usize, i32>>();

    let left = Numbered::new_usize(left);
    let right = Numbered::new_usize(right);

    let mut left = LatestOnly::new(left);
    let mut right = LatestOnly::new(right);

    left.start_send(1).unwrap();
    left.start_send(2).unwrap();
    left.start_send(3).unwrap();

    assert_eq!(receive(&mut right).unwrap(), 3);

    right.start_send(1).unwrap();
    right.start_send(2).unwrap();
    right.start_send(3).unwrap();

    assert_eq!(receive(&mut left).unwrap(), 3);
}

#[test]
fn test_order() {
    let (mut left, right) = transports::<Wrapper<usize, i32>, Wrapper<usize, i32>>();

    let right = Numbered::new_usize(right);

    let mut right = LatestOnly::new(right);

    left.start_send(Wrapper { number: 1, wrapped: 2 }).unwrap();
    left.start_send(Wrapper { number: 2, wrapped: 3 }).unwrap();
    left.start_send(Wrapper { number: 0, wrapped: 1 }).unwrap();

    right.start_send(1).unwrap();

    assert_eq!(receive(&mut right).unwrap(), 3);
    assert_eq!(right.last_number(), Some(2));
    assert_eq!(receive(&mut left).unwrap(), 1);
}

#[test]
fn test_unwrapping() {
    let (left, right) = transports::<Wrapper<usize, i32>, Wrapper<usize, i32>>();

    let left = Numbered::new_usize(left);
    let right = Numbered::new_usize(right);

    let mut left = LatestOnly::new(left).into_unwrapping();
    let mut right = LatestOnly::new(right).into_unwrapping();

    left.start_send(1).unwrap();
    left.start_send(2).unwrap();
    left.start_send(3).unwrap();

    assert_eq!(receive(&mut right), 3);

    right.start_send(1).unwrap();
    right.start_send(2).unwrap();
    right.start_send(3).unwrap();

    assert_eq!(receive(&mut left), 3);
}

#[test]
fn numbers_given_are_strictly_increasing_and_stale_messages_are_dropped() {
    let (mut left, right) = transports::<Wrapper<u32, u32>, Wrapper<u32, u32>>();
    let mut right = LatestOnly::new(right);
    let waker = waker();
    assert!(right.poll_next(&waker).is_pending());

    for number in [3u32, 1, 2] {
        left.start_send(Wrapper { number, wrapped: number * 10 }).unwrap();
    }
    assert_eq!(
        right.poll_next(&waker),
        Polled::Ready(Some(Ok(Wrapper { number: 3, wrapped: 30 })))
    );
    for number in [2u32, 3, 0] {
        left.start_send(Wrapper { number, wrapped: number * 10 }).unwrap();
    }
    assert!(right.poll_next(&waker).is_pending());
    assert_eq!(right.last_number(), Some(3));
    for number in [4u32, 9, 5] {
        left.start_send(Wrapper { number, wrapped: number * 10 }).unwrap();
    }
    assert_eq!(
        right.poll_next(&waker),
        Polled::Ready(Some(Ok(Wrapper { number: 9, wrapped: 90 })))
    );
    assert_eq!(right.last_number(), Some(9));
}

#[test]
fn end_of_stream_is_handed_on_even_with_a_message_at_hand() {
    let (mut left, right) = transports::<Wrapper<u32, u32>, Wrapper<u32, u32>>();
    let mut right = LatestOnly::new(right);
    left.start_send(Wrapper { number: 1, wrapped: 1 }).unwrap();
    drop(left);
    assert_eq!(right.poll_next(&waker()), Polled::Ready(None));
    assert!(right.is_terminated());
}

#[test]
fn each_step_of_a_drain() {
    let (_left, right) = transports::<Wrapper<u32, u32>, Wrapper<u32, u32>>();
    let mut right = LatestOnly::new(right);
    let first = Wrapper { number: 5u32, wrapped: 50u32 };
    let stale = Wrapper { number: 4u32, wrapped: 40u32 };
    let equal = Wrapper { number: 5u32, wrapped: 51u32 };
    let newer = Wrapper { number: 6u32, wrapped: 60u32 };

    let drain = right.step(None, Polled::Ready(Some(Ok(first))));
    assert!(matches!(drain, Drain::Again(Some(Wrapper { number: 5, wrapped: 50 }))));
    assert_eq!(right.last_number(), Some(5));

    let held = Some(Wrapper { number: 5u32, wrapped: 50u32 });
    let drain = right.step(held, Polled::Ready(Some(Ok(stale))));
    assert!(matches!(drain, Drain::Again(Some(Wrapper { number: 5, wrapped: 50 }))));
    let drain = right.step(None, Polled::Ready(Some(Ok(equal))));
    assert!(matches!(drain, Drain::Again(None)));
    assert_eq!(right.last_number(), Some(5));

    let drain = right.step(None, Polled::Ready(Some(Ok(newer))));
    assert!(matches!(drain, Drain::Again(Some(Wrapper { number: 6, wrapped: 60 }))));
    assert_eq!(right.last_number(), Some(6));

    let held = Some(Wrapper { number: 6u32, wrapped: 60u32 });
    let drain = right.step(held, Polled::Pending);
    assert!(matches!(
        drain,
        Drain::Done(Polled::Ready(Some(Ok(Wrapper { number: 6, wrapped: 60 }))))
    ));
    let drain = right.step(None, Polled::Pending);
    assert!(matches!(drain, Drain::Done(Polled::Pending)));

    let held = Some(Wrapper { number: 6u32, wrapped: 60u32 });
    let drain = right.step(held, Polled::Ready(Some(Err(Error::ChannelIsFull))));
    assert!(matches!(
        drain,
        Drain::Done(Polled::Ready(Some(Err(Error::ChannelIsFull))))
    ));
    let held = Some(Wrapper { number: 6u32, wrapped: 60u32 });
    let drain = right.step(held, Polled::Ready(None));
    assert!(matches!(drain, Drain::Done(Polled::Ready(None))));
    assert_eq!(right.last_number(), Some(6));
}

#[test]
fn a_number_that_wrapped_around_counts_as_stale() {
    let (mut left, right) = transports::<Wrapper<u8, u32>, Wrapper<u8, u32>>();
    let mut right = LatestOnly::new(right);
    left.start_send(Wrapper { number: 255, wrapped: 1 }).unwrap();
    assert_eq!(receive(&mut right).unwrap(), 1);
    left.start_send(Wrapper { number: 0, wrapped: 2 }).unwrap();
    assert!(right.poll_next(&waker()).is_pending());
    assert_eq!(right.last_number(), Some(255));
}

#[test]
fn as_serial_numbers_a_number_that_wrapped_around_is_newer() {
    let (mut left, right) = transports::<Wrapper<u8, u32>, Wrapper<u8, u32>>();
    let mut right = LatestOnly::with_freshness(right, Freshness::Serial);
    assert_eq!(right.compares(), Freshness::Serial);
    left.start_send(Wrapper { number: 250, wrapped: 1 }).unwrap();
    assert_eq!(receive(&mut right).unwrap(), 1);
    left.start_send(Wrapper { number: 3, wrapped: 2 }).unwrap();
    assert_eq!(receive(&mut right).unwrap(), 2);
    assert_eq!(right.last_number(), Some(3));
    left.start_send(Wrapper { number: 250, wrapped: 3 }).unwrap();
    left.start_send(Wrapper { number: 3, wrapped: 4 }).unwrap();
    left.start_send(Wrapper { number: 131, wrapped: 5 }).unwrap();
    assert!(right.poll_next(&waker()).is_pending());
    assert_eq!(right.last_number(), Some(3));
    left.start_send(Wrapper { number: 130, wrapped: 6 }).unwrap();
    assert_eq!(receive(&mut right).unwrap(), 6);
}

#[test]
fn new_compares_in_the_natural_order() {
    let (_left, right) = transports::<Wrapper<u8, u32>, Wrapper<u8, u32>>();
    let right = LatestOnly::new(right);
    assert_eq!(right.compares(), Freshness::Natural);
}
