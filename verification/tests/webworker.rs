use std::sync::atomic::{AtomicUsize, Ordering};
use std::sync::Arc;
use std::task::{Wake, Waker};

use mezzenger::browser::State;
use mezzenger::websocket::wasm;
use mezzenger::webworker::{
    on_message, posted, send_inner, Error, Handshake, Heard, Opening, PostMessage, Transport,
    Wrapper,
};
use mezzenger::Polled;

struct Count(AtomicUsize);

impl Wake for Count {
    fn wake(self: Arc<Self>) {
        self.0.fetch_add(1, Ordering::SeqCst);
    }

    fn wake_by_ref(self: &Arc<Self>) {
        self.0.fetch_add(1, Ordering::SeqCst);
    }
}

fn counting_waker() -> (Arc<Count>, Waker) {
    let count = Arc::new(Count(AtomicUsize::new(0)));
    (count.clone(), Waker::from(count))
}

fn wakes(count: &Arc<Count>) -> usize {
    count.0.load(Ordering::SeqCst)
}

type Worker = Transport<u32, &'static str, &'static str, &'static str, &'static str>;

#[test]
fn worker_speaks_first_and_host_listens_first() {
    let mut worker = Worker::new_in_worker();
    let mut host = Worker::new();
    assert_eq!(worker.opening(), Opening::SayOpen);
    assert_eq!(host.opening(), Opening::AwaitOpen);

    worker.said_open();
    assert_eq!(worker.opening(), Opening::AwaitOpen);
    assert_eq!(host.heard(Ok(Wrapper::Open)), Heard::Opened);
    assert_eq!(host.opening(), Opening::SayOpen);
    host.said_open();
    assert_eq!(host.opening(), Opening::Done);
    assert_eq!(worker.heard(Ok(Wrapper::Open)), Heard::Opened);
    assert_eq!(worker.opening(), Opening::Done);

    assert_eq!(worker.heard(Ok(Wrapper::Open)), Heard::OpenedTwice);
    assert_eq!(worker.opening(), Opening::Done);
}

#[test]
fn handshake_on_its_own() {
    let mut handshake = Handshake::new(false);
    assert!(!handshake.is_done());
    assert_eq!(handshake.next(), Opening::AwaitOpen);
    handshake.said_open();
    assert_eq!(handshake.next(), Opening::AwaitOpen);
    let mut state: State<u32, Error<(), (), (), ()>> = State::new();
    assert_eq!(
        on_message(&mut handshake, &mut state, Ok(Wrapper::Open)),
        Heard::Opened
    );
    assert!(handshake.is_done());
    assert_eq!(handshake.next(), Opening::Done);
}

#[test]
fn messages_errors_and_close_reach_the_receiver_in_order() {
    let mut host = Worker::new();
    let (count, waker) = counting_waker();
    assert!(host.poll_next(&waker).is_pending());
    assert_eq!(host.heard(Ok(Wrapper::Message(1))), Heard::Queued);
    assert_eq!(wakes(&count), 1);
    assert_eq!(host.heard(Err("garbled")), Heard::Queued);
    host.worker_failed("crashed");
    host.message_failed("lost");
    assert_eq!(host.heard(Ok(Wrapper::Message(2))), Heard::Queued);
    assert_eq!(host.heard(Ok(Wrapper::Close)), Heard::Closed);
    assert_eq!(wakes(&count), 1);
    assert!(!host.is_terminated());

    assert!(matches!(host.poll_next(&waker), Polled::Ready(Some(Ok(1)))));
    assert!(matches!(
        host.poll_next(&waker),
        Polled::Ready(Some(Err(Error::DeserializationError("garbled"))))
    ));
    assert!(matches!(
        host.poll_next(&waker),
        Polled::Ready(Some(Err(Error::WorkerError("crashed"))))
    ));
    assert!(matches!(
        host.poll_next(&waker),
        Polled::Ready(Some(Err(Error::MessageError("lost"))))
    ));
    assert!(matches!(host.poll_next(&waker), Polled::Ready(Some(Ok(2)))));
    assert!(host.is_terminated());
    assert!(matches!(host.poll_next(&waker), Polled::Ready(None)));
    assert!(matches!(host.poll_next(&waker), Polled::Ready(None)));
}

#[test]
fn a_closed_transport_refuses_the_sender() {
    let mut worker = Worker::new_in_worker();
    assert!(worker.poll_ready().is_ok());
    assert!(worker.start_send().is_ok());
    assert!(worker.poll_flush().is_ok());
    assert!(worker.poll_close().is_ok());
    assert!(matches!(worker.poll_ready(), Err(mezzenger::Error::Closed)));
    assert!(matches!(worker.start_send(), Err(mezzenger::Error::Closed)));
    assert!(matches!(worker.poll_flush(), Err(mezzenger::Error::Closed)));
    assert!(matches!(worker.poll_close(), Err(mezzenger::Error::Closed)));
    assert!(worker.is_terminated());
}

#[test]
fn close_wakes_the_receiver() {
    let mut worker = Worker::new_in_worker();
    let (count, waker) = counting_waker();
    assert!(worker.poll_next(&waker).is_pending());
    assert!(worker.poll_close().is_ok());
    assert_eq!(wakes(&count), 1);
    assert!(matches!(worker.poll_next(&waker), Polled::Ready(None)));
}

struct Target {
    open: bool,
    posts: std::cell::RefCell<Vec<Vec<u8>>>,
}

impl PostMessage<Vec<u8>, &'static str> for Target {
    fn post_message(&self, message: &Vec<u8>) -> Result<(), &'static str> {
        if self.open {
            self.posts.borrow_mut().push(message.clone());
            Ok(())
        } else {
            Err("target is gone")
        }
    }
}

#[test]
fn what_posting_a_frame_gave() {
    let target = Target { open: true, posts: std::cell::RefCell::new(Vec::new()) };
    let sent: Result<(), Error<&str, (), &str, ()>> = send_inner(&target, Ok(vec![1u8, 2]));
    assert!(sent.is_ok());
    let sent: Result<(), Error<&str, (), &str, ()>> = send_inner(&target, Err("encode"));
    assert!(matches!(sent, Err(Error::SerializationError("encode"))));
    assert_eq!(*target.posts.borrow(), vec![vec![1u8, 2]]);
    let gone = Target { open: false, posts: std::cell::RefCell::new(Vec::new()) };
    let sent: Result<(), Error<&str, (), &str, ()>> = send_inner(&gone, Ok(vec![3u8]));
    assert!(matches!(sent, Err(Error::SendingError("target is gone"))));
    let mapped: Result<(), Error<(), (), &str, ()>> = posted(Err("post"));
    assert!(matches!(mapped, Err(Error::SendingError("post"))));
    let mapped: Result<(), Error<(), (), &str, ()>> = posted(Ok(()));
    assert!(mapped.is_ok());
}

#[test]
fn browser_socket_events() {
    type Socket = wasm::Transport<u32, &'static str, &'static str, &'static str, &'static str>;
    let mut socket = Socket::new_assuming_open();
    let (count, waker) = counting_waker();
    assert!(socket.poll_next(&waker).is_pending());
    socket.on_message(Ok(5));
    assert_eq!(wakes(&count), 1);
    socket.on_message(Err("garbled"));
    assert!(socket.poll_ready().is_ok());
    socket.on_error("broken");
    assert!(matches!(socket.poll_ready(), Err(mezzenger::Error::Closed)));
    assert!(matches!(socket.poll_next(&waker), Polled::Ready(Some(Ok(5)))));
    assert!(matches!(
        socket.poll_next(&waker),
        Polled::Ready(Some(Err(wasm::Error::DeserializationError("garbled"))))
    ));
    assert!(matches!(
        socket.poll_next(&waker),
        Polled::Ready(Some(Err(wasm::Error::WebSocketError("broken"))))
    ));
    assert!(matches!(socket.poll_next(&waker), Polled::Ready(None)));
    assert!(socket.is_terminated());
    assert!(matches!(
        socket.poll_close(Ok(())),
        Err(mezzenger::Error::Closed)
    ));

    let mut socket = Socket::new_assuming_open();
    assert!(matches!(
        socket.poll_close(Err("refused")),
        Err(mezzenger::Error::Other(wasm::Error::ClosingError("refused")))
    ));
    assert!(socket.is_terminated());
    let mut socket = Socket::new_assuming_open();
    socket.on_close();
    assert!(socket.is_terminated());
    let mut socket = Socket::new_assuming_open();
    assert!(socket.poll_close(Ok(())).is_ok());
    let mut calls = 0;
    let sent: Result<(), wasm::Error<&str, (), &str, ()>> =
        wasm::send_inner(Ok(vec![1u8]), |_bytes: Vec<u8>| {
            calls += 1;
            Err("no")
        });
    assert!(matches!(sent, Err(wasm::Error::SendingError("no"))));
    let sent: Result<(), wasm::Error<&str, (), &str, ()>> =
        wasm::send_inner(Err("enc"), |_bytes: Vec<u8>| {
            calls += 1;
            Ok(())
        });
    assert!(matches!(sent, Err(wasm::Error::SerializationError("enc"))));
    let sent: Result<(), wasm::Error<&str, (), &str, ()>> =
        wasm::send_inner(Ok(vec![2u8]), |bytes: Vec<u8>| {
            calls += bytes.len();
            Ok(())
        });
    assert!(sent.is_ok());
    assert_eq!(calls, 2);
    let mapped: Result<(), wasm::Error<(), (), &str, ()>> = wasm::sent(Err("refused"));
    assert!(matches!(mapped, Err(wasm::Error::SendingError("refused"))));
}

#[test]
fn single_receiver_state() {
    let mut state: State<u32, &str> = State::new();
    let (count, waker) = counting_waker();
    let (other_count, other_waker) = counting_waker();
    assert!(state.poll_next(&waker).is_pending());
    assert!(state.poll_next(&other_waker).is_pending());
    state.message(1);
    assert_eq!((wakes(&count), wakes(&other_count)), (0, 1));
    state.error("bad");
    assert_eq!((wakes(&count), wakes(&other_count)), (0, 1));
    assert!(!state.is_closed());
    state.close();
    assert!(state.is_closed());
    assert!(!state.is_terminated());
    assert_eq!(state.poll_next(&waker), Polled::Ready(Some(Ok(1))));
    assert_eq!(state.poll_next(&waker), Polled::Ready(Some(Err("bad"))));
    assert!(state.is_terminated());
    assert_eq!(state.poll_next(&waker), Polled::Ready(None));
    state.update_waker_with(&waker);
    state.wake();
    state.wake();
    assert_eq!(wakes(&count), 1);
}
