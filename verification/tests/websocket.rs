use kodec::binary::Codec;
use kodec::{Decode, Encode};
use mezzenger::websocket::receiver::Receiver;
use mezzenger::websocket::sender::{map_warp_error, map_warp_error_as, Sender};
use mezzenger::websocket::{
    judge, map_error, map_error_as, sort, Error, Fault, Frame, Transport, Verdict,
};
use mezzenger::{Advance, Polled};
use tungstenite::error::ProtocolError;
use tungstenite::Message;

type CodecError = <Codec as Encode>::Error;
type Socket = Transport<(), Codec, String, String>;

fn transport() -> Socket {
    Transport::new((), Codec::default())
}

fn frame_for(transport: &Socket, text: &str) -> Message {
    let mut buffer = vec![];
    let encoding = transport
        .codec()
        .encode(&mut buffer, &text.to_string())
        .map(|_| buffer);
    transport
        .start_send::<CodecError, CodecError>(encoding)
        .unwrap()
}

#[test]
fn messages_travel_as_binary_frames() {
    let mut left = transport();
    let frame = frame_for(&left, "Hello World!");
    assert!(frame.is_binary());
    let polled = left.poll_next::<CodecError, CodecError>(Polled::Ready(Some(Ok(frame))));
    match polled {
        Advance::Ready(Some(Ok(payload))) => {
            let decoded: String = left.codec().decode(&payload[..]).unwrap();
            assert_eq!(decoded, "Hello World!");
        }
        _ => panic!("no payload"),
    }
    assert!(!left.is_terminated());
}

#[test]
fn frames_that_are_not_binary_are_passed_over() {
    let mut left = transport();
    for frame in [
        Message::text("hello"),
        Message::Ping(vec![1u8].into()),
        Message::Pong(vec![1u8].into()),
    ] {
        let polled = left.poll_next::<CodecError, CodecError>(Polled::Ready(Some(Ok(frame))));
        assert!(matches!(polled, Advance::Again));
        assert!(!left.is_terminated());
    }
    assert!(matches!(
        left.poll_next::<CodecError, CodecError>(Polled::Pending),
        Advance::Pending
    ));
}

#[test]
fn close_frame_reset_and_end_of_connection_end_the_stream() {
    let mut left = transport();
    let polled = left.poll_next::<CodecError, CodecError>(Polled::Ready(Some(Ok(Message::Close(None)))));
    assert!(matches!(polled, Advance::Ready(None)));
    assert!(left.is_terminated());

    let mut left = transport();
    let reset = tungstenite::Error::Protocol(ProtocolError::ResetWithoutClosingHandshake);
    let polled = left.poll_next::<CodecError, CodecError>(Polled::Ready(Some(Err(reset))));
    assert!(matches!(polled, Advance::Ready(None)));
    assert!(left.is_terminated());

    let mut left = transport();
    let polled = left.poll_next::<CodecError, CodecError>(Polled::Ready(None));
    assert!(matches!(polled, Advance::Ready(None)));
    assert!(left.is_terminated());
}

#[test]
fn a_closed_connection_ends_the_stream_and_refuses_the_sender() {
    for error in [
        tungstenite::Error::ConnectionClosed,
        tungstenite::Error::AlreadyClosed,
    ] {
        let mut left = transport();
        let polled = left.poll_next::<CodecError, CodecError>(Polled::Ready(Some(Err(error))));
        assert!(matches!(polled, Advance::Ready(None)));
        assert!(left.is_terminated());
        let refused = left.start_send::<CodecError, CodecError>(Ok(vec![1, 2, 3]));
        assert!(matches!(refused, Err(mezzenger::Error::Closed)));
    }
    let mut left = transport();
    let polled =
        left.poll_next::<CodecError, CodecError>(Polled::Ready(Some(Ok(Message::Close(None)))));
    assert!(matches!(polled, Advance::Ready(None)));
    let refused = left.start_send::<CodecError, CodecError>(Ok(vec![1, 2, 3]));
    assert!(matches!(refused, Err(mezzenger::Error::Closed)));
}

#[test]
fn other_failures_are_handed_on() {
    let mut left = transport();
    for error in [
        tungstenite::Error::AttackAttempt,
        tungstenite::Error::Utf8("bad".to_string()),
        tungstenite::Error::Protocol(ProtocolError::NonZeroReservedBits),
    ] {
        let polled = left.poll_next::<CodecError, CodecError>(Polled::Ready(Some(Err(error))));
        assert!(matches!(
            polled,
            Advance::Ready(Some(Err(Error::TungsteniteError(_))))
        ));
        assert!(!left.is_terminated());
    }
}

#[test]
fn sender_is_closed_by_a_closed_connection_only() {
    let closed: mezzenger::Error<Error<(), ()>> = map_error(tungstenite::Error::ConnectionClosed);
    assert!(closed.is_closed());
    let closed: mezzenger::Error<Error<(), ()>> = map_error(tungstenite::Error::AlreadyClosed);
    assert!(closed.is_closed());
    let reset: mezzenger::Error<Error<(), ()>> = map_error(tungstenite::Error::Protocol(
        ProtocolError::ResetWithoutClosingHandshake,
    ));
    assert!(matches!(
        reset,
        mezzenger::Error::Other(Error::TungsteniteError(tungstenite::Error::Protocol(
            ProtocolError::ResetWithoutClosingHandshake
        )))
    ));
    let other: mezzenger::Error<Error<(), ()>> = map_error(tungstenite::Error::AttackAttempt);
    assert!(matches!(
        other,
        mezzenger::Error::Other(Error::TungsteniteError(tungstenite::Error::AttackAttempt))
    ));
    let forced: mezzenger::Error<Error<(), ()>> =
        map_error_as(Fault::AlreadyClosed, tungstenite::Error::AttackAttempt);
    assert!(forced.is_closed());
}

#[test]
fn frames_and_failures_are_sorted_by_their_variant() {
    let sorted = sort(Polled::Ready(Some(Ok(Message::binary(vec![1u8, 2, 3])))));
    assert!(matches!(
        sorted,
        Polled::Ready(Some(Ok(Frame::Binary(ref payload)))) if payload == &vec![1u8, 2, 3]
    ));
    assert!(matches!(
        sort(Polled::Ready(Some(Ok(Message::text("a"))))),
        Polled::Ready(Some(Ok(Frame::Text)))
    ));
    assert!(matches!(
        sort(Polled::Ready(Some(Ok(Message::Ping(vec![].into()))))),
        Polled::Ready(Some(Ok(Frame::Ping)))
    ));
    assert!(matches!(
        sort(Polled::Ready(Some(Ok(Message::Pong(vec![].into()))))),
        Polled::Ready(Some(Ok(Frame::Pong)))
    ));
    assert!(matches!(
        sort(Polled::Ready(Some(Ok(Message::Close(None))))),
        Polled::Ready(Some(Ok(Frame::Close)))
    ));
    assert!(matches!(
        sort(Polled::Ready(Some(Err(tungstenite::Error::ConnectionClosed)))),
        Polled::Ready(Some(Err((Fault::ConnectionClosed, _))))
    ));
    assert!(matches!(
        sort(Polled::Ready(Some(Err(tungstenite::Error::AlreadyClosed)))),
        Polled::Ready(Some(Err((Fault::AlreadyClosed, _))))
    ));
    assert!(matches!(
        sort(Polled::Ready(Some(Err(tungstenite::Error::Protocol(
            ProtocolError::ResetWithoutClosingHandshake
        ))))),
        Polled::Ready(Some(Err((Fault::ResetWithoutClosingHandshake, _))))
    ));
    assert!(matches!(
        sort(Polled::Ready(Some(Err(tungstenite::Error::Utf8("bad".to_string()))))),
        Polled::Ready(Some(Err((Fault::Other, _))))
    ));
    assert!(matches!(sort(Polled::Pending), Polled::Pending));
    assert!(matches!(sort(Polled::Ready(None)), Polled::Ready(None)));
}

#[test]
fn verdicts() {
    assert!(matches!(
        judge::<tungstenite::Error>(Polled::Pending),
        Verdict::Nothing
    ));
    assert!(matches!(
        judge::<tungstenite::Error>(Polled::Ready(None)),
        Verdict::Ended
    ));
    assert!(matches!(
        judge::<tungstenite::Error>(Polled::Ready(Some(Ok(Frame::Binary(vec![4]))))),
        Verdict::Payload(ref payload) if payload == &vec![4u8]
    ));
    assert!(matches!(
        judge::<tungstenite::Error>(Polled::Ready(Some(Ok(Frame::Raw)))),
        Verdict::Skipped
    ));
    assert!(matches!(
        judge(Polled::Ready(Some(Err((
            Fault::Other,
            tungstenite::Error::AttackAttempt
        ))))),
        Verdict::Failed(tungstenite::Error::AttackAttempt)
    ));
}

#[test]
fn failed_encoding_is_a_serialization_error() {
    let left = transport();
    let frame = left.start_send::<&str, ()>(Err("cannot encode"));
    assert!(matches!(
        frame,
        Err(mezzenger::Error::Other(Error::SerializationError("cannot encode")))
    ));
}

#[test]
fn receiver_half() {
    let mut receiver: Receiver<(), Codec, u32> = Receiver::new((), Codec::default());
    let mut buffer = vec![];
    receiver.codec().encode(&mut buffer, &77u32).unwrap();
    let polled = receiver.poll_next::<CodecError>(Polled::Ready(Some(Ok(Message::binary(buffer)))));
    match polled {
        Advance::Ready(Some(Ok(payload))) => {
            let decoding: Result<u32, CodecError> = receiver.codec().decode(&payload[..]);
            assert!(matches!(
                mezzenger::websocket::receiver::decoded(decoding),
                Ok(77)
            ));
        }
        _ => panic!("no payload"),
    }
    assert!(matches!(
        receiver.poll_next::<CodecError>(Polled::Ready(Some(Ok(Message::text("x"))))),
        Advance::Again
    ));
    assert!(matches!(
        receiver.poll_next::<CodecError>(Polled::Pending),
        Advance::Pending
    ));
    let polled = receiver.poll_next::<CodecError>(Polled::Ready(Some(Err(
        tungstenite::Error::AttackAttempt,
    ))));
    assert!(matches!(
        polled,
        Advance::Ready(Some(Err(
            mezzenger::websocket::receiver::Error::TungsteniteError(_)
        )))
    ));
    assert!(!receiver.is_terminated());
    let mut closed: Receiver<(), Codec, u32> = Receiver::new((), Codec::default());
    let polled = closed.poll_next::<CodecError>(Polled::Ready(Some(Err(
        tungstenite::Error::AlreadyClosed,
    ))));
    assert!(matches!(polled, Advance::Ready(None)));
    assert!(closed.is_terminated());
    let polled = receiver.poll_next::<CodecError>(Polled::Ready(Some(Ok(Message::Close(None)))));
    assert!(matches!(polled, Advance::Ready(None)));
    assert!(receiver.is_terminated());
    let bad: Result<u32, &str> = Err("bad");
    assert!(matches!(
        mezzenger::websocket::receiver::decoded(bad),
        Err(mezzenger::websocket::receiver::Error::DeserializationError("bad"))
    ));
}

#[test]
fn sender_half() {
    let sender: Sender<(), Codec, u32> = Sender::new((), Codec::default());
    let mut buffer = vec![];
    sender.codec().encode(&mut buffer, &77u32).unwrap();
    let frame = sender.start_send::<CodecError>(Ok(buffer.clone())).unwrap();
    assert_eq!(frame, Message::binary(buffer));
    let refused = sender.start_send::<&str>(Err("no"));
    assert!(matches!(
        refused,
        Err(mezzenger::Error::Other(
            mezzenger::websocket::sender::Error::SerializationError("no")
        ))
    ));
    let closed: mezzenger::Error<mezzenger::websocket::sender::Error<()>> =
        map_warp_error(tungstenite::Error::ConnectionClosed);
    assert!(closed.is_closed());
    let other: mezzenger::Error<mezzenger::websocket::sender::Error<()>> =
        map_warp_error(tungstenite::Error::AttackAttempt);
    assert!(!other.is_closed());
    let forced: mezzenger::Error<mezzenger::websocket::sender::Error<()>> =
        map_warp_error_as(Fault::ConnectionClosed, tungstenite::Error::AttackAttempt);
    assert!(forced.is_closed());
}

#[test]
fn server_side_connection() {
    use_warp();
}

fn use_warp() {
    let mut transport: mezzenger::websocket::warp::Transport<(), (), u8, u8> =
        mezzenger::websocket::warp::Transport::new((), ());
    let polled = transport.poll_next::<(), (), &str>(Polled::Ready(Some(Ok(Frame::Binary(
        vec![1, 2],
    )))));
    assert!(matches!(polled, Advance::Ready(Some(Ok(ref payload))) if payload == &vec![1u8, 2]));
    let polled = transport.poll_next::<(), (), &str>(Polled::Ready(Some(Ok(Frame::Ping))));
    assert!(matches!(polled, Advance::Again));
    let polled = transport.poll_next::<(), (), &str>(Polled::Ready(Some(Err((
        Fault::Other,
        "failed",
    )))));
    assert!(matches!(
        polled,
        Advance::Ready(Some(Err(mezzenger::websocket::warp::Error::WarpError("failed"))))
    ));
    assert!(!transport.is_terminated());
    let payload = transport.start_send::<(), (), &str>(Ok(vec![5]));
    assert!(matches!(payload, Ok(ref bytes) if bytes == &vec![5u8]));
    let polled = transport.poll_next::<(), (), &str>(Polled::Ready(Some(Err((
        Fault::ResetWithoutClosingHandshake,
        "reset",
    )))));
    assert!(matches!(polled, Advance::Ready(None)));
    assert!(transport.is_terminated());
    let payload = transport.start_send::<(), (), &str>(Ok(vec![5]));
    assert!(matches!(payload, Err(mezzenger::Error::Closed)));

    let mapped: mezzenger::Error<mezzenger::websocket::warp::Error<(), (), &str>> =
        mezzenger::websocket::warp::map_warp_error(Some(Fault::ConnectionClosed), "closed");
    assert!(mapped.is_closed());
    let mapped: mezzenger::Error<mezzenger::websocket::warp::Error<(), (), &str>> =
        mezzenger::websocket::warp::map_warp_error(None, "other");
    assert!(matches!(
        mapped,
        mezzenger::Error::Other(mezzenger::websocket::warp::Error::WarpError("other"))
    ));
    let mapped: mezzenger::Error<mezzenger::websocket::warp::Error<(), (), &str>> =
        mezzenger::websocket::warp::map_warp_error(
            Some(Fault::ResetWithoutClosingHandshake),
            "reset",
        );
    assert!(!mapped.is_closed());

    let polled: Advance<Option<Result<Vec<u8>, mezzenger::websocket::warp::receiver::Error<(), &str>>>> =
        mezzenger::websocket::warp::receiver::poll_next(Polled::Ready(Some(Ok(Frame::Close))));
    assert!(matches!(polled, Advance::Again));
    let polled: Advance<Option<Result<Vec<u8>, mezzenger::websocket::warp::receiver::Error<(), &str>>>> =
        mezzenger::websocket::warp::receiver::poll_next(Polled::Ready(Some(Ok(Frame::Binary(
            vec![3],
        )))));
    assert!(matches!(polled, Advance::Ready(Some(Ok(ref payload))) if payload == &vec![3u8]));
    let polled: Advance<Option<Result<Vec<u8>, mezzenger::websocket::warp::receiver::Error<(), &str>>>> =
        mezzenger::websocket::warp::receiver::poll_next(Polled::Ready(Some(Err("bad"))));
    assert!(matches!(
        polled,
        Advance::Ready(Some(Err(
            mezzenger::websocket::warp::receiver::Error::WarpError("bad")
        )))
    ));
    let polled: Advance<Option<Result<Vec<u8>, mezzenger::websocket::warp::receiver::Error<(), &str>>>> =
        mezzenger::websocket::warp::receiver::poll_next(Polled::Ready(None));
    assert!(matches!(polled, Advance::Ready(None)));

    let mapped: mezzenger::Error<mezzenger::websocket::warp::sender::Error<(), &str>> =
        mezzenger::websocket::warp::sender::map_warp_error(Some(Fault::AlreadyClosed), "closed");
    assert!(mapped.is_closed());
    let refused: Result<Vec<u8>, mezzenger::Error<mezzenger::websocket::warp::sender::Error<&str, ()>>> =
        mezzenger::websocket::warp::sender::start_send(Err("no"));
    assert!(matches!(
        refused,
        Err(mezzenger::Error::Other(
            mezzenger::websocket::warp::sender::Error::SerializationError("no")
        ))
    ));
    assert_eq!(
        mezzenger::websocket::warp::Error::<&str, &str, &str>::WarpError("w").to_string(),
        "warp error occurred: w"
    );
}

fn receive_from(
    transport: &mut Socket,
    frames: &mut std::collections::VecDeque<Message>,
) -> (std::task::Poll<Option<String>>, usize) {
    let mut polls = 0;
    loop {
        let item = match frames.pop_front() {
            Some(frame) => Polled::Ready(Some(Ok(frame))),
            None => Polled::Pending,
        };
        polls += 1;
        match transport.poll_next::<CodecError, CodecError>(item) {
            Advance::Ready(Some(Ok(payload))) => {
                let decoded: String = transport.codec().decode(&payload[..]).unwrap();
                return (std::task::Poll::Ready(Some(decoded)), polls);
            }
            Advance::Ready(Some(Err(_))) => panic!("no failure was given"),
            Advance::Ready(None) => return (std::task::Poll::Ready(None), polls),
            Advance::Again => {}
            Advance::Pending => return (std::task::Poll::Pending, polls),
        }
    }
}

#[test]
fn frames_that_are_not_binary_do_not_hold_up_the_frame_behind_them() {
    let mut left = transport();
    let mut frames = std::collections::VecDeque::new();
    frames.push_back(Message::text("hello"));
    frames.push_back(Message::Ping(vec![1u8].into()));
    frames.push_back(Message::Pong(vec![1u8].into()));
    frames.push_back(frame_for(&left, "Hello World!"));
    frames.push_back(Message::text("again"));
    let (received, polls) = receive_from(&mut left, &mut frames);
    assert_eq!(received, std::task::Poll::Ready(Some("Hello World!".to_string())));
    assert_eq!(polls, 4);
    assert!(!left.is_terminated());
    let (received, polls) = receive_from(&mut left, &mut frames);
    assert_eq!(received, std::task::Poll::Pending);
    assert_eq!(polls, 2);
    frames.push_back(Message::Ping(vec![].into()));
    frames.push_back(Message::Close(None));
    let (received, _) = receive_from(&mut left, &mut frames);
    assert_eq!(received, std::task::Poll::Ready(None));
    assert!(left.is_terminated());
}

#[test]
fn the_frame_of_a_message_holds_its_encoding_and_nothing_else() {
    let left = transport();
    let frame = left
        .start_send::<CodecError, CodecError>(Ok(vec![9, 8, 7]))
        .unwrap();
    assert_eq!(frame, Message::binary(vec![9u8, 8, 7]));
    assert_ne!(frame, Message::binary(Vec::<u8>::new()));
    let sender: Sender<(), Codec, u32> = Sender::new((), Codec::default());
    let frame = sender.start_send::<CodecError>(Ok(vec![9, 8, 7])).unwrap();
    assert_eq!(frame, Message::binary(vec![9u8, 8, 7]));
}

#[test]
fn what_one_end_frames_the_other_receives() {
    let left = transport();
    let mut right = transport();
    let frame = left
        .start_send::<CodecError, CodecError>(Ok(vec![4, 5, 6]))
        .unwrap();
    match right.poll_next::<CodecError, CodecError>(Polled::Ready(Some(Ok(frame)))) {
        Advance::Ready(Some(Ok(payload))) => assert_eq!(payload, vec![4u8, 5, 6]),
        _ => panic!("no payload"),
    }
}
