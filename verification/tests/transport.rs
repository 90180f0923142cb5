use mezzenger::transport::{receive_item, MessageStream, Recv};
use mezzenger::{Advance, Error, Polled};

#[test]
fn error_tells_closed_from_other() {
    let closed: Error<&str> = Error::Closed;
    let failed: Error<&str> = Error::Other("failed");
    assert!(closed.is_closed());
    assert!(!failed.is_closed());
    assert_eq!(closed, Error::Closed);
    assert_ne!(failed, Error::Closed);
    assert_eq!(failed, Error::Other("failed"));
}

#[test]
fn polled_tells_ready_from_pending() {
    assert!(Polled::Ready(1).is_ready());
    assert!(!Polled::Ready(1).is_pending());
    assert!(Polled::<u8>::Pending.is_pending());
    assert!(!Polled::<u8>::Pending.is_ready());
}

#[test]
fn receive_completes_with_the_next_item() {
    assert_eq!(receive_item::<u8, &str>(Some(Ok(3))), Ok(3));
    assert_eq!(
        receive_item::<u8, &str>(Some(Err("bad"))),
        Err(Error::Other("bad"))
    );
    assert_eq!(receive_item::<u8, &str>(None), Err(Error::Closed));

    let mut recv = Recv::new();
    assert!(!recv.is_terminated());
    assert_eq!(recv.poll::<u8, &str>(Polled::Pending), Polled::Pending);
    assert!(!recv.is_terminated());
    assert_eq!(
        recv.poll::<u8, &str>(Polled::Ready(Some(Ok(3)))),
        Polled::Ready(Ok(3))
    );
    assert!(recv.is_terminated());
    let mut recv = Recv::new();
    assert_eq!(
        recv.poll::<u8, &str>(Polled::Ready(None)),
        Polled::Ready(Err(Error::Closed))
    );
    assert!(recv.is_terminated());
    let mut recv = Recv::new();
    assert_eq!(
        recv.poll::<u8, &str>(Polled::Ready(Some(Err("bad")))),
        Polled::Ready(Err(Error::Other("bad")))
    );
}

#[test]
fn message_stream_filters_errors_out() {
    let mut errors = Vec::new();
    let mut stream = MessageStream::new((), |error: &'static str| errors.push(error));
    assert_eq!(stream.poll_next(Polled::Ready(Some(Ok(1)))), Advance::Ready(Some(1)));
    assert_eq!(stream.poll_next::<u8, _>(Polled::Ready(Some(Err("bad")))), Advance::Again);
    assert_eq!(stream.poll_next::<u8, _>(Polled::Pending), Advance::Pending);
    assert_eq!(stream.poll_next(Polled::Ready(Some(Ok(2)))), Advance::Ready(Some(2)));
    assert_eq!(stream.poll_next::<u8, _>(Polled::Ready(Some(Err("worse")))), Advance::Again);
    assert!(!stream.is_terminated());
    assert_eq!(stream.poll_next::<u8, _>(Polled::Ready(None)), Advance::Ready(None));
    assert!(stream.is_terminated());
    drop(stream);
    assert_eq!(errors, vec!["bad", "worse"]);
}

#[test]
fn errors_say_what_went_wrong() {
    assert_eq!(Error::<&str>::Closed.to_string(), "transport closed");
    assert_eq!(Error::Other("carrier failed").to_string(), "carrier failed");
    assert_eq!(
        mezzenger::error::prefixed("number: ", &5u8),
        "number: 5"
    );
    assert_eq!(
        mezzenger::error::prefixed_debug("text: ", &"a"),
        "text: \"a\""
    );

    type Tcp = mezzenger::tcp::Error<&'static str, &'static str>;
    assert_eq!(Tcp::MessageTooLarge.to_string(), "message was too large");
    assert_eq!(
        Tcp::SerializationError("x").to_string(),
        "failed to serialize message: x"
    );
    assert_eq!(
        Tcp::DeserializationError("y").to_string(),
        "failed to deserialize message: y"
    );
    let io = std::io::Error::from(std::io::ErrorKind::TimedOut);
    let expected = format!("IO error occurred: {}", io);
    assert_eq!(Tcp::IoError(io).to_string(), expected);
    assert_eq!(
        Error::Other(Tcp::MessageTooLarge.to_string()).to_string(),
        "message was too large"
    );

    type Udp = mezzenger::udp::Error<&'static str, &'static str>;
    assert_eq!(Udp::SendingError.to_string(), "not all bytes were sent");
    assert_eq!(
        Udp::SerializationError("x").to_string(),
        "failed to serialize message: x"
    );
    assert_eq!(
        Udp::DeserializationError("y").to_string(),
        "failed to deserialize message: y"
    );
    let io = std::io::Error::from(std::io::ErrorKind::TimedOut);
    let expected = format!("IO error occurred: {}", io);
    assert_eq!(Udp::IoError(io).to_string(), expected);

    type Ws = mezzenger::websocket::Error<&'static str, &'static str>;
    assert_eq!(
        Ws::SerializationError("x").to_string(),
        "failed to serialize message: x"
    );
    assert_eq!(
        Ws::DeserializationError("y").to_string(),
        "failed to deserialize message: y"
    );
    assert_eq!(
        Ws::TungsteniteError(tungstenite::Error::AlreadyClosed).to_string(),
        format!("tungstenite error occurred: {}", tungstenite::Error::AlreadyClosed)
    );
    assert_eq!(
        mezzenger::websocket::receiver::Error::<&str>::DeserializationError("y").to_string(),
        "failed to deserialize message: y"
    );
    assert_eq!(
        mezzenger::websocket::receiver::Error::<&str>::TungsteniteError(
            tungstenite::Error::AttackAttempt
        )
        .to_string(),
        format!("tungstenite error occurred: {}", tungstenite::Error::AttackAttempt)
    );
    assert_eq!(
        mezzenger::websocket::sender::Error::<&str>::SerializationError("x").to_string(),
        "failed to serialize message: x"
    );
    assert_eq!(
        mezzenger::websocket::sender::Error::<&str>::TungsteniteError(
            tungstenite::Error::AttackAttempt
        )
        .to_string(),
        format!("tungstenite error occurred: {}", tungstenite::Error::AttackAttempt)
    );
    assert_eq!(
        mezzenger::channel::Error::ChannelIsFull.to_string(),
        "channel is full"
    );

    type Wasm = mezzenger::websocket::wasm::Error<&'static str, &'static str, &'static str, u8>;
    assert_eq!(Wasm::SendingError("a").to_string(), "failed to send message: a");
    assert_eq!(
        Wasm::ClosingError("b").to_string(),
        "failed to close transport: b"
    );
    assert_eq!(
        Wasm::SerializationError("c").to_string(),
        "failed to serialize message: c"
    );
    assert_eq!(
        Wasm::DeserializationError("d").to_string(),
        "failed to deserialize message: d"
    );
    assert_eq!(
        Wasm::WebSocketError(7).to_string(),
        "WebSocket error occurred: 7"
    );
}
