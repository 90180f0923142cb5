use kodec::binary::Codec;
use kodec::{Decode, Encode};
use mezzenger::io::Failure;
use mezzenger::udp::{poll_next, poll_recv_from, Error, Flush, Transport, RECEIVE_BUFFER_SIZE};

type CodecError = <Codec as Encode>::Error;
type Datagrams = Transport<(), Codec, String, String>;
type DatagramError = mezzenger::Error<Error<CodecError, CodecError>>;

fn transport() -> Datagrams {
    Transport::new((), Codec::default())
}

fn encode(transport: &Datagrams, text: &str) -> Result<Vec<u8>, CodecError> {
    let mut buffer = vec![];
    transport.codec().encode(&mut buffer, &text.to_string())?;
    Ok(buffer)
}

/// Flushes into `wire`, where each datagram is taken whole.
fn flush(transport: &mut Datagrams, wire: &mut Vec<Vec<u8>>) -> Result<(), DatagramError> {
    loop {
        match transport.poll_flush::<CodecError, CodecError>() {
            Flush::Done(result) => return result,
            Flush::Encode(message) => {
                let encoding = encode(transport, &message);
                if let Some(error) = transport.encoded::<CodecError, CodecError>(encoding) {
                    return Err(error);
                }
            }
            Flush::Send => {
                let datagram = transport.datagram().to_vec();
                let written = datagram.len();
                wire.push(datagram);
                if let Some(error) = transport.sent::<CodecError, CodecError>(Ok(written)) {
                    return Err(error);
                }
            }
        }
    }
}

#[test]
fn udp_test_transport() {
    let mut left = transport();
    let mut wire = Vec::new();
    left.start_send::<CodecError, CodecError>("Hello World!".to_string())
        .unwrap();
    left.start_send::<CodecError, CodecError>("Hello World again!".to_string())
        .unwrap();
    flush(&mut left, &mut wire).unwrap();
    assert_eq!(wire.len(), 2);
    assert!(!left.has_datagram());
    assert_eq!(left.datagram().len(), 0);

    let right = transport();
    let mut received = Vec::new();
    for datagram in wire.iter() {
        let decoded: Result<String, CodecError> = right.codec().decode(&datagram[..]);
        let item = poll_recv_from::<_, _, CodecError, _>(decoded, "127.0.0.1:8080");
        let (message, origin) = item.unwrap();
        assert_eq!(origin, "127.0.0.1:8080");
        received.push(message);
    }
    assert_eq!(received, vec!["Hello World!", "Hello World again!"]);
}

#[test]
fn udp_test_unit_message() {
    let mut left: Transport<(), Codec, (), ()> = Transport::new((), Codec::default());
    left.start_send::<CodecError, CodecError>(()).unwrap();
    left.start_send::<CodecError, CodecError>(()).unwrap();
    let mut sent = 0;
    loop {
        match left.poll_flush::<CodecError, CodecError>() {
            Flush::Done(result) => {
                assert!(result.is_ok());
                break;
            }
            Flush::Encode(message) => {
                let mut buffer = vec![];
                left.codec().encode(&mut buffer, &message).unwrap();
                assert!(buffer.is_empty());
                assert!(left
                    .encoded::<CodecError, CodecError>(Ok(buffer))
                    .is_none());
                assert!(left.has_datagram());
            }
            Flush::Send => {
                assert_eq!(left.datagram().len(), 0);
                sent += 1;
                assert!(left.sent::<CodecError, CodecError>(Ok(0)).is_none());
            }
        }
    }
    assert_eq!(sent, 2);
}

#[test]
fn receive_buffer_holds_the_largest_datagram() {
    assert_eq!(RECEIVE_BUFFER_SIZE, 65536);
}

#[test]
fn short_write_is_a_sending_error_and_the_flush_can_go_on() {
    let mut left = transport();
    left.start_send::<CodecError, CodecError>("Hey".to_string())
        .unwrap();
    left.start_send::<CodecError, CodecError>("Hi".to_string())
        .unwrap();
    let first = match left.poll_flush::<CodecError, CodecError>() {
        Flush::Encode(message) => message,
        _ => panic!("a message waits"),
    };
    assert_eq!(first, "Hey");
    let encoding = encode(&left, &first);
    assert!(left.encoded::<CodecError, CodecError>(encoding).is_none());
    assert!(matches!(
        left.poll_flush::<CodecError, CodecError>(),
        Flush::Send
    ));
    let length = left.datagram().len();
    assert_eq!(length, 8 + 3);
    let failed = left.sent::<CodecError, CodecError>(Ok(length - 1));
    assert!(matches!(
        failed,
        Some(mezzenger::Error::Other(Error::SendingError))
    ));
    assert!(!left.has_datagram());
    assert!(!left.is_terminated());
    let mut wire = Vec::new();
    flush(&mut left, &mut wire).unwrap();
    assert_eq!(wire.len(), 1);
    let decoded: String = left.codec().decode(&wire[0][..]).unwrap();
    assert_eq!(decoded, "Hi");
}

#[test]
fn failed_sends_close_only_when_the_peer_is_gone() {
    let mut left = transport();
    left.start_send::<CodecError, CodecError>("Hey".to_string())
        .unwrap();
    let encoding = encode(&left, "Hey");
    assert!(left.encoded::<CodecError, CodecError>(encoding).is_none());
    let failed = left.sent::<CodecError, CodecError>(Err(std::io::Error::from(
        std::io::ErrorKind::TimedOut,
    )));
    assert!(matches!(
        failed,
        Some(mezzenger::Error::Other(Error::IoError(_)))
    ));
    assert!(!left.is_terminated());
    assert!(left.socket().is_some());

    let encoding = encode(&left, "Hey");
    assert!(left.encoded::<CodecError, CodecError>(encoding).is_none());
    let failed = left.sent::<CodecError, CodecError>(Err(std::io::Error::from(
        std::io::ErrorKind::ConnectionReset,
    )));
    assert!(matches!(failed, Some(mezzenger::Error::Closed)));
    assert!(left.is_terminated());
    assert!(left.socket().is_none());
    assert!(matches!(
        left.start_send::<CodecError, CodecError>("Hi".to_string()),
        Err(mezzenger::Error::Closed)
    ));
    assert!(matches!(
        left.poll_flush::<CodecError, CodecError>(),
        Flush::Done(Err(mezzenger::Error::Closed))
    ));

    let mut other = transport();
    let encoding = encode(&other, "Hey");
    assert!(other.encoded::<CodecError, CodecError>(encoding).is_none());
    let failed = other.sent_as::<CodecError, CodecError>(Err((
        Failure::ConnectionAborted,
        std::io::Error::from(std::io::ErrorKind::ConnectionAborted),
    )));
    assert!(matches!(failed, Some(mezzenger::Error::Closed)));
    assert!(other.is_terminated());
}

#[test]
fn failed_receives_end_the_stream_only_when_the_peer_is_gone() {
    let mut left = transport();
    let emitted = left.receive_failed::<CodecError, CodecError>(std::io::Error::from(
        std::io::ErrorKind::WouldBlock,
    ));
    assert!(matches!(emitted, Some(Error::IoError(_))));
    assert!(!left.is_terminated());
    let emitted = left.receive_failed::<CodecError, CodecError>(std::io::Error::from(
        std::io::ErrorKind::ConnectionAborted,
    ));
    assert!(emitted.is_none());
    assert!(left.is_terminated());
}

#[test]
fn undecodable_datagram_is_a_deserialization_error() {
    let left = transport();
    let decoded: Result<String, CodecError> = left.codec().decode(&[1u8, 2, 3][..]);
    let item = poll_recv_from::<_, _, CodecError, _>(decoded, 7);
    assert!(matches!(item, Err(Error::DeserializationError(_))));
    let without_origin = poll_next(Some(item));
    assert!(matches!(
        without_origin,
        Some(Err(Error::DeserializationError(_)))
    ));
    let item: Result<(u32, u8), Error<(), ()>> = Ok((5, 1));
    assert!(matches!(poll_next(Some(item)), Some(Ok(5))));
    let nothing: Option<Result<(u32, u8), ()>> = None;
    assert!(poll_next(nothing).is_none());
}

#[test]
fn send_to_goes_apart_from_the_queue() {
    let mut left = transport();
    left.start_send::<CodecError, CodecError>("queued".to_string())
        .unwrap();
    let encoding = encode(&left, "direct");
    assert!(left.send_to::<CodecError, CodecError>(encoding).is_ok());
    let decoded: String = left.codec().decode(left.datagram()).unwrap();
    assert_eq!(decoded, "direct");
    let length = left.datagram().len();
    assert!(left.sent_to::<CodecError, CodecError>(Ok(length)).is_ok());
    assert!(!left.has_datagram());
    let encoding = encode(&left, "direct");
    assert!(left.send_to::<CodecError, CodecError>(encoding).is_ok());
    assert!(matches!(
        left.sent_to::<CodecError, CodecError>(Ok(length - 1)),
        Err(mezzenger::Error::Other(Error::SendingError))
    ));
    let encoding = encode(&left, "direct");
    assert!(left.send_to::<CodecError, CodecError>(encoding).is_ok());
    let failed = left.sent_to::<CodecError, CodecError>(Err(std::io::Error::from(
        std::io::ErrorKind::TimedOut,
    )));
    assert!(matches!(
        failed,
        Err(mezzenger::Error::Other(Error::IoError(_)))
    ));
    assert!(!left.is_terminated());
    let mut wire = Vec::new();
    flush(&mut left, &mut wire).unwrap();
    assert_eq!(wire.len(), 1);
    left.poll_close();
    assert!(left.is_terminated());
    let encoding = encode(&left, "late");
    assert!(matches!(
        left.send_to::<CodecError, CodecError>(encoding),
        Err(mezzenger::Error::Closed)
    ));
}

#[test]
fn send_to_a_peer_that_is_gone_closes_the_transport() {
    let mut left = transport();
    let encoding = encode(&left, "direct");
    assert!(left.send_to::<CodecError, CodecError>(encoding).is_ok());
    let failed = left.sent_to::<CodecError, CodecError>(Err(std::io::Error::from(
        std::io::ErrorKind::ConnectionReset,
    )));
    assert!(matches!(failed, Err(mezzenger::Error::Closed)));
    assert!(left.is_terminated());
}
