use kodec::binary::Codec;
use kodec::{Decode, Encode};
use mezzenger::tcp::{flushed, map_failure, Error, Flush, Transport, DEFAULT_MAX_MESSAGE_SIZE};
use mezzenger::{io::Failure, Polled};

type Framer = Transport<(), Codec, String, String>;
type CodecError = <Codec as Encode>::Error;
type FramerError = Error<CodecError, CodecError>;

fn framer() -> Framer {
    Transport::new((), Codec::default())
}

fn framer_with_limit(limit: u32) -> Framer {
    Transport::new_with_max_message_size((), Codec::default(), limit)
}

fn encode(transport: &Framer, text: &str) -> Vec<u8> {
    let mut buffer = vec![];
    transport
        .codec()
        .encode(&mut buffer, &text.to_string())
        .unwrap();
    buffer
}

fn send(transport: &mut Framer, text: &str) -> Result<(), mezzenger::Error<FramerError>> {
    let mut buffer = vec![];
    let encoding = transport
        .codec()
        .encode(&mut buffer, &text.to_string())
        .map(|_| buffer);
    transport.start_send(encoding)
}

fn receive(transport: &mut Framer) -> Polled<Option<Result<String, FramerError>>> {
    match transport.poll_next::<CodecError, CodecError>() {
        Polled::Ready(Some(Ok(payload))) => {
            let decoded: Result<String, _> = transport.codec().decode(&payload[..]);
            Polled::Ready(Some(mezzenger::tcp::decoded(decoded)))
        }
        Polled::Ready(Some(Err(error))) => Polled::Ready(Some(Err(error))),
        Polled::Ready(None) => Polled::Ready(None),
        Polled::Pending => Polled::Pending,
    }
}

fn received_text(transport: &mut Framer) -> String {
    match receive(transport) {
        Polled::Ready(Some(Ok(text))) => text,
        _ => panic!("no message"),
    }
}

fn received_too_large(transport: &mut Framer) -> bool {
    matches!(
        receive(transport),
        Polled::Ready(Some(Err(Error::MessageTooLarge)))
    )
}

fn next_payload<T, I, O>(transport: &mut Transport<T, Codec, I, O>) -> Option<Vec<u8>> {
    match transport.poll_next::<(), ()>() {
        Polled::Ready(Some(Ok(payload))) => Some(payload),
        _ => None,
    }
}

fn at_end<T, I, O>(transport: &mut Transport<T, Codec, I, O>) -> bool {
    matches!(transport.poll_next::<(), ()>(), Polled::Ready(None))
}

fn carry(from: &mut Framer, to: &mut Framer) {
    let wire = from.output().to_vec();
    from.wrote(wire.len());
    to.received(&wire);
}

#[test]
fn default_limit_is_64_kib() {
    let transport = framer();
    assert_eq!(DEFAULT_MAX_MESSAGE_SIZE, 65536);
    assert_eq!(transport.max_message_size(), 65536);
    assert!(!transport.is_terminated());
    assert!(!transport.has_output());
    assert_eq!(framer_with_limit(15).max_message_size(), 15);
}

#[test]
fn frame_is_big_endian_length_then_payload() {
    let mut transport = framer();
    transport.send_payload::<(), ()>(b"Hey").unwrap();
    assert_eq!(transport.output(), &[0, 0, 0, 3, b'H', b'e', b'y']);
    transport.send_payload::<(), ()>(&vec![7u8; 0x0102]).unwrap();
    assert_eq!(&transport.output()[7..11], &[0, 0, 1, 2]);
    assert_eq!(transport.output().len(), 7 + 4 + 0x0102);
    assert!(transport.has_output());
    transport.wrote(7);
    assert_eq!(&transport.output()[..4], &[0, 0, 1, 2]);
}

#[test]
fn length_prefix_uses_all_four_bytes() {
    let mut left: Framer = framer_with_limit(0x0102_0304);
    let payload = vec![9u8; 0x0001_0203];
    left.send_payload::<(), ()>(&payload).unwrap();
    assert_eq!(&left.output()[..4], &[0x00, 0x01, 0x02, 0x03]);
    let mut right: Framer = framer_with_limit(0x0102_0304);
    carry(&mut left, &mut right);
    assert_eq!(next_payload(&mut right), Some(payload));
}

#[test]
fn tcp_test_transport() {
    let mut left = framer();
    let mut right = framer();

    send(&mut left, "Hello World!").unwrap();
    send(&mut left, "Hello World again!").unwrap();
    send(&mut right, "128").unwrap();
    send(&mut right, "1").unwrap();
    let mut to_right = left.output().to_vec();
    let mut to_left = right.output().to_vec();
    left.wrote(to_right.len());
    right.wrote(to_left.len());
    right.received(&to_right);
    left.received(&to_left);
    to_right.clear();
    to_left.clear();

    assert_eq!(received_text(&mut right), "Hello World!");
    assert_eq!(received_text(&mut right), "Hello World again!");
    assert_eq!(received_text(&mut left), "128");
    assert_eq!(received_text(&mut left), "1");
    assert!(receive(&mut left).is_pending());
    assert!(receive(&mut right).is_pending());
}

#[test]
fn tcp_test_unit_message() {
    let mut left: Transport<(), Codec, (), ()> = Transport::new((), Codec::default());
    let mut right: Transport<(), Codec, (), ()> = Transport::new((), Codec::default());
    let mut unit = vec![];
    left.codec().encode(&mut unit, &()).unwrap();
    assert_eq!(unit.len(), 0);
    left.send_payload::<(), ()>(&unit).unwrap();
    left.send_payload::<(), ()>(&unit).unwrap();
    assert_eq!(left.output(), &[0, 0, 0, 0, 0, 0, 0, 0]);
    right.received(left.output());
    for _ in 0..2 {
        match right.poll_next::<(), ()>() {
            Polled::Ready(Some(Ok(payload))) => {
                let decoded: () = right.codec().decode(&payload[..]).unwrap();
                assert_eq!(decoded, ());
            }
            _ => panic!("no unit message"),
        }
    }
    assert!(right.poll_next::<(), ()>().is_pending());
}

#[test]
fn tcp_test_stream() {
    let mut left: Transport<(), Codec, (), u32> = Transport::new((), Codec::default());
    let mut right: Transport<(), Codec, u32, ()> = Transport::new((), Codec::default());
    for number in [1u32, 2, 3] {
        let mut payload = vec![];
        left.codec().encode(&mut payload, &number).unwrap();
        left.send_payload::<(), ()>(&payload).unwrap();
    }
    right.received(left.output());
    right.received(&[]);
    assert!(right.is_terminated());
    let mut numbers = Vec::new();
    let mut fresh: Transport<(), Codec, u32, ()> = Transport::new((), Codec::default());
    fresh.received(left.output());
    while let Polled::Ready(Some(Ok(payload))) = fresh.poll_next::<(), ()>() {
        let number: u32 = fresh.codec().decode(&payload[..]).unwrap();
        numbers.push(number);
    }
    assert_eq!(numbers, vec![1, 2, 3]);
    assert!(at_end(&mut right));
}

#[test]
fn test_size_limit() {
    let mut left = framer_with_limit(15);
    let mut right = framer();

    send(&mut left, "Hey").unwrap();
    let before = left.output().to_vec();
    assert!(matches!(
        send(&mut left, "Hello, hello, hello"),
        Err(mezzenger::Error::Other(Error::MessageTooLarge))
    ));
    assert_eq!(left.output(), &before[..]);
    send(&mut left, "Hi").unwrap();
    carry(&mut left, &mut right);

    assert_eq!(received_text(&mut right), "Hey");
    assert_eq!(received_text(&mut right), "Hi");

    send(&mut right, "Hey").unwrap();
    for _i in 0..139 {
        send(&mut right, "Hello, hello, hello").unwrap();
    }
    send(&mut right, "Hi").unwrap();
    carry(&mut right, &mut left);

    assert_eq!(received_text(&mut left), "Hey");
    for _i in 0..139 {
        assert!(received_too_large(&mut left));
    }
    assert_eq!(received_text(&mut left), "Hi");

    send(&mut right, "Hey").unwrap();
    for _i in 0..17 {
        send(&mut right, "Hello, hello, hello").unwrap();
        send(&mut right, "Hello, hello, hello, hi").unwrap();
    }
    send(&mut right, "Hi").unwrap();
    carry(&mut right, &mut left);

    assert_eq!(received_text(&mut left), "Hey");
    for _i in 0..17 {
        assert!(received_too_large(&mut left));
        assert!(received_too_large(&mut left));
    }
    assert_eq!(received_text(&mut left), "Hi");
    assert!(receive(&mut left).is_pending());
}

#[test]
fn size_limit_holds_when_bytes_come_one_by_one() {
    let mut left = framer_with_limit(15);
    let mut right = framer();
    send(&mut right, "Hey").unwrap();
    for _i in 0..5 {
        send(&mut right, "Hello, hello, hello").unwrap();
    }
    send(&mut right, "Hi").unwrap();
    let wire = right.output().to_vec();
    let mut texts = Vec::new();
    let mut too_large = 0;
    for byte in wire.iter() {
        left.received(&[*byte]);
        loop {
            match receive(&mut left) {
                Polled::Ready(Some(Ok(text))) => texts.push(text),
                Polled::Ready(Some(Err(Error::MessageTooLarge))) => too_large += 1,
                Polled::Pending => break,
                _ => panic!("unexpected answer"),
            }
        }
    }
    assert_eq!(texts, vec!["Hey".to_string(), "Hi".to_string()]);
    assert_eq!(too_large, 5);
}

#[test]
fn oversize_payload_is_skipped_whether_it_is_buffered_or_still_to_come() {
    let limit = 4;
    let big = vec![1u8; 10];
    let small = vec![2u8; 3];
    let mut sender: Framer = framer();
    sender.send_payload::<(), ()>(&big).unwrap();
    sender.send_payload::<(), ()>(&small).unwrap();
    sender.send_payload::<(), ()>(&big).unwrap();
    sender.send_payload::<(), ()>(&small).unwrap();
    let wire = sender.output().to_vec();
    for cut in 0..=wire.len() {
        let mut receiver: Framer = framer_with_limit(limit);
        let mut answers = Vec::new();
        for part in [&wire[..cut], &wire[cut..]] {
            if !part.is_empty() {
                receiver.received(part);
            }
            loop {
                match receiver.poll_next::<(), ()>() {
                    Polled::Ready(Some(Ok(payload))) => answers.push(Some(payload)),
                    Polled::Ready(Some(Err(Error::MessageTooLarge))) => answers.push(None),
                    Polled::Pending => break,
                    _ => panic!("unexpected answer"),
                }
            }
        }
        assert_eq!(
            answers,
            vec![None, Some(small.clone()), None, Some(small.clone())],
            "cut at {}",
            cut
        );
    }
}

#[test]
fn payload_at_the_limit_passes_and_one_byte_more_does_not() {
    let limit = 15;
    let mut left = framer_with_limit(limit);
    let at_limit = vec![5u8; 15];
    let over_limit = vec![6u8; 16];
    assert!(left.send_payload::<(), ()>(&at_limit).is_ok());
    assert!(matches!(
        left.send_payload::<(), ()>(&over_limit),
        Err(mezzenger::Error::Other(Error::MessageTooLarge))
    ));
    let mut peer = framer();
    peer.send_payload::<(), ()>(&at_limit).unwrap();
    peer.send_payload::<(), ()>(&over_limit).unwrap();
    peer.send_payload::<(), ()>(&[]).unwrap();
    peer.send_payload::<(), ()>(&at_limit).unwrap();
    carry(&mut peer, &mut left);
    assert_eq!(next_payload(&mut left), Some(at_limit.clone()));
    assert!(matches!(
        left.poll_next::<(), ()>(),
        Polled::Ready(Some(Err(Error::MessageTooLarge)))
    ));
    assert_eq!(next_payload(&mut left), Some(vec![]));
    assert_eq!(next_payload(&mut left), Some(at_limit));
    assert!(left.poll_next::<(), ()>().is_pending());
}

#[test]
fn end_of_stream_terminates_both_directions() {
    let mut transport = framer();
    send(&mut transport, "Hey").unwrap();
    transport.received(&[0, 0]);
    assert!(!transport.is_terminated());
    transport.received(&[]);
    assert!(transport.is_terminated());
    assert!(at_end(&mut transport));
    assert!(matches!(
        send(&mut transport, "Hi"),
        Err(mezzenger::Error::Closed)
    ));
    assert_eq!(transport.output(), &[0, 0, 0, 11, 3, 0, 0, 0, 0, 0, 0, 0, b'H', b'e', b'y']);
}

#[test]
fn read_failures_end_the_stream_only_when_the_peer_is_gone() {
    let mut transport = framer();
    let reset = std::io::Error::from(std::io::ErrorKind::ConnectionReset);
    let aborted = std::io::Error::from(std::io::ErrorKind::ConnectionAborted);
    let timeout = std::io::Error::from(std::io::ErrorKind::TimedOut);

    let emitted: Option<FramerError> = transport.read_failed(timeout);
    assert!(matches!(
        emitted,
        Some(Error::IoError(error)) if error.kind() == std::io::ErrorKind::TimedOut
    ));
    assert!(!transport.is_terminated());

    let emitted: Option<FramerError> = transport.read_failed(reset);
    assert!(emitted.is_none());
    assert!(transport.is_terminated());

    let mut other = framer();
    let emitted: Option<FramerError> = other.read_failed(aborted);
    assert!(emitted.is_none());
    assert!(other.is_terminated());
}

#[test]
fn write_failures_close_only_when_the_peer_is_gone() {
    let reset = std::io::Error::from(std::io::ErrorKind::ConnectionReset);
    let aborted = std::io::Error::from(std::io::ErrorKind::ConnectionAborted);
    let broken = std::io::Error::from(std::io::ErrorKind::BrokenPipe);
    let mapped: mezzenger::Error<FramerError> = mezzenger::tcp::map_error(reset);
    assert!(matches!(mapped, mezzenger::Error::Closed));
    let mapped: mezzenger::Error<FramerError> = mezzenger::tcp::map_error(aborted);
    assert!(matches!(mapped, mezzenger::Error::Closed));
    let mapped: mezzenger::Error<FramerError> = mezzenger::tcp::map_error(broken);
    assert!(matches!(
        mapped,
        mezzenger::Error::Other(Error::IoError(error)) if error.kind() == std::io::ErrorKind::BrokenPipe
    ));
    let other = std::io::Error::from(std::io::ErrorKind::TimedOut);
    let mapped: mezzenger::Error<FramerError> = map_failure(Failure::ConnectionReset, other);
    assert!(mapped.is_closed());
}

#[test]
fn undecodable_payload_is_a_deserialization_error() {
    let mut transport = framer();
    transport.received(&[0, 0, 0, 2, 1, 2]);
    assert!(matches!(
        receive(&mut transport),
        Polled::Ready(Some(Err(Error::DeserializationError(_))))
    ));
    transport.received(&[0, 0, 0, 0]);
    assert!(matches!(
        receive(&mut transport),
        Polled::Ready(Some(Err(Error::DeserializationError(_))))
    ));
}

#[test]
fn refusals_need_no_room_and_an_empty_read_ends_the_stream() {
    let mut transport = framer_with_limit(3);
    assert!(transport.has_room(3));
    assert!(transport.has_room(isize::MAX as usize - 4));
    assert!(!transport.has_room(isize::MAX as usize - 3));
    assert!(!transport.has_room(usize::MAX));
    transport.send_payload::<(), ()>(b"abc").unwrap();
    assert!(transport.has_room(isize::MAX as usize - 4 - 7));
    assert!(!transport.has_room(isize::MAX as usize - 4 - 6));
    transport.received(&[]);
    assert!(transport.is_terminated());
}

#[test]
fn a_failed_encoding_is_refused_and_leaves_the_bytes_alone() {
    let mut transport: Transport<(), (), u8, u8> = Transport::new_with_max_message_size((), (), 4);
    assert!(transport.start_send::<&str, ()>(Ok(vec![1, 2])).is_ok());
    let before = transport.output().to_vec();
    assert_eq!(before, vec![0, 0, 0, 2, 1, 2]);
    let refused = transport.start_send::<&str, ()>(Err("cannot encode"));
    assert!(matches!(
        refused,
        Err(mezzenger::Error::Other(Error::SerializationError("cannot encode")))
    ));
    assert_eq!(transport.output(), &before[..]);
    let refused = transport.start_send::<&str, ()>(Ok(vec![0; 5]));
    assert!(matches!(
        refused,
        Err(mezzenger::Error::Other(Error::MessageTooLarge))
    ));
    assert_eq!(transport.output(), &before[..]);
    assert!(transport.start_send::<&str, ()>(Ok(vec![9; 4])).is_ok());
    assert_eq!(
        transport.output(),
        &[0, 0, 0, 2, 1, 2, 0, 0, 0, 4, 9, 9, 9, 9]
    );
    transport.received(&[]);
    let refused = transport.start_send::<&str, ()>(Err("cannot encode"));
    assert!(matches!(refused, Err(mezzenger::Error::Closed)));
    let refused = transport.start_send::<&str, ()>(Ok(vec![1]));
    assert!(matches!(refused, Err(mezzenger::Error::Closed)));
}

#[test]
fn a_flush_writes_what_waits_and_then_flushes_the_stream() {
    let mut transport: Transport<(), (), u8, u8> = Transport::new((), ());
    assert_eq!(transport.poll_flush(), Flush::FlushStream);
    transport.send_payload::<(), ()>(&[1, 2, 3]).unwrap();
    assert_eq!(transport.poll_flush(), Flush::Write);
    assert!(transport.written::<(), ()>(Ok(5)).is_none());
    assert_eq!(transport.output(), &[2, 3]);
    assert_eq!(transport.poll_flush(), Flush::Write);
    let failed = transport.written::<(), ()>(Err(std::io::Error::from(
        std::io::ErrorKind::TimedOut,
    )));
    assert!(matches!(
        failed,
        Some(mezzenger::Error::Other(Error::IoError(_)))
    ));
    assert_eq!(transport.output(), &[2, 3]);
    let failed = transport.written::<(), ()>(Err(std::io::Error::from(
        std::io::ErrorKind::ConnectionReset,
    )));
    assert!(matches!(failed, Some(mezzenger::Error::Closed)));
    let failed = transport.written::<(), ()>(Ok(0));
    assert!(matches!(failed, Some(mezzenger::Error::Closed)));
    assert_eq!(transport.output(), &[2, 3]);
    assert!(transport.written::<(), ()>(Ok(2)).is_none());
    assert_eq!(transport.poll_flush(), Flush::FlushStream);
    assert!(transport.written::<(), ()>(Ok(0)).is_none());

    let done: Result<(), mezzenger::Error<Error<(), ()>>> = flushed(Ok(()));
    assert!(done.is_ok());
    let done: Result<(), mezzenger::Error<Error<(), ()>>> =
        flushed(Err(std::io::Error::from(std::io::ErrorKind::ConnectionAborted)));
    assert!(matches!(done, Err(mezzenger::Error::Closed)));
    let done: Result<(), mezzenger::Error<Error<(), ()>>> =
        flushed(Err(std::io::Error::from(std::io::ErrorKind::BrokenPipe)));
    assert!(matches!(
        done,
        Err(mezzenger::Error::Other(Error::IoError(_)))
    ));
}
