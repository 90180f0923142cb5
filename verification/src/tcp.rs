//! Length-prefixed framing of messages over a reliable, ordered byte stream.
//!
//! On the wire a message is a big-endian 32-bit length followed by that many
//! bytes of encoded payload. [`Transport`] holds both directions: it frames
//! outgoing payloads into a buffer of bytes to be written, and cuts the bytes
//! that were read into payloads. A payload longer than the transport's limit
//! is refused on sending and skipped on receiving, in both cases without
//! losing the frame boundary.

use vstd::prelude::*;
use vstd::slice::{slice_subrange, slice_to_vec};
use vstd::string::StringExecFns;
use core::fmt::Display;
use core::marker::PhantomData;
use crate::buffer::{
    advance, be32, be32_value, buffer_len, buffered, bytes_of, clear, get_u32,
    lemma_join_prefix, lemma_split_prefix, new_buffer, put_slice, put_u32,
};
use crate::error::Error as TransportError;
use crate::error::{prefixed, shows};
use crate::io::{failure_of, kind_of, Failure};
use crate::poll::Polled;

verus! {

/// Largest payload that a transport accepts unless told otherwise.
pub const DEFAULT_MAX_MESSAGE_SIZE: u32 = 65536;

/// Errors of the framed stream transport.
#[derive(Debug)]
pub enum Error<SerializationError, DeserializationError> {
    /// The encoded message is longer than the transport's limit.
    MessageTooLarge,
    /// The codec could not encode a message.
    SerializationError(SerializationError),
    /// The codec could not decode a payload.
    DeserializationError(DeserializationError),
    /// The byte stream failed in a way that does not end it.
    IoError(std::io::Error),
}

impl<SerializationError: Display, DeserializationError: Display> Error<
    SerializationError,
    DeserializationError,
> {
    /// Says what went wrong, with what the cause says of itself where there
    /// is one.
    pub fn to_string(&self) -> (text: String)
        ensures
            match self {
                Error::MessageTooLarge => text@ == "message was too large"@,
                Error::SerializationError(error) => shows(
                    "failed to serialize message: "@,
                    error,
                    text@,
                ),
                Error::DeserializationError(error) => shows(
                    "failed to deserialize message: "@,
                    error,
                    text@,
                ),
                Error::IoError(error) => shows("IO error occurred: "@, error, text@),
            },
    {
        match self {
            Error::MessageTooLarge => String::from_str("message was too large"),
            Error::SerializationError(error) => prefixed("failed to serialize message: ", error),
            Error::DeserializationError(error) => prefixed(
                "failed to deserialize message: ",
                error,
            ),
            Error::IoError(error) => prefixed("IO error occurred: ", error),
        }
    }
}

/// The frame of a payload: its length in four big-endian bytes, then the
/// payload itself.
pub open spec fn frame(payload: Seq<u8>) -> Seq<u8>
    recommends
        payload.len() <= u32::MAX,
{
    be32(payload.len() as u32) + payload
}

/// A payload that was announced with a length over the limit.
#[derive(Debug, Clone, Copy, PartialEq, Eq, Structural)]
pub struct Oversize;

/// What sending answers, where `encoding` is what encoding the message gave:
/// a terminated transport refuses with `Closed`; a failed encoding is
/// refused with [`Error::SerializationError`]; a payload over the limit is
/// refused with [`Error::MessageTooLarge`]; any other payload is accepted.
/// The limit is inclusive.
pub open spec fn sending<SerializationError, DeserializationError>(
    terminated: bool,
    limit: u32,
    encoding: Result<Seq<u8>, SerializationError>,
) -> Result<(), TransportError<Error<SerializationError, DeserializationError>>> {
    if terminated {
        Err(TransportError::Closed)
    } else {
        match encoding {
            Err(error) => Err(TransportError::Other(Error::SerializationError(error))),
            Ok(payload) => if payload.len() > limit {
                Err(TransportError::Other(Error::MessageTooLarge))
            } else {
                Ok(())
            },
        }
    }
}

/// The bytes that wait to be written after a sending: those that waited
/// before, followed by the payload's frame where the message was accepted,
/// and by nothing where it was refused.
pub open spec fn queued<SerializationError>(
    terminated: bool,
    limit: u32,
    outgoing: Seq<u8>,
    encoding: Result<Seq<u8>, SerializationError>,
) -> Seq<u8> {
    match encoding {
        Ok(payload) => if !terminated && payload.len() <= limit {
            outgoing + frame(payload)
        } else {
            outgoing
        },
        Err(_) => outgoing,
    }
}

/// The bytes of what encoding a message gave.
pub open spec fn encoded<SerializationError>(encoding: Result<Vec<u8>, SerializationError>) -> Result<
    Seq<u8>,
    SerializationError,
> {
    match encoding {
        Ok(payload) => Ok(payload@),
        Err(error) => Err(error),
    }
}

/// A refusal leaves the bytes that wait as they were: after a failed
/// encoding, a payload over the limit, or on a terminated transport, neither
/// a length nor a part of a payload is among them, so that the frame of the
/// next accepted message follows directly.
pub proof fn lemma_refusal_queues_nothing<SerializationError, DeserializationError>(
    terminated: bool,
    limit: u32,
    outgoing: Seq<u8>,
    encoding: Result<Seq<u8>, SerializationError>,
    next: Seq<u8>,
)
    requires
        sending::<SerializationError, DeserializationError>(terminated, limit, encoding) is Err,
        next.len() <= limit,
    ensures
        queued(terminated, limit, outgoing, encoding) == outgoing,
        queued(
            false,
            limit,
            queued(terminated, limit, outgoing, encoding),
            Ok::<Seq<u8>, SerializationError>(next),
        ) == outgoing + frame(next),
{
}

/// The limit is inclusive: a payload of exactly the limit's length is
/// accepted and its frame queued, and a payload of one byte more is refused
/// with [`Error::MessageTooLarge`] and nothing of it queued.
pub proof fn lemma_limit_is_inclusive<SerializationError, DeserializationError>(
    limit: u32,
    outgoing: Seq<u8>,
    payload: Seq<u8>,
)
    ensures
        payload.len() == limit ==> sending::<SerializationError, DeserializationError>(
            false,
            limit,
            Ok(payload),
        ) == Ok::<(), TransportError<Error<SerializationError, DeserializationError>>>(())
            && queued(false, limit, outgoing, Ok::<Seq<u8>, SerializationError>(payload))
            == outgoing + be32(limit) + payload,
        payload.len() == limit + 1 ==> sending::<SerializationError, DeserializationError>(
            false,
            limit,
            Ok(payload),
        ) == Err::<(), _>(
            TransportError::Other(
                Error::<SerializationError, DeserializationError>::MessageTooLarge,
            ),
        ) && queued(false, limit, outgoing, Ok::<Seq<u8>, SerializationError>(payload))
            == outgoing,
{
    if payload.len() == limit {
        assert(outgoing + frame(payload) =~= outgoing + be32(limit) + payload);
    }
}

/// The next step of a flush.
#[derive(Debug, Clone, Copy, PartialEq, Eq, Structural)]
pub enum Flush {
    /// Write the first of [`Transport::output`] to the stream and report the
    /// outcome with [`Transport::written`].
    Write,
    /// Nothing waits to be written: flush the stream itself. Its outcome,
    /// through [`flushed`], is the flush's.
    FlushStream,
}

/// What is left of the incoming byte stream, seen from the last frame
/// boundary that was reached.
pub struct Stream {
    /// The bytes that were received and not yet consumed. The first of them
    /// starts a length prefix.
    pub unread: Seq<u8>,
    /// How many bytes of an oversize payload have yet to arrive. They are
    /// dropped as they come.
    pub discard: nat,
}

impl Stream {
    /// A stream of which nothing is left.
    pub open spec fn empty() -> Stream {
        Stream { unread: Seq::empty(), discard: 0 }
    }

    /// A stream at a frame boundary, with the given bytes unread.
    pub open spec fn of(unread: Seq<u8>) -> Stream {
        Stream { unread, discard: 0 }
    }

    /// Bytes are kept only once the oversize payload before them is gone.
    pub open spec fn wf(self) -> bool {
        self.discard > 0 ==> self.unread.len() == 0
    }

    /// The stream after `bytes` arrived: what is still owed to an oversize
    /// payload is dropped from their front, the rest is kept.
    pub open spec fn feed(self, bytes: Seq<u8>) -> Stream {
        let dropped = if self.discard <= bytes.len() {
            self.discard
        } else {
            bytes.len()
        };
        Stream {
            unread: self.unread + bytes.skip(dropped as int),
            discard: (self.discard - dropped) as nat,
        }
    }

    /// The payload length that the next prefix announces.
    pub open spec fn announced(self) -> int
        recommends
            self.unread.len() >= 4,
    {
        be32_value(self.unread)
    }

    /// What the stream gives next under the limit `max`: nothing while the
    /// prefix is incomplete; `Oversize` as soon as a prefix announces more
    /// than `max` bytes; nothing while an accepted payload is incomplete; and
    /// else the payload.
    pub open spec fn next(self, max: u32) -> Option<Result<Seq<u8>, Oversize>> {
        if self.unread.len() < 4 {
            None
        } else if self.announced() > max {
            Some(Err(Oversize))
        } else if self.unread.len() < 4 + self.announced() {
            None
        } else {
            Some(Ok(self.unread.subrange(4, 4 + self.announced())))
        }
    }

    /// The stream after `next` was taken from it. An oversize payload is
    /// dropped as far as it has arrived, and the rest of it is owed.
    pub open spec fn advance(self, max: u32) -> Stream {
        if self.unread.len() < 4 {
            self
        } else if self.announced() > max {
            let rest = self.unread.skip(4);
            let dropped = if self.announced() <= rest.len() {
                self.announced()
            } else {
                rest.len() as int
            };
            Stream { unread: rest.skip(dropped), discard: (self.announced() - dropped) as nat }
        } else if self.unread.len() < 4 + self.announced() {
            self
        } else {
            Stream { unread: self.unread.skip(4 + self.announced()), discard: 0 }
        }
    }
}

/// What a receiver with the limit `max` makes of a payload that reaches it
/// framed: the payload itself, or `Oversize` where it is over the limit.
pub open spec fn verdict(payload: Seq<u8>, max: u32) -> Result<Seq<u8>, Oversize> {
    if payload.len() <= max {
        Ok(payload)
    } else {
        Err(Oversize)
    }
}

/// What a receiver with the limit `max` makes of each of the given payloads.
pub open spec fn verdicts(payloads: Seq<Seq<u8>>, max: u32) -> Seq<Result<Seq<u8>, Oversize>> {
    payloads.map_values(|payload: Seq<u8>| verdict(payload, max))
}

/// Each of the payloads has a length that a prefix can hold.
pub open spec fn framable(payloads: Seq<Seq<u8>>) -> bool {
    forall|i: int| 0 <= i < payloads.len() ==> (#[trigger] payloads[i]).len() <= u32::MAX
}

/// The frames of the given payloads, one after the other.
pub open spec fn frames(payloads: Seq<Seq<u8>>) -> Seq<u8>
    decreases payloads.len(),
{
    if payloads.len() == 0 {
        Seq::empty()
    } else {
        frame(payloads.first()) + frames(payloads.drop_first())
    }
}

impl Stream {
    /// What the stream gives when it is asked up to `count` times in a row,
    /// until it has nothing complete to give.
    pub open spec fn take(self, max: u32, count: nat) -> Seq<Result<Seq<u8>, Oversize>>
        decreases count,
    {
        if count == 0 {
            Seq::empty()
        } else {
            match self.next(max) {
                None => Seq::empty(),
                Some(received) => seq![received] + self.advance(max).take(
                    max,
                    (count - 1) as nat,
                ),
            }
        }
    }

    /// The stream after it was asked `count` times in a row.
    pub open spec fn after(self, max: u32, count: nat) -> Stream
        decreases count,
    {
        if count == 0 {
            self
        } else {
            self.advance(max).after(max, (count - 1) as nat)
        }
    }
}

/// A framed payload at the front of the stream is received as it was sent
/// where it is within the limit, and reported as oversize where it is not.
/// Either way the stream is then left at the byte that follows the frame.
pub proof fn lemma_frame_received(payload: Seq<u8>, rest: Seq<u8>, max: u32)
    requires
        payload.len() <= u32::MAX,
    ensures
        Stream::of(frame(payload) + rest).next(max) == Some(verdict(payload, max)),
        Stream::of(frame(payload) + rest).advance(max) == Stream::of(rest),
{
    let size = payload.len() as u32;
    let unread = frame(payload) + rest;
    lemma_join_prefix(size, payload + rest);
    assert(unread =~= be32(size) + (payload + rest));
    assert(unread.subrange(4, 4 + size) =~= payload);
    assert(unread.skip(4 + size) =~= rest);
    assert(unread.skip(4).skip(size as int) =~= rest);
}

/// Round trip of a whole conversation: the frames of any payloads, received
/// under the limit `max`, give one result for each payload, in the order of
/// sending: the payload itself where it is within the limit, `Oversize` where
/// it is not. Nothing is left over.
pub proof fn lemma_frames_received(payloads: Seq<Seq<u8>>, max: u32)
    requires
        framable(payloads),
    ensures
        Stream::of(frames(payloads)).take(max, payloads.len()) == verdicts(payloads, max),
        Stream::of(frames(payloads)).after(max, payloads.len()) == Stream::empty(),
    decreases payloads.len(),
{
    let stream = Stream::of(frames(payloads));
    let expected = verdicts(payloads, max);
    if payloads.len() == 0 {
        assert(stream.take(max, 0) =~= expected);
    } else {
        let rest = payloads.drop_first();
        lemma_frame_received(payloads.first(), frames(rest), max);
        lemma_frames_received(rest, max);
        assert(expected =~= seq![verdict(payloads.first(), max)] + verdicts(rest, max));
    }
}

/// A payload of exactly the limit's length is within the limit: framed, it is
/// received as it was sent.
pub proof fn lemma_payload_at_limit(payload: Seq<u8>, rest: Seq<u8>, max: u32)
    requires
        payload.len() == max,
    ensures
        Stream::of(frame(payload) + rest).next(max) == Some(Ok::<Seq<u8>, Oversize>(payload)),
        Stream::of(frame(payload) + rest).advance(max) == Stream::of(rest),
{
    lemma_frame_received(payload, rest, max);
}

/// A payload of no bytes at all has a frame of its own, the four bytes of
/// zero, and is received as the empty payload under any limit.
pub proof fn lemma_empty_payload(rest: Seq<u8>, max: u32)
    ensures
        frame(Seq::<u8>::empty()).len() == 4,
        Stream::of(frame(Seq::<u8>::empty()) + rest).next(max) == Some(
            Ok::<Seq<u8>, Oversize>(Seq::empty()),
        ),
        Stream::of(frame(Seq::<u8>::empty()) + rest).advance(max) == Stream::of(rest),
{
    lemma_frame_received(Seq::<u8>::empty(), rest, max);
}

/// A payload that is one byte over the limit is reported as oversize and
/// skipped whole, and the payload that follows it is received as it was
/// sent: the stream stays in step.
pub proof fn lemma_oversize_then_next(oversize: Seq<u8>, following: Seq<u8>, max: u32)
    requires
        oversize.len() == max + 1,
        oversize.len() <= u32::MAX,
        following.len() <= max,
    ensures
        Stream::of(frame(oversize) + frame(following)).take(max, 2) == seq![
            Err::<Seq<u8>, Oversize>(Oversize),
            Ok::<Seq<u8>, Oversize>(following),
        ],
        Stream::of(frame(oversize) + frame(following)).after(max, 2) == Stream::empty(),
{
    let payloads = seq![oversize, following];
    assert(payloads.drop_first() =~= seq![following]);
    assert(payloads.drop_first().drop_first() =~= Seq::<Seq<u8>>::empty());
    assert(frames(payloads) =~= frame(oversize) + frame(following)) by {
        assert(frames(seq![following]) =~= frame(following)) by {
            assert(frames(Seq::<Seq<u8>>::empty()) =~= Seq::<u8>::empty());
        }
    }
    lemma_frames_received(payloads, max);
    assert(verdicts(payloads, max) =~= seq![
        Err::<Seq<u8>, Oversize>(Oversize),
        Ok::<Seq<u8>, Oversize>(following),
    ]);
}

/// A payload that is announced as oversize before all of it has arrived is
/// skipped as it arrives, however it is cut into pieces: once the rest of it
/// and what follows have arrived, the stream stands where it would stand had
/// all arrived at once.
pub proof fn lemma_oversize_skipped_late(
    oversize: Seq<u8>,
    rest: Seq<u8>,
    arrived: int,
    max: u32,
)
    requires
        max < oversize.len() <= u32::MAX,
        0 <= arrived <= oversize.len(),
    ensures
        Stream::of(frame(oversize).take(4 + arrived)).next(max) == Some(
            Err::<Seq<u8>, Oversize>(Oversize),
        ),
        Stream::of(frame(oversize).take(4 + arrived)).advance(max).feed(
            oversize.skip(arrived) + rest,
        ) == Stream::of(rest),
{
    let size = oversize.len() as u32;
    let early = frame(oversize).take(4 + arrived);
    let late = oversize.skip(arrived) + rest;
    lemma_join_prefix(size, oversize.take(arrived));
    assert(early =~= be32(size) + oversize.take(arrived));
    assert(early.skip(4).skip(arrived) =~= Seq::<u8>::empty());
    let owed = oversize.len() - arrived;
    assert(late.skip(owed) =~= rest);
    assert(Stream::of(early).advance(max).feed(late).unread =~= rest);
}

/// Bytes may arrive in any pieces: taking them in one after the other leaves
/// the stream as taking them in at once does.
pub proof fn lemma_feed_in_pieces(stream: Stream, first: Seq<u8>, second: Seq<u8>)
    ensures
        stream.feed(first).feed(second) == stream.feed(first + second),
{
    let whole = first + second;
    if stream.discard <= first.len() {
        assert(whole.skip(stream.discard as int) =~= first.skip(stream.discard as int) + second);
    } else {
        let owed = stream.discard - first.len();
        let dropped = if owed <= second.len() {
            owed
        } else {
            second.len() as int
        };
        assert(whole.skip(first.len() + dropped) =~= second.skip(dropped));
        assert(first.skip(first.len() as int) =~= Seq::<u8>::empty());
    }
    assert(stream.feed(first).feed(second).unread =~= stream.feed(whole).unread);
}

/// What the stream gives does not depend on when later bytes arrive: once it
/// has something to give, bytes that arrive before it is asked change neither
/// what it gives nor what is left afterwards.
pub proof fn lemma_feed_commutes(stream: Stream, bytes: Seq<u8>, max: u32)
    requires
        stream.wf(),
        stream.next(max) is Some,
    ensures
        stream.feed(bytes).next(max) == stream.next(max),
        stream.feed(bytes).advance(max) == stream.advance(max).feed(bytes),
{
    let fed = stream.feed(bytes);
    assert(bytes.skip(0) =~= bytes);
    assert(fed.unread =~= stream.unread + bytes);
    let size = stream.announced();
    assert(fed.announced() == size);
    let rest = stream.unread.skip(4);
    assert(fed.unread.skip(4) =~= rest + bytes);
    if size > max {
        if size <= rest.len() {
            assert((rest + bytes).skip(size) =~= rest.skip(size) + bytes);
        } else {
            let owed = size - rest.len();
            let dropped = if owed <= bytes.len() {
                owed
            } else {
                bytes.len() as int
            };
            assert((rest + bytes).skip(rest.len() + dropped) =~= bytes.skip(dropped));
            assert(rest.skip(rest.len() as int) =~= Seq::<u8>::empty());
        }
        assert(fed.advance(max).unread =~= stream.advance(max).feed(bytes).unread);
    } else {
        assert(fed.unread.subrange(4, 4 + size) =~= stream.unread.subrange(4, 4 + size));
        assert(fed.unread.skip(4 + size) =~= stream.unread.skip(4 + size) + bytes);
        assert(fed.advance(max).unread =~= stream.advance(max).feed(bytes).unread);
    }
}

/// The receiving side's state: the bytes read so far and where in a frame
/// they end.
struct ReceiveState {
    buffer: bytes::BytesMut,
    message_size: u32,
    receiving_size: bool,
    bytes_to_receive: i64,
    bytes_to_skip: u32,
}

impl ReceiveState {
    /// A state that has received nothing and expects a length prefix.
    fn new() -> (state: Self)
        ensures
            buffered(state.buffer) == Seq::<u8>::empty(),
            state.message_size == 0,
            state.receiving_size,
            state.bytes_to_receive == 4,
            state.bytes_to_skip == 0,
    {
        ReceiveState {
            buffer: new_buffer(),
            message_size: 0,
            receiving_size: true,
            bytes_to_receive: 4,
            bytes_to_skip: 0,
        }
    }

    /// What is left of the stream, as this state holds it.
    spec fn stream(&self) -> Stream {
        let held = buffered(self.buffer);
        if self.receiving_size {
            let dropped = if self.bytes_to_skip <= held.len() {
                self.bytes_to_skip as int
            } else {
                held.len() as int
            };
            Stream { unread: held.skip(dropped), discard: (self.bytes_to_skip - dropped) as nat }
        } else {
            Stream { unread: be32(self.message_size) + held, discard: 0 }
        }
    }

    /// The counter of missing bytes agrees with the buffer: it is what the
    /// current prefix or payload needs, plus what is to be skipped before it,
    /// minus what the buffer holds.
    spec fn wf(&self, max: u32) -> bool {
        let held = buffered(self.buffer).len();
        &&& held <= isize::MAX
        &&& if self.receiving_size {
            &&& self.bytes_to_receive == 4 + self.bytes_to_skip - held
            &&& self.bytes_to_skip > 0 ==> self.bytes_to_receive > 0
        } else {
            &&& self.bytes_to_skip == 0
            &&& self.message_size <= max
            &&& self.bytes_to_receive == self.message_size - held
        }
    }
}

/// Transport that frames messages over a byte stream.
///
/// It owns the stream `T` and the codec, and holds the bytes that wait to be
/// written and the bytes that were read. Reading from the stream and writing
/// to it are the caller's part: the transport says what to write and takes
/// what was read.
pub struct Transport<T, Codec, Incoming, Outgoing> {
    inner: T,
    codec: Codec,
    send_buffer: bytes::BytesMut,
    receive_state: ReceiveState,
    terminated: bool,
    max_message_size: u32,
    _incoming: PhantomData<Incoming>,
    _outgoing: PhantomData<Outgoing>,
}

impl<T, Codec, Incoming, Outgoing> Transport<T, Codec, Incoming, Outgoing> {
    /// The transport's buffers and counters agree with each other.
    pub closed spec fn wf(&self) -> bool {
        &&& self.receive_state.wf(self.max_message_size)
        &&& buffered(self.send_buffer).len() <= isize::MAX
    }

    /// The largest payload that the transport accepts.
    pub closed spec fn limit(&self) -> u32 {
        self.max_message_size
    }

    /// Whether the stream has ended.
    pub closed spec fn terminated(&self) -> bool {
        self.terminated
    }

    /// The bytes that wait to be written to the stream.
    pub closed spec fn outgoing(&self) -> Seq<u8> {
        buffered(self.send_buffer)
    }

    /// What is left of the bytes that were read from the stream.
    pub closed spec fn incoming(&self) -> Stream {
        self.receive_state.stream()
    }

    /// The number of bytes read and still held.
    pub closed spec fn held(&self) -> nat {
        buffered(self.receive_state.buffer).len()
    }

    /// The stream that the transport was made with.
    pub closed spec fn stream(&self) -> T {
        self.inner
    }

    /// The codec that the transport was made with.
    pub closed spec fn codec_of(&self) -> Codec {
        self.codec
    }

    /// Create new transport wrapping a provided byte stream.
    ///
    /// Payloads are limited to [`DEFAULT_MAX_MESSAGE_SIZE`] bytes.
    pub fn new(transport: T, codec: Codec) -> (created: Self)
        ensures
            created.wf(),
            created.limit() == DEFAULT_MAX_MESSAGE_SIZE,
            !created.terminated(),
            created.outgoing() == Seq::<u8>::empty(),
            created.incoming() == Stream::empty(),
            created.held() == 0,
            created.stream() == transport,
            created.codec_of() == codec,
    {
        Transport::new_with_max_message_size(transport, codec, DEFAULT_MAX_MESSAGE_SIZE)
    }

    /// Create new transport wrapping a provided byte stream.
    ///
    /// Payloads are limited to `max_message_size` bytes: sending or receiving
    /// a longer one gives [`Error::MessageTooLarge`].
    pub fn new_with_max_message_size(transport: T, codec: Codec, max_message_size: u32) -> (created:
        Self)
        ensures
            created.wf(),
            created.limit() == max_message_size,
            !created.terminated(),
            created.outgoing() == Seq::<u8>::empty(),
            created.incoming() == Stream::empty(),
            created.held() == 0,
            created.stream() == transport,
            created.codec_of() == codec,
    {
        let created = Transport {
            inner: transport,
            codec,
            send_buffer: new_buffer(),
            receive_state: ReceiveState::new(),
            terminated: false,
            max_message_size,
            _incoming: PhantomData,
            _outgoing: PhantomData,
        };
        assert(created.incoming().unread =~= Seq::<u8>::empty());
        created
    }

    /// The buffers of a well-formed transport are within what a buffer can
    /// hold.
    pub proof fn lemma_bounded(&self)
        requires
            self.wf(),
        ensures
            self.held() <= isize::MAX,
            self.outgoing().len() <= isize::MAX,
    {
    }

    /// What is left of the incoming stream is always well-formed.
    pub proof fn lemma_incoming_wf(&self)
        requires
            self.wf(),
        ensures
            self.incoming().wf(),
    {
    }

    /// Takes in bytes that were read from the stream.
    pub fn feed(&mut self, bytes: &[u8])
        requires
            old(self).wf(),
            old(self).held() + bytes@.len() <= isize::MAX,
        ensures
            final(self).wf(),
            final(self).incoming() == old(self).incoming().feed(bytes@),
            final(self).held() <= old(self).held() + bytes@.len(),
            final(self).outgoing() == old(self).outgoing(),
            final(self).terminated() == old(self).terminated(),
            final(self).limit() == old(self).limit(),
            final(self).stream() == old(self).stream(),
            final(self).codec_of() == old(self).codec_of(),
    {
        put_slice(&mut self.receive_state.buffer, bytes);
        self.receive_state.bytes_to_receive = self.receive_state.bytes_to_receive - (
        bytes.len() as i64);
        if self.receive_state.bytes_to_skip > 0 {
            let buffer_len = buffer_len(&self.receive_state.buffer);
            let to_skip = self.receive_state.bytes_to_skip as usize;
            let skipped = if buffer_len < to_skip {
                buffer_len
            } else {
                to_skip
            };
            if skipped == buffer_len {
                clear(&mut self.receive_state.buffer);
            } else {
                advance(&mut self.receive_state.buffer, skipped);
            }
            self.receive_state.bytes_to_skip = self.receive_state.bytes_to_skip - (skipped as u32);
        }
        assert(self.incoming().unread =~= old(self).incoming().feed(bytes@).unread);
    }

    /// Cuts the next frame out of the bytes received so far.
    ///
    /// `Pending` asks for more bytes. An oversize payload is reported once,
    /// when its length prefix is complete, and then skipped.
    pub fn poll_frame(&mut self) -> (polled: Polled<Result<Vec<u8>, Oversize>>)
        requires
            old(self).wf(),
        ensures
            final(self).wf(),
            final(self).incoming() == old(self).incoming().advance(old(self).limit()),
            final(self).held() <= old(self).held(),
            final(self).outgoing() == old(self).outgoing(),
            final(self).terminated() == old(self).terminated(),
            final(self).limit() == old(self).limit(),
            final(self).stream() == old(self).stream(),
            final(self).codec_of() == old(self).codec_of(),
            match old(self).incoming().next(old(self).limit()) {
                None => polled is Pending,
                Some(Err(oversize)) => polled == Polled::Ready(Err::<Vec<u8>, Oversize>(oversize)),
                Some(Ok(payload)) => polled matches Polled::Ready(Ok(bytes)) && bytes@ == payload,
            },
    {
        if self.receive_state.bytes_to_receive > 0 {
            proof {
                if !self.receive_state.receiving_size {
                    lemma_join_prefix(
                        self.receive_state.message_size,
                        buffered(self.receive_state.buffer),
                    );
                }
            }
            return Polled::Pending;
        }
        if self.receive_state.receiving_size {
            let ghost held = buffered(self.receive_state.buffer);
            assert(old(self).incoming().unread =~= held);
            let message_size = get_u32(&mut self.receive_state.buffer);
            proof {
                lemma_split_prefix(held);
            }
            self.receive_state.message_size = message_size;
            self.receive_state.bytes_to_receive = self.receive_state.bytes_to_receive + (
            message_size as i64);
            if message_size > self.max_message_size {
                self.receive_state.bytes_to_receive = self.receive_state.bytes_to_receive + 4;
                if self.receive_state.bytes_to_receive > 0 {
                    self.receive_state.bytes_to_skip = message_size;
                } else {
                    advance(&mut self.receive_state.buffer, message_size as usize);
                }
                proof {
                    let rest = held.skip(4);
                    let expected = old(self).incoming().advance(old(self).limit());
                    assert(buffered(self.receive_state.buffer) == if message_size + 4 <= rest.len() {
                        rest.skip(message_size as int)
                    } else {
                        rest
                    });
                    assert(self.incoming().unread =~= expected.unread);
                }
                return Polled::Ready(Err(Oversize));
            }
            self.receive_state.receiving_size = false;
            assert(self.incoming() == old(self).incoming());
            if self.receive_state.bytes_to_receive > 0 {
                return Polled::Pending;
            }
        }
        let ghost before = self.incoming();
        let ghost held = buffered(self.receive_state.buffer);
        proof {
            lemma_join_prefix(self.receive_state.message_size, held);
        }
        let message_size = self.receive_state.message_size as usize;
        let payload = slice_to_vec(
            slice_subrange(bytes_of(&self.receive_state.buffer), 0, message_size),
        );
        assert(payload@ =~= held.take(message_size as int));
        advance(&mut self.receive_state.buffer, message_size);
        self.receive_state.receiving_size = true;
        self.receive_state.bytes_to_receive = self.receive_state.bytes_to_receive + 4;
        proof {
            assert(before.unread.subrange(4, 4 + message_size) =~= before.unread.skip(4).take(
                message_size as int,
            ));
            assert(before.unread.skip(4 + message_size) =~= before.unread.skip(4).skip(
                message_size as int,
            ));
            assert(self.incoming().unread =~= held.skip(message_size as int));
        }
        Polled::Ready(Ok(payload))
    }

    /// The number of bytes that were read and are still held.
    pub fn held_len(&self) -> (len: usize)
        ensures
            len == self.held(),
    {
        buffer_len(&self.receive_state.buffer)
    }

    /// Tells whether the stream has ended: nothing more is received, and
    /// sending gives `Closed`.
    pub fn is_terminated(&self) -> (terminated: bool)
        ensures
            terminated == self.terminated(),
    {
        self.terminated
    }

    /// The largest payload that the transport accepts.
    pub fn max_message_size(&self) -> (max: u32)
        ensures
            max == self.limit(),
    {
        self.max_message_size
    }

    /// The stream that the transport wraps.
    pub fn get_ref(&self) -> (inner: &T)
        ensures
            *inner == self.stream(),
    {
        &self.inner
    }

    /// The codec that the transport encodes and decodes with.
    pub fn codec(&self) -> (codec: &Codec)
        ensures
            *codec == self.codec_of(),
    {
        &self.codec
    }

    /// Tells whether the bytes to be written have room for the frame of a
    /// payload of the given length: no buffer holds more than `isize::MAX`
    /// bytes.
    pub fn has_room(&self, payload_len: usize) -> (room: bool)
        ensures
            room == (self.outgoing().len() + 4 + payload_len <= isize::MAX),
    {
        let waiting = buffer_len(&self.send_buffer);
        let limit = isize::MAX as usize;
        payload_len <= limit - 4 && waiting <= limit - 4 - payload_len
    }

    /// Frames a message for sending, given what encoding it gave.
    ///
    /// On a terminated transport the message is refused with `Closed`. A
    /// failed encoding is refused with [`Error::SerializationError`]. A
    /// payload over the limit is refused with [`Error::MessageTooLarge`]. In
    /// all three cases the bytes to be written stay as they were, whatever
    /// their number: neither a length nor a part of a payload is left among
    /// them. Otherwise the payload's frame is added to them, for which the
    /// buffer must have room: no buffer holds more than `isize::MAX` bytes.
    pub fn start_send<SerializationError, DeserializationError>(
        &mut self,
        encoding: Result<Vec<u8>, SerializationError>,
    ) -> (sent: Result<(), TransportError<Error<SerializationError, DeserializationError>>>)
        requires
            old(self).wf(),
            !old(self).terminated() && encoding is Ok && encoding->Ok_0@.len() <= old(self).limit()
                ==> old(self).outgoing().len() + 4 + encoding->Ok_0@.len() <= isize::MAX,
        ensures
            final(self).wf(),
            final(self).incoming() == old(self).incoming(),
            final(self).held() == old(self).held(),
            final(self).terminated() == old(self).terminated(),
            final(self).limit() == old(self).limit(),
            final(self).stream() == old(self).stream(),
            final(self).codec_of() == old(self).codec_of(),
            sent == sending::<SerializationError, DeserializationError>(
                old(self).terminated(),
                old(self).limit(),
                encoded(encoding),
            ),
            final(self).outgoing() == queued(
                old(self).terminated(),
                old(self).limit(),
                old(self).outgoing(),
                encoded(encoding),
            ),
    {
        if self.terminated {
            return Err(TransportError::Closed);
        }
        match encoding {
            Err(error) => Err(TransportError::Other(Error::SerializationError(error))),
            Ok(payload) => self.send_payload(payload.as_slice()),
        }
    }

    /// Frames an encoded message for sending.
    ///
    /// On a terminated transport the message is refused with `Closed`. A
    /// payload over the limit is refused with [`Error::MessageTooLarge`]. In
    /// both cases the bytes to be written stay as they were, whatever their
    /// number. Otherwise the payload's frame is added to them, for which the
    /// buffer must have room: no buffer holds more than `isize::MAX` bytes.
    pub fn send_payload<SerializationError, DeserializationError>(&mut self, payload: &[u8]) -> (sent:
        Result<(), TransportError<Error<SerializationError, DeserializationError>>>)
        requires
            old(self).wf(),
            !old(self).terminated() && payload@.len() <= old(self).limit() ==> old(self).outgoing().len()
                + 4 + payload@.len() <= isize::MAX,
        ensures
            final(self).wf(),
            final(self).incoming() == old(self).incoming(),
            final(self).held() == old(self).held(),
            final(self).terminated() == old(self).terminated(),
            final(self).limit() == old(self).limit(),
            final(self).stream() == old(self).stream(),
            final(self).codec_of() == old(self).codec_of(),
            old(self).terminated() ==> sent == Err::<(), _>(
                TransportError::<Error<SerializationError, DeserializationError>>::Closed,
            ) && final(self).outgoing() == old(self).outgoing(),
            !old(self).terminated() && payload@.len() > old(self).limit() ==> sent == Err::<(), _>(
                TransportError::Other(
                    Error::<SerializationError, DeserializationError>::MessageTooLarge,
                ),
            ) && final(self).outgoing() == old(self).outgoing(),
            !old(self).terminated() && payload@.len() <= old(self).limit() ==> sent == Ok::<
                (),
                TransportError<Error<SerializationError, DeserializationError>>,
            >(()) && final(self).outgoing() == old(self).outgoing() + frame(payload@),
    {
        if self.terminated {
            return Err(TransportError::Closed);
        }
        if payload.len() > self.max_message_size as usize {
            return Err(TransportError::Other(Error::MessageTooLarge));
        }
        let message_size = payload.len() as u32;
        put_u32(&mut self.send_buffer, message_size);
        put_slice(&mut self.send_buffer, payload);
        assert(self.outgoing() =~= old(self).outgoing() + frame(payload@));
        Ok(())
    }

    /// The bytes that wait to be written to the stream, in order.
    pub fn output(&self) -> (bytes: &[u8])
        ensures
            bytes@ == self.outgoing(),
    {
        bytes_of(&self.send_buffer)
    }

    /// Tells whether bytes wait to be written: flushing writes them before it
    /// flushes the stream itself.
    pub fn has_output(&self) -> (waiting: bool)
        ensures
            waiting == (self.outgoing().len() > 0),
    {
        buffer_len(&self.send_buffer) > 0
    }

    /// Records that the stream took the first `count` of the bytes that wait
    /// to be written.
    pub fn wrote(&mut self, count: usize)
        requires
            old(self).wf(),
            count <= old(self).outgoing().len(),
        ensures
            final(self).wf(),
            final(self).outgoing() == old(self).outgoing().skip(count as int),
            final(self).incoming() == old(self).incoming(),
            final(self).held() == old(self).held(),
            final(self).terminated() == old(self).terminated(),
            final(self).limit() == old(self).limit(),
            final(self).stream() == old(self).stream(),
            final(self).codec_of() == old(self).codec_of(),
    {
        advance(&mut self.send_buffer, count);
    }

    /// Says what a flush does next: while bytes wait to be written, the
    /// first of them are written to the stream; once none wait, the stream
    /// itself is flushed, and that ends the flush.
    pub fn poll_flush(&self) -> (step: Flush)
        ensures
            step == if self.outgoing().len() > 0 {
                Flush::Write
            } else {
                Flush::FlushStream
            },
    {
        if buffer_len(&self.send_buffer) > 0 {
            Flush::Write
        } else {
            Flush::FlushStream
        }
    }

    /// Takes in what writing the waiting bytes to the stream gave.
    ///
    /// The bytes that the stream took are gone from those that wait, and the
    /// flush goes on. A stream that took none of them takes no more: the
    /// flush fails with `Closed`. A failed write ends the flush: a reset or
    /// aborted connection with `Closed`, any other failure with
    /// [`Error::IoError`]. The bytes that wait stay as they were then.
    pub fn written<SerializationError, DeserializationError>(
        &mut self,
        outcome: Result<usize, std::io::Error>,
    ) -> (failed: Option<TransportError<Error<SerializationError, DeserializationError>>>)
        requires
            old(self).wf(),
            outcome matches Ok(count) ==> count <= old(self).outgoing().len(),
        ensures
            final(self).wf(),
            final(self).incoming() == old(self).incoming(),
            final(self).held() == old(self).held(),
            final(self).terminated() == old(self).terminated(),
            final(self).limit() == old(self).limit(),
            final(self).stream() == old(self).stream(),
            final(self).codec_of() == old(self).codec_of(),
            final(self).outgoing() == match outcome {
                Ok(count) => old(self).outgoing().skip(count as int),
                Err(_) => old(self).outgoing(),
            },
            failed == match outcome {
                Ok(count) => if count == 0 && old(self).outgoing().len() > 0 {
                    Some(
                        TransportError::<Error<SerializationError, DeserializationError>>::Closed,
                    )
                } else {
                    None
                },
                Err(error) => Some(
                    if kind_of(error).is_terminal() {
                        TransportError::Closed
                    } else {
                        TransportError::Other(Error::IoError(error))
                    },
                ),
            },
    {
        match outcome {
            Ok(count) => {
                if count == 0 && buffer_len(&self.send_buffer) > 0 {
                    assert(self.outgoing().skip(0) =~= self.outgoing());
                    Some(TransportError::Closed)
                } else {
                    self.wrote(count);
                    None
                }
            },
            Err(error) => Some(map_error(error)),
        }
    }

    /// The stream that the transport wraps, for reading from it and writing
    /// to it. The transport's own state stays as it is.
    pub fn get_mut(&mut self) -> (inner: &mut T)
        ensures
            *inner == old(self).stream(),
            final(self).stream() == *final(inner),
            final(self).wf() == old(self).wf(),
            final(self).incoming() == old(self).incoming(),
            final(self).outgoing() == old(self).outgoing(),
            final(self).held() == old(self).held(),
            final(self).terminated() == old(self).terminated(),
            final(self).limit() == old(self).limit(),
            final(self).codec_of() == old(self).codec_of(),
    {
        &mut self.inner
    }

    /// Gives the next received payload, as far as the bytes read so far
    /// allow.
    ///
    /// A terminated transport gives `Ready(None)`. `Pending` asks the caller
    /// to read from the stream and to report what came of it with
    /// [`Transport::received`] or [`Transport::read_failed`].
    pub fn poll_next<SerializationError, DeserializationError>(&mut self) -> (polled: Polled<
        Option<Result<Vec<u8>, Error<SerializationError, DeserializationError>>>,
    >)
        requires
            old(self).wf(),
        ensures
            final(self).wf(),
            final(self).held() <= old(self).held(),
            final(self).outgoing() == old(self).outgoing(),
            final(self).terminated() == old(self).terminated(),
            final(self).limit() == old(self).limit(),
            final(self).stream() == old(self).stream(),
            final(self).codec_of() == old(self).codec_of(),
            old(self).terminated() ==> polled == Polled::Ready(
                None::<Result<Vec<u8>, Error<SerializationError, DeserializationError>>>,
            ) && final(self).incoming() == old(self).incoming(),
            !old(self).terminated() ==> final(self).incoming() == old(self).incoming().advance(
                old(self).limit(),
            ) && match old(self).incoming().next(old(self).limit()) {
                None => polled is Pending,
                Some(Err(_)) => polled == Polled::Ready(
                    Some(
                        Err::<Vec<u8>, _>(
                            Error::<SerializationError, DeserializationError>::MessageTooLarge,
                        ),
                    ),
                ),
                Some(Ok(payload)) => polled matches Polled::Ready(Some(Ok(bytes))) && bytes@
                    == payload,
            },
    {
        if self.terminated {
            return Polled::Ready(None);
        }
        match self.poll_frame() {
            Polled::Pending => Polled::Pending,
            Polled::Ready(Ok(payload)) => Polled::Ready(Some(Ok(payload))),
            Polled::Ready(Err(_)) => Polled::Ready(Some(Err(Error::MessageTooLarge))),
        }
    }

    /// Takes in what a read from the stream gave. No bytes at all mean that
    /// the stream has ended: the transport terminates.
    pub fn received(&mut self, bytes: &[u8])
        requires
            old(self).wf(),
            bytes@.len() > 0 ==> old(self).held() + bytes@.len() <= isize::MAX,
        ensures
            final(self).wf(),
            final(self).outgoing() == old(self).outgoing(),
            final(self).limit() == old(self).limit(),
            final(self).stream() == old(self).stream(),
            final(self).codec_of() == old(self).codec_of(),
            final(self).incoming() == old(self).incoming().feed(bytes@),
            final(self).held() <= old(self).held() + bytes@.len(),
            final(self).terminated() == (old(self).terminated() || bytes@.len() == 0),
    {
        if bytes.len() == 0 {
            self.terminated = true;
            assert(self.incoming().unread =~= old(self).incoming().feed(bytes@).unread);
        } else {
            self.feed(bytes);
        }
    }

    /// Takes in a failed read of the given kind. A reset or aborted
    /// connection terminates the transport and gives no error; any other
    /// failure is handed on as [`Error::IoError`], and the transport stays
    /// usable.
    pub fn read_failed_as<SerializationError, DeserializationError>(
        &mut self,
        failure: Failure,
        error: std::io::Error,
    ) -> (emitted: Option<Error<SerializationError, DeserializationError>>)
        ensures
            final(self).wf() == old(self).wf(),
            final(self).outgoing() == old(self).outgoing(),
            final(self).incoming() == old(self).incoming(),
            final(self).held() == old(self).held(),
            final(self).limit() == old(self).limit(),
            final(self).stream() == old(self).stream(),
            final(self).codec_of() == old(self).codec_of(),
            final(self).terminated() == (old(self).terminated() || failure.is_terminal()),
            emitted == if failure.is_terminal() {
                None
            } else {
                Some(Error::<SerializationError, DeserializationError>::IoError(error))
            },
    {
        if failure.terminal() {
            self.terminated = true;
            None
        } else {
            Some(Error::IoError(error))
        }
    }

    /// Takes in a failed read. What becomes of it depends on the error's
    /// kind alone, as [`Transport::read_failed_as`] says.
    pub fn read_failed<SerializationError, DeserializationError>(
        &mut self,
        error: std::io::Error,
    ) -> (emitted: Option<Error<SerializationError, DeserializationError>>)
        ensures
            final(self).wf() == old(self).wf(),
            final(self).outgoing() == old(self).outgoing(),
            final(self).incoming() == old(self).incoming(),
            final(self).held() == old(self).held(),
            final(self).limit() == old(self).limit(),
            final(self).stream() == old(self).stream(),
            final(self).codec_of() == old(self).codec_of(),
            final(self).terminated() == (old(self).terminated() || kind_of(error).is_terminal()),
            emitted == if kind_of(error).is_terminal() {
                None
            } else {
                Some(Error::<SerializationError, DeserializationError>::IoError(error))
            },
    {
        let failure = failure_of(&error);
        self.read_failed_as(failure, error)
    }
}

/// What the stream gives for a payload once the codec has had it: the
/// message, or [`Error::DeserializationError`].
pub fn decoded<Message, SerializationError, DeserializationError>(
    decoding: Result<Message, DeserializationError>,
) -> (item: Result<Message, Error<SerializationError, DeserializationError>>)
    ensures
        item == match decoding {
            Ok(message) => Ok::<Message, Error<SerializationError, DeserializationError>>(message),
            Err(error) => Err(Error::DeserializationError(error)),
        },
{
    match decoding {
        Ok(message) => Ok(message),
        Err(error) => Err(Error::DeserializationError(error)),
    }
}

/// What flushing or shutting down the stream itself gave, for the sender: a
/// reset or aborted connection closes the transport, any other failure is
/// handed on as [`Error::IoError`].
pub fn flushed<SerializationError, DeserializationError>(outcome: Result<(), std::io::Error>) -> (result:
    Result<(), TransportError<Error<SerializationError, DeserializationError>>>)
    ensures
        result == match outcome {
            Ok(_) => Ok(()),
            Err(error) => Err(
                if kind_of(error).is_terminal() {
                    TransportError::<Error<SerializationError, DeserializationError>>::Closed
                } else {
                    TransportError::Other(Error::IoError(error))
                },
            ),
        },
{
    match outcome {
        Ok(_) => Ok(()),
        Err(error) => Err(map_error(error)),
    }
}

/// What a failed write, flush or shutdown of the given kind means for the
/// sender: a reset or aborted connection closes the transport, any other
/// failure is handed on as [`Error::IoError`].
pub fn map_failure<SerializationError, DeserializationError>(
    failure: Failure,
    error: std::io::Error,
) -> (mapped: TransportError<Error<SerializationError, DeserializationError>>)
    ensures
        mapped == if failure.is_terminal() {
            TransportError::Closed
        } else {
            TransportError::Other(
                Error::<SerializationError, DeserializationError>::IoError(error),
            )
        },
{
    if failure.terminal() {
        TransportError::Closed
    } else {
        TransportError::Other(Error::IoError(error))
    }
}

/// What a failed write, flush or shutdown means for the sender. It depends
/// on the error's kind alone, as [`map_failure`] says.
pub fn map_error<SerializationError, DeserializationError>(error: std::io::Error) -> (mapped:
    TransportError<Error<SerializationError, DeserializationError>>)
    ensures
        mapped == if kind_of(error).is_terminal() {
            TransportError::Closed
        } else {
            TransportError::Other(
                Error::<SerializationError, DeserializationError>::IoError(error),
            )
        },
{
    let failure = failure_of(&error);
    map_failure(failure, error)
}

} // verus!
