//! Transport for communication over WebSocket connections.
//!
//! A WebSocket connection carries whole frames. Each binary frame holds the
//! encoding of one message; text, ping and pong frames are not for this
//! transport and are passed over without a word: the receiver goes on to the
//! next frame at once. A close frame ends the
//! stream, and so does a failure that tells that the connection is over; from
//! then on the transport takes no more messages.
//!
//! The connection and the codec are used by the caller: the transport takes
//! in the frames and errors that the connection gave and decides what they
//! mean. It is reliable and ordered, as the connection is.

use vstd::prelude::*;
use core::marker::PhantomData;
use crate::error::Error as TransportError;
use crate::poll::{Advance, Polled};
use crate::transport::{Order, Reliable};
use crate::error::{prefixed, shows};
use core::fmt::Display;

pub mod receiver;
pub mod sender;
pub mod warp;
pub mod wasm;
use tungstenite::Error as WsError;
use tungstenite::Message as WsMessage;

verus! {

#[verifier::external_type_specification]
#[verifier::external_body]
pub struct ExWsMessage(WsMessage);

#[verifier::external_type_specification]
#[verifier::external_body]
pub struct ExWsError(WsError);

/// A frame of a WebSocket connection, as far as the transport reads it.
#[derive(Debug, PartialEq, Eq)]
pub enum Frame {
    /// A text frame.
    Text,
    /// A binary frame with its payload.
    Binary(Vec<u8>),
    /// A ping.
    Ping,
    /// A pong.
    Pong,
    /// A close frame.
    Close,
    /// A raw frame, which no connection gives when it reads.
    Raw,
}

/// A failure of a WebSocket connection, as far as the transport tells
/// failures apart.
#[derive(Debug, Clone, Copy, PartialEq, Eq, Structural)]
pub enum Fault {
    /// The connection was closed in the regular way.
    ConnectionClosed,
    /// The connection had been closed before it was used.
    AlreadyClosed,
    /// The peer went away without a closing handshake.
    ResetWithoutClosingHandshake,
    /// Any other failure.
    Other,
}

/// The frame that a `tungstenite::Message` is, by its variant, with the
/// payload of a binary one.
pub uninterp spec fn frame_kind(message: WsMessage) -> Frame;

/// The kind of a `tungstenite::Error`, by its variant.
pub uninterp spec fn fault_kind(error: WsError) -> Fault;

/// The binary `tungstenite::Message` that holds the given payload.
pub uninterp spec fn binary_frame(payload: Seq<u8>) -> WsMessage;

/// Sorts a `tungstenite::Message` by its variant and moves the payload of a
/// binary one out. The frame is the message's own: the result is what
/// [`frame_kind`] names.
#[verifier::external_body]
pub(crate) fn frame_of(message: WsMessage) -> (frame: Frame)
    ensures
        frame == frame_kind(message),
{
    match message {
        WsMessage::Text(_) => Frame::Text,
        WsMessage::Binary(payload) => Frame::Binary(payload.into()),
        WsMessage::Ping(_) => Frame::Ping,
        WsMessage::Pong(_) => Frame::Pong,
        WsMessage::Close(_) => Frame::Close,
        WsMessage::Frame(_) => Frame::Raw,
    }
}

/// Sorts a `tungstenite::Error` by its variant. The kind is the error's own:
/// the result is what [`fault_kind`] names.
#[verifier::external_body]
pub(crate) fn fault_of(error: &WsError) -> (fault: Fault)
    ensures
        fault == fault_kind(*error),
{
    match error {
        WsError::ConnectionClosed => Fault::ConnectionClosed,
        WsError::AlreadyClosed => Fault::AlreadyClosed,
        WsError::Protocol(
            tungstenite::error::ProtocolError::ResetWithoutClosingHandshake,
        ) => Fault::ResetWithoutClosingHandshake,
        _ => Fault::Other,
    }
}

/// Whether the message, sorted by its variant, is a binary frame that holds
/// exactly these bytes.
pub open spec fn carries(message: WsMessage, payload: Seq<u8>) -> bool {
    frame_kind(message) matches Frame::Binary(held) && held@ == payload
}

/// `tungstenite::Message::binary`: a binary frame with the given payload.
/// The frame depends on the payload alone: the result is what
/// [`binary_frame`] names. It is the `Binary` variant and holds the payload,
/// so that sorted by its variant it is a binary frame with these bytes.
#[verifier::external_body]
pub(crate) fn binary(payload: Vec<u8>) -> (message: WsMessage)
    ensures
        message == binary_frame(payload@),
        carries(message, payload@),
{
    WsMessage::binary(payload)
}

/// Errors of the WebSocket transport.
#[derive(Debug)]
pub enum Error<SerializationError, DeserializationError> {
    /// The codec could not encode a message.
    SerializationError(SerializationError),
    /// The codec could not decode a frame's payload.
    DeserializationError(DeserializationError),
    /// The connection failed in a way that does not end it.
    TungsteniteError(WsError),
}

impl<SerializationError: Display, DeserializationError: Display> Error<
    SerializationError,
    DeserializationError,
> {
    /// Says what went wrong, with what the cause says of itself.
    pub fn to_string(&self) -> (text: String)
        ensures
            match self {
                Error::SerializationError(error) => shows(
                    "failed to serialize message: "@,
                    error,
                    text@,
                ),
                Error::DeserializationError(error) => shows(
                    "failed to deserialize message: "@,
                    error,
                    text@,
                ),
                Error::TungsteniteError(error) => shows(
                    "tungstenite error occurred: "@,
                    error,
                    text@,
                ),
            },
    {
        match self {
            Error::SerializationError(error) => prefixed("failed to serialize message: ", error),
            Error::DeserializationError(error) => prefixed(
                "failed to deserialize message: ",
                error,
            ),
            Error::TungsteniteError(error) => prefixed("tungstenite error occurred: ", error),
        }
    }
}

/// What the connection gave when its stream was polled, sorted: a frame, or a
/// failure with its kind.
pub type Polling<Failure = WsError> = Polled<Option<Result<Frame, (Fault, Failure)>>>;

impl Fault {
    /// Whether a failure of this kind tells the receiver that the connection
    /// is over: it was reset, it is closed, or it was closed before.
    pub open spec fn is_terminal(self) -> bool {
        !(self is Other)
    }

    /// Tells whether a failure of this kind ends the stream.
    pub fn terminal(&self) -> (terminal: bool)
        ensures
            terminal == self.is_terminal(),
    {
        match self {
            Fault::ConnectionClosed => true,
            Fault::AlreadyClosed => true,
            Fault::ResetWithoutClosingHandshake => true,
            Fault::Other => false,
        }
    }
}

/// Whether what the connection gave ends the stream: its own end, a close
/// frame, or a failure that tells that the connection is over.
pub open spec fn ends_stream<Failure>(polling: Polling<Failure>) -> bool {
    match polling {
        Polled::Ready(None) => true,
        Polled::Ready(Some(Ok(frame))) => frame is Close,
        Polled::Ready(Some(Err((fault, _)))) => fault.is_terminal(),
        Polled::Pending => false,
    }
}

/// What the receiving side makes of what the connection gave.
pub enum Verdict<Failure = WsError> {
    /// The payload of a binary frame: the encoding of one message.
    Payload(Vec<u8>),
    /// A failure that does not end the stream.
    Failed(Failure),
    /// The stream has ended.
    Ended,
    /// A frame that is not for the receiver, and is passed over: the next
    /// frame is asked for at once.
    Skipped,
    /// Nothing to give: the connection is pending.
    Nothing,
}

/// What the receiving side makes of what the connection gave.
///
/// A binary frame gives its payload. The stream ends with the connection's
/// stream, with a close frame, and with a failure that tells that the
/// connection is over: a reset without closing handshake, a closed
/// connection, a connection that was closed before. Any other failure is
/// handed on. Any other frame is passed over. A pending connection gives
/// nothing.
pub open spec fn verdict<Failure>(polling: Polling<Failure>) -> Verdict<Failure> {
    match polling {
        Polled::Pending => Verdict::Nothing,
        Polled::Ready(None) => Verdict::Ended,
        Polled::Ready(Some(Ok(Frame::Binary(payload)))) => Verdict::Payload(payload),
        Polled::Ready(Some(Ok(Frame::Close))) => Verdict::Ended,
        Polled::Ready(Some(Ok(_))) => Verdict::Skipped,
        Polled::Ready(Some(Err((fault, error)))) => if fault.is_terminal() {
            Verdict::Ended
        } else {
            Verdict::Failed(error)
        },
    }
}

/// Decides what the receiving side makes of what the connection gave.
pub fn judge<Failure>(polling: Polling<Failure>) -> (decided: Verdict<Failure>)
    ensures
        decided == verdict(polling),
        decided is Ended == ends_stream(polling),
{
    match polling {
        Polled::Pending => Verdict::Nothing,
        Polled::Ready(None) => Verdict::Ended,
        Polled::Ready(Some(Ok(frame))) => match frame {
            Frame::Binary(payload) => Verdict::Payload(payload),
            Frame::Close => Verdict::Ended,
            _ => Verdict::Skipped,
        },
        Polled::Ready(Some(Err((fault, error)))) => {
            if fault.terminal() {
                Verdict::Ended
            } else {
                Verdict::Failed(error)
            }
        },
    }
}

/// What a receive makes of what the connection gives in a row, one result
/// for each step: what it makes of the first that is not a frame passed
/// over, or nothing where all of them are.
pub open spec fn driven<Failure>(pollings: Seq<Polling<Failure>>) -> Verdict<Failure>
    decreases pollings.len(),
{
    if pollings.len() == 0 {
        Verdict::Nothing
    } else if verdict(pollings.first()) is Skipped {
        driven(pollings.drop_first())
    } else {
        verdict(pollings.first())
    }
}

/// Frames that are not for the receiver (text, ping, pong) are passed over
/// in silence: however many of them come first, the receive gives what the
/// connection gives after them. They give no item, no error and no end.
pub proof fn lemma_frames_passed_over<Failure>(
    passed: Seq<Polling<Failure>>,
    rest: Seq<Polling<Failure>>,
)
    requires
        forall|i: int|
            0 <= i < passed.len() ==> (#[trigger] passed[i] matches Polled::Ready(Some(Ok(frame)))
                && (frame is Text || frame is Ping || frame is Pong || frame is Raw)),
    ensures
        driven(passed + rest) == driven(rest),
    decreases passed.len(),
{
    if passed.len() == 0 {
        assert(passed + rest =~= rest);
    } else {
        assert(verdict(passed[0]) is Skipped);
        assert((passed + rest).first() == passed[0]);
        assert((passed + rest).drop_first() =~= passed.drop_first() + rest);
        assert forall|i: int| 0 <= i < passed.drop_first().len() implies (#[trigger] passed.drop_first()[i] matches Polled::Ready(
            Some(Ok(frame)),
        ) && (frame is Text || frame is Ping || frame is Pong || frame is Raw)) by {
            assert(passed.drop_first()[i] == passed[i + 1]);
        }
        lemma_frames_passed_over(passed.drop_first(), rest);
    }
}

/// What the transport's stream gives for what the connection gave, sorted:
/// the payload of a binary frame, to be decoded; a failure that does not end the stream, as
/// [`Error::TungsteniteError`]; the end; a call to step again for a frame
/// that was passed over; or nothing yet.
pub open spec fn answers<SerializationError, DeserializationError>(polling: Polling) -> Advance<
    Option<Result<Vec<u8>, Error<SerializationError, DeserializationError>>>,
> {
    match verdict(polling) {
        Verdict::Payload(payload) => Advance::Ready(Some(Ok(payload))),
        Verdict::Failed(error) => Advance::Ready(
            Some(
                Err(Error::<SerializationError, DeserializationError>::TungsteniteError(error)),
            ),
        ),
        Verdict::Ended => Advance::Ready(None),
        Verdict::Skipped => Advance::Again,
        Verdict::Nothing => Advance::Pending,
    }
}

/// What polling the connection's stream gave, sorted: a frame by its
/// variant, a failure by its kind.
pub open spec fn sorting(item: Polled<Option<Result<WsMessage, WsError>>>) -> Polling {
    match item {
        Polled::Pending => Polled::Pending,
        Polled::Ready(None) => Polled::Ready(None),
        Polled::Ready(Some(Ok(message))) => Polled::Ready(Some(Ok(frame_kind(message)))),
        Polled::Ready(Some(Err(error))) => Polled::Ready(Some(Err((fault_kind(error), error)))),
    }
}

/// Whether a failure of this kind tells the sender that the connection is
/// closed.
pub open spec fn closes_sender(fault: Fault) -> bool {
    fault is ConnectionClosed || fault is AlreadyClosed
}

/// Web Socket transport.
///
/// Its receiving side passes over all frames that are not binary.
pub struct Transport<T, Codec, Incoming, Outgoing> {
    inner: T,
    codec: Codec,
    terminated: bool,
    _incoming: PhantomData<Incoming>,
    _outgoing: PhantomData<Outgoing>,
}

impl<T, Codec, Incoming, Outgoing> Transport<T, Codec, Incoming, Outgoing> {
    /// Whether the stream has ended.
    pub closed spec fn terminated(&self) -> bool {
        self.terminated
    }

    /// The connection that the transport was made with.
    pub closed spec fn stream(&self) -> T {
        self.inner
    }

    /// The codec that the transport was made with.
    pub closed spec fn codec_of(&self) -> Codec {
        self.codec
    }

    /// Create new transport wrapping a provided connection.
    pub fn new(stream: T, codec: Codec) -> (transport: Self)
        ensures
            !transport.terminated(),
            transport.stream() == stream,
            transport.codec_of() == codec,
    {
        Transport {
            inner: stream,
            codec,
            terminated: false,
            _incoming: PhantomData,
            _outgoing: PhantomData,
        }
    }

    /// Tells whether the stream has ended.
    pub fn is_terminated(&self) -> (terminated: bool)
        ensures
            terminated == self.terminated(),
    {
        self.terminated
    }

    /// The connection, to be polled and written to.
    pub fn get_mut(&mut self) -> (inner: &mut T)
        ensures
            *inner == old(self).stream(),
            final(self).stream() == *final(inner),
            final(self).codec_of() == old(self).codec_of(),
            final(self).terminated() == old(self).terminated(),
    {
        &mut self.inner
    }

    /// The codec that the transport encodes and decodes with.
    pub fn codec(&self) -> (codec: &Codec)
        ensures
            *codec == self.codec_of(),
    {
        &self.codec
    }

    /// Makes the frame for a message from its encoding: a binary frame that
    /// holds it. Once the stream has ended the message is refused with
    /// `Closed`. A failed encoding is refused with
    /// [`Error::SerializationError`].
    pub fn start_send<SerializationError, DeserializationError>(
        &self,
        encoding: Result<Vec<u8>, SerializationError>,
    ) -> (frame: Result<
        WsMessage,
        TransportError<Error<SerializationError, DeserializationError>>,
    >)
        ensures
            frame == if self.terminated() {
                Err::<WsMessage, _>(
                    TransportError::<Error<SerializationError, DeserializationError>>::Closed,
                )
            } else {
                match encoding {
                    Ok(payload) => Ok(binary_frame(payload@)),
                    Err(error) => Err(
                        TransportError::Other(
                            Error::<
                                SerializationError,
                                DeserializationError,
                            >::SerializationError(error),
                        ),
                    ),
                }
            },
            frame matches Ok(message) ==> carries(message, encoding->Ok_0@),
    {
        if self.terminated {
            return Err(TransportError::Closed);
        }
        match encoding {
            Ok(payload) => Ok(binary(payload)),
            Err(error) => Err(TransportError::Other(Error::SerializationError(error))),
        }
    }

    /// Takes in what polling the connection's stream gave, sorted.
    ///
    /// A binary frame gives its payload, to be decoded. A frame of another
    /// kind is passed over: the answer is to step again, since the
    /// connection was ready and will wake nobody for the frame after it. The
    /// stream ends, now and for good, with the connection's stream, with a
    /// close frame, and with a failure that tells that the connection is
    /// over. Any other failure is handed on as [`Error::TungsteniteError`].
    /// A pending connection gives a pending answer.
    pub fn poll_next_as<SerializationError, DeserializationError>(
        &mut self,
        polling: Polling,
    ) -> (polled: Advance<
        Option<Result<Vec<u8>, Error<SerializationError, DeserializationError>>>,
    >)
        ensures
            final(self).stream() == old(self).stream(),
            final(self).codec_of() == old(self).codec_of(),
            final(self).terminated() == (old(self).terminated() || ends_stream(polling)),
            polled == answers::<SerializationError, DeserializationError>(polling),
    {
        match judge(polling) {
            Verdict::Payload(payload) => Advance::Ready(Some(Ok(payload))),
            Verdict::Failed(error) => Advance::Ready(Some(Err(Error::TungsteniteError(error)))),
            Verdict::Ended => {
                self.terminated = true;
                Advance::Ready(None)
            },
            Verdict::Skipped => Advance::Again,
            Verdict::Nothing => Advance::Pending,
        }
    }

    /// Takes in what polling the connection's stream gave. The frame or
    /// failure is sorted by its variant, and then it is as
    /// [`Transport::poll_next_as`] says.
    pub fn poll_next<SerializationError, DeserializationError>(
        &mut self,
        item: Polled<Option<Result<WsMessage, WsError>>>,
    ) -> (polled: Advance<
        Option<Result<Vec<u8>, Error<SerializationError, DeserializationError>>>,
    >)
        ensures
            final(self).stream() == old(self).stream(),
            final(self).codec_of() == old(self).codec_of(),
            final(self).terminated() == (old(self).terminated() || ends_stream(sorting(item))),
            polled == answers::<SerializationError, DeserializationError>(sorting(item)),
    {
        let polling = sort(item);
        self.poll_next_as(polling)
    }
}

/// Sorts what polling the connection's stream gave: a frame by its variant, a
/// failure by its kind.
pub fn sort(item: Polled<Option<Result<WsMessage, WsError>>>) -> (polling:
    Polling)
    ensures
        polling == sorting(item),
{
    match item {
        Polled::Pending => Polled::Pending,
        Polled::Ready(None) => Polled::Ready(None),
        Polled::Ready(Some(Ok(message))) => Polled::Ready(Some(Ok(frame_of(message)))),
        Polled::Ready(Some(Err(error))) => {
            let fault = fault_of(&error);
            Polled::Ready(Some(Err((fault, error))))
        },
    }
}

/// What a failure of the given kind means for the sender: on a connection
/// that is closed, or was closed before, the transport is closed; any other
/// failure is handed on as [`Error::TungsteniteError`].
pub fn map_error_as<SerializationError, DeserializationError>(
    fault: Fault,
    error: WsError,
) -> (mapped: TransportError<Error<SerializationError, DeserializationError>>)
    ensures
        mapped == if closes_sender(fault) {
            TransportError::Closed
        } else {
            TransportError::Other(
                Error::<SerializationError, DeserializationError>::TungsteniteError(error),
            )
        },
{
    match fault {
        Fault::ConnectionClosed => TransportError::Closed,
        Fault::AlreadyClosed => TransportError::Closed,
        _ => TransportError::Other(Error::TungsteniteError(error)),
    }
}

/// What a failure means for the sender. It depends on the failure's kind
/// alone, as [`map_error_as`] says of the kind that [`fault_kind`] names.
pub fn map_error<SerializationError, DeserializationError>(error: WsError) -> (mapped:
    TransportError<Error<SerializationError, DeserializationError>>)
    ensures
        mapped == if closes_sender(fault_kind(error)) {
            TransportError::Closed
        } else {
            TransportError::Other(
                Error::<SerializationError, DeserializationError>::TungsteniteError(error),
            )
        },
{
    let fault = fault_of(&error);
    map_error_as(fault, error)
}

impl<T, Codec, Incoming, Outgoing> Reliable for Transport<T, Codec, Incoming, Outgoing> {

}

impl<T, Codec, Incoming, Outgoing> Order for Transport<T, Codec, Incoming, Outgoing> {

}

} // verus!
