//! The receiving half of a WebSocket connection.

use vstd::prelude::*;
use core::marker::PhantomData;
use crate::poll::{Advance, Polled};
use crate::error::{prefixed, shows};
use core::fmt::Display;
use crate::transport::{Order, Reliable};
use crate::websocket::{ends_stream, judge, sort, sorting, verdict, Polling, Verdict};
use tungstenite::Error as WsError;
use tungstenite::Message as WsMessage;

verus! {

/// Errors of the receiving half.
#[derive(Debug)]
pub enum Error<DeserializationError> {
    /// The codec could not decode a frame's payload.
    DeserializationError(DeserializationError),
    /// The connection failed in a way that does not end it.
    TungsteniteError(WsError),
}

impl<DeserializationError: Display> Error<DeserializationError> {
    /// Says what went wrong, with what the cause says of itself.
    pub fn to_string(&self) -> (text: String)
        ensures
            match self {
                Error::DeserializationError(error) => shows(
                    "failed to deserialize message: "@,
                    error,
                    text@,
                ),
                Error::TungsteniteError(error) => shows(
                    "tungstenite error occurred: "@,
                    error,
                    text@,
                ),
            },
    {
        match self {
            Error::DeserializationError(error) => prefixed(
                "failed to deserialize message: ",
                error,
            ),
            Error::TungsteniteError(error) => prefixed("tungstenite error occurred: ", error),
        }
    }
}

/// What the receiver's stream gives for what the stream of frames gave,
/// sorted: the payload of a binary frame, to be decoded; a failure that does
/// not end the stream, as [`Error::TungsteniteError`]; the end; a call to
/// step again for a frame that was passed over; or nothing yet.
pub open spec fn answers<DeserializationError>(polling: Polling) -> Advance<
    Option<Result<Vec<u8>, Error<DeserializationError>>>,
> {
    match verdict(polling) {
        Verdict::Payload(payload) => Advance::Ready(Some(Ok(payload))),
        Verdict::Failed(error) => Advance::Ready(
            Some(Err(Error::<DeserializationError>::TungsteniteError(error))),
        ),
        Verdict::Ended => Advance::Ready(None),
        Verdict::Skipped => Advance::Again,
        Verdict::Nothing => Advance::Pending,
    }
}

/// Message receiver.
///
/// It passes over all frames that are not binary.
pub struct Receiver<S, Codec, Incoming> {
    inner: S,
    codec: Codec,
    terminated: bool,
    _incoming: PhantomData<Incoming>,
}

impl<S, Codec, Incoming> Receiver<S, Codec, Incoming> {
    /// Whether the stream has ended.
    pub closed spec fn terminated(&self) -> bool {
        self.terminated
    }

    /// The stream of frames that the receiver was made with.
    pub closed spec fn stream(&self) -> S {
        self.inner
    }

    /// The codec that the receiver was made with.
    pub closed spec fn codec_of(&self) -> Codec {
        self.codec
    }

    /// Create new receiver wrapping a provided `stream`.
    pub fn new(stream: S, codec: Codec) -> (receiver: Self)
        ensures
            !receiver.terminated(),
            receiver.stream() == stream,
            receiver.codec_of() == codec,
    {
        Receiver { inner: stream, codec, terminated: false, _incoming: PhantomData }
    }

    /// Tells whether the stream has ended.
    pub fn is_terminated(&self) -> (terminated: bool)
        ensures
            terminated == self.terminated(),
    {
        self.terminated
    }

    /// The stream of frames, to be polled.
    pub fn get_mut(&mut self) -> (inner: &mut S)
        ensures
            *inner == old(self).stream(),
            final(self).stream() == *final(inner),
            final(self).codec_of() == old(self).codec_of(),
            final(self).terminated() == old(self).terminated(),
    {
        &mut self.inner
    }

    /// The codec that the receiver decodes with.
    pub fn codec(&self) -> (codec: &Codec)
        ensures
            *codec == self.codec_of(),
    {
        &self.codec
    }

    /// Takes in what polling the stream of frames gave, sorted.
    ///
    /// A binary frame gives its payload, to be decoded. A frame of another
    /// kind is passed over: the answer is to step again, since the stream of
    /// frames was ready and will wake nobody for the frame after it. The
    /// stream ends, now and for good, with the stream of frames, with a
    /// close frame, and with a failure that tells that the connection is
    /// over. Any other failure is handed on as [`Error::TungsteniteError`].
    /// A pending stream of frames gives a pending answer.
    pub fn poll_next_as<DeserializationError>(&mut self, polling: Polling) -> (polled: Advance<
        Option<Result<Vec<u8>, Error<DeserializationError>>>,
    >)
        ensures
            final(self).stream() == old(self).stream(),
            final(self).codec_of() == old(self).codec_of(),
            final(self).terminated() == (old(self).terminated() || ends_stream(polling)),
            polled == answers::<DeserializationError>(polling),
    {
        match judge(polling) {
            Verdict::Payload(payload) => Advance::Ready(Some(Ok(payload))),
            Verdict::Failed(error) => Advance::Ready(Some(Err(Error::TungsteniteError(error)))),
            Verdict::Ended => {
                self.terminated = true;
                Advance::Ready(None)
            },
            Verdict::Skipped => Advance::Again,
            Verdict::Nothing => Advance::Pending,
        }
    }

    /// Takes in what polling the stream of frames gave. The frame or failure
    /// is sorted by its variant, and then it is as
    /// [`Receiver::poll_next_as`] says.
    pub fn poll_next<DeserializationError>(
        &mut self,
        item: Polled<Option<Result<WsMessage, WsError>>>,
    ) -> (polled: Advance<Option<Result<Vec<u8>, Error<DeserializationError>>>>)
        ensures
            final(self).stream() == old(self).stream(),
            final(self).codec_of() == old(self).codec_of(),
            final(self).terminated() == (old(self).terminated() || ends_stream(sorting(item))),
            polled == answers::<DeserializationError>(sorting(item)),
    {
        let polling = sort(item);
        self.poll_next_as(polling)
    }
}

/// What the stream gives for a payload once the codec has had it: the
/// message, or [`Error::DeserializationError`].
pub fn decoded<Message, DeserializationError>(decoding: Result<Message, DeserializationError>) -> (item:
    Result<Message, Error<DeserializationError>>)
    ensures
        item == match decoding {
            Ok(message) => Ok::<Message, Error<DeserializationError>>(message),
            Err(error) => Err(Error::DeserializationError(error)),
        },
{
    match decoding {
        Ok(message) => Ok(message),
        Err(error) => Err(Error::DeserializationError(error)),
    }
}

impl<S, Codec, Incoming> Reliable for Receiver<S, Codec, Incoming> {

}

impl<S, Codec, Incoming> Order for Receiver<S, Codec, Incoming> {

}

} // verus!
